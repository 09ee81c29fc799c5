//! The width strategies that a string alone decides: each maps text to a
//! number of terminal columns under one definition of "width".
use vstd::prelude::*;
use vstd::string::StringSliceAdditionalSpecFns;
use crate::unicode::{
    clusters_of, emoji_modifier, emoji_modifier_base, graphemes, is_emoji_modifier,
    is_emoji_modifier_base, nfc, nfc_of, printable_ascii, str_width, str_width_of,
};

verus! {

/// The sum of a sequence of widths.
pub open spec fn total(ws: Seq<nat>) -> nat
    decreases ws.len(),
{
    if ws.len() == 0 {
        0
    } else {
        total(ws.drop_last()) + ws.last()
    }
}

/// `n`, or `usize::MAX` where `n` does not fit: widths add up saturating.
pub open spec fn capped(n: nat) -> usize {
    if n > usize::MAX as nat {
        usize::MAX
    } else {
        n as usize
    }
}

pub proof fn lemma_total_step(ws: Seq<nat>, i: int)
    requires
        0 <= i < ws.len(),
    ensures
        total(ws.take(i + 1)) == total(ws.take(i)) + ws[i],
{
    assert(ws.take(i + 1).drop_last() =~= ws.take(i));
}

/// `capped(a + b)` for an `a` that is itself a capped running sum.
pub(crate) fn add_capped(a: usize, b: usize, Ghost(n): Ghost<nat>) -> (r: usize)
    requires
        a == capped(n),
    ensures
        r == capped((n + b) as nat),
{
    if a > usize::MAX - b {
        usize::MAX
    } else {
        a + b
    }
}

/// The number of bytes of the string's UTF-8 encoding.
pub fn byte_count(s: &str) -> (r: usize)
    ensures
        r == s.spec_bytes().len(),
        printable_ascii(s@) ==> r == s@.len(),
{
    proof {
        if printable_ascii(s@) {
            assert(vstd::utf8::is_ascii_chars(s@));
            vstd::utf8::is_ascii_chars_encode_utf8(s@);
        }
    }
    s.as_bytes().len()
}

/// The number of Unicode scalar values.
pub fn codepoint_count(s: &str) -> (r: usize)
    ensures
        r == s@.len(),
{
    s.unicode_len()
}

/// The number of scalar values once the string is put in NFC.
pub fn nfc_codepoint_count(s: &str) -> (r: usize)
    ensures
        r == nfc_of(s@).len(),
{
    let n = nfc(s);
    n.as_str().unicode_len()
}

/// The number of extended grapheme clusters.
pub fn grapheme_count(s: &str) -> (r: usize)
    ensures
        r == clusters_of(s@).len(),
        printable_ascii(s@) ==> r == s@.len(),
{
    graphemes(s).len()
}

/// The East-Asian-width-aware width of the whole string.
pub fn unicode_str_width(s: &str) -> (r: usize)
    ensures
        r == str_width_of(s@),
        printable_ascii(s@) ==> r == s@.len(),
{
    str_width(s)
}

/// The East-Asian-width-aware width of the string's NFC.
pub fn nfc_unicode_str_width(s: &str) -> (r: usize)
    ensures
        r == str_width_of(nfc_of(s@)),
{
    let n = nfc(s);
    str_width(n.as_str())
}

/// U+1F1E6..=U+1F1FF, the letters that pair up into flags.
pub open spec fn regional_indicator(c: char) -> bool {
    0x1F1E6 <= c as u32 <= 0x1F1FF
}

/// A scalar that makes its cluster an emoji sequence for the heuristic.
pub open spec fn emoji_like(c: char) -> bool {
    emoji_modifier(c) || emoji_modifier_base(c) || regional_indicator(c)
}

pub open spec fn emoji_sequence(g: Seq<char>) -> bool {
    exists|i: int| 0 <= i < g.len() && emoji_like(#[trigger] g[i])
}

/// A cluster's width under the heuristic: 2 for an emoji sequence, else the
/// cluster's East-Asian-aware width.
pub open spec fn cluster_width_spec(g: Seq<char>) -> nat {
    if emoji_sequence(g) {
        2
    } else {
        str_width_of(g)
    }
}

/// The heuristic widths of a list of clusters.
pub open spec fn cluster_widths(gs: Seq<Seq<char>>) -> Seq<nat> {
    gs.map_values(|g: Seq<char>| cluster_width_spec(g))
}

/// The heuristic width of one grapheme cluster.
pub fn cluster_width(g: &str) -> (r: usize)
    ensures
        r as nat == cluster_width_spec(g@),
{
    let n = g.unicode_len();
    let mut i: usize = 0;
    while i < n
        invariant
            n == g@.len(),
            i <= n,
            forall|j: int| 0 <= j < i ==> !emoji_like(#[trigger] g@[j]),
        decreases n - i,
    {
        let c = g.get_char(i);
        if is_emoji_modifier(c) || is_emoji_modifier_base(c) || (0x1F1E6 <= c as u32 && c as u32
            <= 0x1F1FF) {
            assert(emoji_like(g@[i as int]));
            return 2;
        }
        i = i + 1;
    }
    str_width(g)
}

/// The heuristic width of a string as it stands: per grapheme cluster, 2 for
/// an emoji sequence (a cluster holding an emoji modifier, an emoji modifier
/// base or a regional indicator), else the cluster's own width; summed.
pub fn hybrid_width(s: &str) -> (r: usize)
    ensures
        r == capped(total(cluster_widths(clusters_of(s@)))),
{
    let gs = graphemes(s);
    let ghost ws = cluster_widths(clusters_of(s@));
    let mut sum: usize = 0;
    let mut i: usize = 0;
    while i < gs.len()
        invariant
            i <= gs@.len(),
            gs@.len() == clusters_of(s@).len(),
            ws.len() == gs@.len(),
            forall|k: int| 0 <= k < gs@.len() ==> (#[trigger] gs@[k])@ == clusters_of(s@)[k],
            ws == cluster_widths(clusters_of(s@)),
            sum == capped(total(ws.take(i as int))),
        decreases gs@.len() - i,
    {
        let w = cluster_width(gs[i].as_str());
        proof {
            lemma_total_step(ws, i as int);
        }
        sum = add_capped(sum, w, Ghost(total(ws.take(i as int))));
        i = i + 1;
    }
    assert(ws.take(i as int) =~= ws);
    sum
}

/// The heuristic width of the string's NFC.
pub fn heuristic_width(s: &str) -> (r: usize)
    ensures
        r == capped(total(cluster_widths(clusters_of(nfc_of(s@))))),
{
    let n = nfc(s);
    hybrid_width(n.as_str())
}

/// A string that forms one grapheme cluster holding a regional indicator is
/// two columns wide under the heuristic, whatever the East-Asian width of its
/// scalars.
pub proof fn lemma_regional_indicator_cluster(s: Seq<char>)
    requires
        clusters_of(s).len() == 1,
        exists|i: int| 0 <= i < clusters_of(s)[0].len() && regional_indicator(
            #[trigger] clusters_of(s)[0][i],
        ),
    ensures
        total(cluster_widths(clusters_of(s))) == 2,
        capped(total(cluster_widths(clusters_of(s)))) == 2,
{
    let gs = clusters_of(s);
    let i = choose|i: int| 0 <= i < gs[0].len() && regional_indicator(#[trigger] gs[0][i]);
    assert(emoji_like(gs[0][i]));
    let ws = cluster_widths(gs);
    assert(ws.drop_last() =~= Seq::<nat>::empty());
    assert(total(Seq::<nat>::empty()) == 0);
}

} // verus!
