//! Per-scalar widths from a wide-character width table and from the
//! platform's `wcwidth`, and the two mappings of the table's classes to
//! columns. The platform's answer depends on the process's locale, so it is
//! taken here as a value; so is the table's class of each scalar.
use vstd::prelude::*;
use crate::widths::{add_capped, capped, lemma_total_step, total};

verus! {

/// A scalar's class in the wide-character width table.
#[derive(Copy, Clone, Debug, PartialEq, Eq, Structural)]
pub enum WCWidth {
    /// A fixed number of columns.
    Width(usize),
    Nonprint,
    Combining,
    Ambiguous,
    PrivateUse,
    Unassigned,
    /// Made wide in Unicode 9.
    WidenedIn9,
}

/// The table's classes read as recommended for the table.
pub open spec fn recommended_spec(w: WCWidth) -> nat {
    match w {
        WCWidth::Width(n) => n as nat,
        WCWidth::Nonprint => 0,
        WCWidth::Combining => 0,
        WCWidth::Ambiguous => 1,
        WCWidth::PrivateUse => 1,
        WCWidth::Unassigned => 0,
        WCWidth::WidenedIn9 => 2,
    }
}

/// The columns of a class under the table's recommended reading.
pub fn widecharwidth_recommended(w: WCWidth) -> (r: usize)
    ensures
        r == recommended_spec(w),
{
    match w {
        WCWidth::Width(n) => n,
        WCWidth::Nonprint => 0,
        WCWidth::Combining => 0,
        WCWidth::Ambiguous => 1,
        WCWidth::PrivateUse => 1,
        WCWidth::Unassigned => 0,
        WCWidth::WidenedIn9 => 2,
    }
}

/// What a platform `wcwidth` result counts for: negative (undefined) is 0.
pub open spec fn system_spec(n: i32) -> nat {
    if n >= 0 {
        n as nat
    } else {
        0
    }
}

/// A platform `wcwidth` result: the width, or the negative value as an error.
pub fn wcwidth_result(n: i32) -> (r: Result<usize, i32>)
    ensures
        n >= 0 ==> r == Ok::<usize, i32>(n as usize),
        n < 0 ==> r == Err::<usize, i32>(n),
{
    if n >= 0 {
        Ok(n as usize)
    } else {
        Err(n)
    }
}

/// Hangul Jamo medial vowels and final consonants.
pub open spec fn jamo_medial_or_final(c: char) -> bool {
    '\u{1160}' <= c <= '\u{11ff}'
}

/// The width that fish's reading of the table gives `c` of class `w`, where
/// `system` is what the platform's `wcwidth` answers for `c`.
pub open spec fn fish_spec(c: char, w: WCWidth, system: i32) -> nat {
    if c == '\u{fe0f}' {
        1
    } else if c == '\u{fe0e}' {
        0
    } else if jamo_medial_or_final(c) {
        0
    } else {
        match w {
            WCWidth::Width(n) => n as nat,
            WCWidth::Ambiguous => 1,
            WCWidth::PrivateUse => 1,
            WCWidth::WidenedIn9 => 2,
            _ => system_spec(system),
        }
    }
}

/// The width of `c`, of class `w` in the table, as fish reads the table:
/// variation selector 16 is 1 and 15 is 0 whatever the class, Hangul medial
/// and final Jamo are 0, and non-printable, combining and unassigned scalars
/// take the platform's answer `system`.
pub fn widecharwidth_fish(c: char, w: WCWidth, system: i32) -> (r: usize)
    ensures
        r == fish_spec(c, w, system),
        c == '\u{fe0f}' ==> r == 1,
        c == '\u{fe0e}' ==> r == 0,
{
    if c == '\u{fe0f}' {
        1
    } else if c == '\u{fe0e}' {
        0
    } else if '\u{1160}' <= c && c <= '\u{11ff}' {
        0
    } else {
        match w {
            WCWidth::Width(n) => n,
            WCWidth::Ambiguous => 1,
            WCWidth::PrivateUse => 1,
            WCWidth::WidenedIn9 => 2,
            _ => if system >= 0 {
                system as usize
            } else {
                0
            },
        }
    }
}

pub open spec fn system_widths(ns: Seq<i32>) -> Seq<nat> {
    ns.map_values(|n: i32| system_spec(n))
}

pub open spec fn recommended_widths(ws: Seq<WCWidth>) -> Seq<nat> {
    ws.map_values(|w: WCWidth| recommended_spec(w))
}

pub open spec fn fish_widths(cs: Seq<char>, ws: Seq<WCWidth>, ns: Seq<i32>) -> Seq<nat> {
    Seq::new(cs.len(), |i: int| fish_spec(cs[i], ws[i], ns[i]))
}

/// The platform width of a string: the sum over its scalars of the platform's
/// answers `ns`, negative ones counting 0.
pub fn system_width_total(ns: &[i32]) -> (r: usize)
    ensures
        r == capped(total(system_widths(ns@))),
{
    let ghost xs = system_widths(ns@);
    let mut sum: usize = 0;
    let mut i: usize = 0;
    while i < ns.len()
        invariant
            i <= ns@.len(),
            xs == system_widths(ns@),
            sum == capped(total(xs.take(i as int))),
        decreases ns@.len() - i,
    {
        let n = ns[i];
        let w: usize = if n >= 0 {
            n as usize
        } else {
            0
        };
        proof {
            lemma_total_step(xs, i as int);
        }
        sum = add_capped(sum, w, Ghost(total(xs.take(i as int))));
        i = i + 1;
    }
    assert(xs.take(i as int) =~= xs);
    sum
}

/// The recommended table width of a string whose scalars have classes `ws`.
pub fn recommended_width_total(ws: &[WCWidth]) -> (r: usize)
    ensures
        r == capped(total(recommended_widths(ws@))),
{
    let ghost xs = recommended_widths(ws@);
    let mut sum: usize = 0;
    let mut i: usize = 0;
    while i < ws.len()
        invariant
            i <= ws@.len(),
            xs == recommended_widths(ws@),
            sum == capped(total(xs.take(i as int))),
        decreases ws@.len() - i,
    {
        let w = widecharwidth_recommended(ws[i]);
        proof {
            lemma_total_step(xs, i as int);
        }
        sum = add_capped(sum, w, Ghost(total(xs.take(i as int))));
        i = i + 1;
    }
    assert(xs.take(i as int) =~= xs);
    sum
}

/// fish's table width of `s`, whose scalars have classes `ws` and platform
/// answers `ns`, one of each per scalar.
pub fn fish_width_total(s: &str, ws: &[WCWidth], ns: &[i32]) -> (r: usize)
    requires
        ws@.len() == s@.len(),
        ns@.len() == s@.len(),
    ensures
        r == capped(total(fish_widths(s@, ws@, ns@))),
{
    let ghost xs = fish_widths(s@, ws@, ns@);
    let len = s.unicode_len();
    let mut sum: usize = 0;
    let mut i: usize = 0;
    while i < len
        invariant
            len == s@.len(),
            ws@.len() == len,
            ns@.len() == len,
            i <= len,
            xs == fish_widths(s@, ws@, ns@),
            sum == capped(total(xs.take(i as int))),
        decreases len - i,
    {
        let w = widecharwidth_fish(s.get_char(i), ws[i], ns[i]);
        proof {
            lemma_total_step(xs, i as int);
        }
        sum = add_capped(sum, w, Ghost(total(xs.take(i as int))));
        i = i + 1;
    }
    assert(xs.take(i as int) =~= xs);
    sum
}

/// A lone variation selector 16 is one column wide under fish's reading and a
/// lone variation selector 15 none, whatever its class in the table and
/// whatever the platform answers for it.
pub proof fn lemma_lone_variation_selectors(w: WCWidth, n: i32)
    ensures
        total(fish_widths(seq!['\u{fe0f}'], seq![w], seq![n])) == 1,
        total(fish_widths(seq!['\u{fe0e}'], seq![w], seq![n])) == 0,
{
    let a = fish_widths(seq!['\u{fe0f}'], seq![w], seq![n]);
    let b = fish_widths(seq!['\u{fe0e}'], seq![w], seq![n]);
    assert(a.drop_last() =~= Seq::<nat>::empty());
    assert(b.drop_last() =~= Seq::<nat>::empty());
    assert(total(Seq::<nat>::empty()) == 0);
}

/// ASCII letters compare without regard to case.
pub open spec fn same_letter(c: char, lower: char) -> bool {
    c == lower || ('a' <= lower <= 'z' && c as u32 == lower as u32 - 32)
}

/// `s` holds `utf8` or `utf-8`, in any ASCII case, starting at `i`.
pub open spec fn utf8_at(s: Seq<char>, i: int) -> bool {
    &&& 0 <= i
    &&& i + 4 <= s.len()
    &&& same_letter(s[i], 'u')
    &&& same_letter(s[i + 1], 't')
    &&& same_letter(s[i + 2], 'f')
    &&& (s[i + 3] == '8' || (i + 5 <= s.len() && s[i + 3] == '-' && s[i + 4] == '8'))
}

pub open spec fn names_utf8(s: Seq<char>) -> bool {
    exists|i: int| utf8_at(s, i)
}

pub(crate) fn letter_is(c: char, lower: char) -> (r: bool)
    requires
        'a' <= lower <= 'z',
    ensures
        r == same_letter(c, lower),
{
    c == lower || c as u32 == lower as u32 - 32
}

/// Whether a locale name says its encoding is UTF-8 (`utf-8` or `utf8`, in
/// any case): a locale that does not is replaced before the platform's
/// `wcwidth` is asked anything.
pub fn locale_is_utf8(name: &str) -> (r: bool)
    ensures
        r == names_utf8(name@),
{
    let n = name.unicode_len();
    let mut i: usize = 0;
    while n >= 4 && i <= n - 4
        invariant
            n == name@.len(),
            i <= n,
            forall|j: int| 0 <= j < i ==> !#[trigger] utf8_at(name@, j),
        decreases n - i,
    {
        if letter_is(name.get_char(i), 'u') && letter_is(name.get_char(i + 1), 't') && letter_is(
            name.get_char(i + 2),
            'f',
        ) {
            let c3 = name.get_char(i + 3);
            if c3 == '8' || (n - i >= 5 && c3 == '-' && name.get_char(i + 4) == '8') {
                assert(utf8_at(name@, i as int));
                return true;
            }
        }
        i = i + 1;
    }
    assert forall|j: int| !#[trigger] utf8_at(name@, j) by {
        if 0 <= j && j >= i {
            assert(j + 4 > name@.len());
        }
    }
    false
}

} // verus!
