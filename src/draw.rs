//! Boxes drawn around text, each as wide as one width strategy says the text
//! is. Where the strategy is wrong the right border does not line up with the
//! text.
use vstd::prelude::*;
use vstd::string::StringSliceAdditionalSpecFns;
use vstd::utf8::encode_utf8;
use crate::term::{Clear, Color, Terminal, clear_seq, colored, cursor_to};
use crate::unicode::{clusters_of, nfc, nfc_of, str_width_of};
use crate::wcwidths::{
    WCWidth, fish_width_total, fish_widths, recommended_width_total, recommended_widths,
    system_width_total, system_widths,
};
use crate::widths::{
    byte_count, capped, cluster_widths, codepoint_count, grapheme_count, hybrid_width,
    total, unicode_str_width,
};

verus! {

/// The colour of the borders.
pub open spec fn box_color() -> Color {
    Color::Red
}

/// `+`, `w` dashes, `+`.
pub open spec fn border(w: nat) -> Seq<u8> {
    seq![0x2bu8] + Seq::new(w, |i: int| 0x2du8) + seq![0x2bu8]
}

/// A vertical border glyph, `|`.
pub open spec fn bar(no_color: bool) -> Seq<u8> {
    colored(no_color, box_color(), seq![0x7cu8])
}

/// A box of inner width `w` around `text`: the top border at row `y`, the
/// text between two bars on row `y + 1`, the bottom border on row `y + 2`,
/// each row starting at column `x`.
pub open spec fn framed(no_color: bool, x: u16, y: u16, text: Seq<u8>, w: nat) -> Seq<u8> {
    cursor_to(x, y) + colored(no_color, box_color(), border(w)) + cursor_to(x, (y + 1) as u16)
        + bar(no_color) + text + bar(no_color) + cursor_to(x, (y + 2) as u16) + colored(
        no_color,
        box_color(),
        border(w),
    )
}

fn border_bytes(w: usize) -> (r: Vec<u8>)
    ensures
        r@ == border(w as nat),
{
    let mut v: Vec<u8> = Vec::new();
    v.push(0x2b);
    let mut i: usize = 0;
    while i < w
        invariant
            i <= w,
            v@ == seq![0x2bu8] + Seq::new(i as nat, |k: int| 0x2du8),
        decreases w - i,
    {
        v.push(0x2d);
        i = i + 1;
        assert(v@ =~= seq![0x2bu8] + Seq::new(i as nat, |k: int| 0x2du8));
    }
    v.push(0x2b);
    assert(v@ =~= border(w as nat));
    v
}

fn write_bar(t: &mut Terminal)
    ensures
        final(t).pending() == old(t).pending() + bar(old(t).no_color_spec()),
        final(t).same_setup(old(t)),
{
    let b: [u8; 1] = [0x7c];
    t.write_colored_bytes(Color::Red, &b);
    assert(b@ =~= seq![0x7cu8]);
}

fn draw_framed(t: &mut Terminal, x: u16, y: u16, s: &str, w: usize)
    requires
        y <= 0xfffd,
    ensures
        final(t).pending() == old(t).pending() + framed(
            old(t).no_color_spec(),
            x,
            y,
            s.spec_bytes(),
            w as nat,
        ),
        final(t).same_setup(old(t)),
{
    let line = border_bytes(w);
    t.move_to(x, y);
    t.write_colored_bytes(Color::Red, line.as_slice());
    t.move_to(x, y + 1);
    write_bar(t);
    t.write(s);
    write_bar(t);
    t.move_to(x, y + 2);
    t.write_colored_bytes(Color::Red, line.as_slice());
    assert(final(t).pending() =~= old(t).pending() + framed(
        old(t).no_color_spec(),
        x,
        y,
        s.spec_bytes(),
        w as nat,
    ));
}

/// Boxes `s` as wide as its UTF-8 encoding is long.
pub fn byte_len(t: &mut Terminal, x: u16, y: u16, s: &str)
    requires
        y <= 0xfffd,
    ensures
        final(t).pending() == old(t).pending() + framed(
            old(t).no_color_spec(),
            x,
            y,
            s.spec_bytes(),
            s.spec_bytes().len(),
        ),
        final(t).same_setup(old(t)),
{
    let w = byte_count(s);
    draw_framed(t, x, y, s, w);
}

/// Boxes `s` as wide as it has scalar values.
pub fn codepoints(t: &mut Terminal, x: u16, y: u16, s: &str)
    requires
        y <= 0xfffd,
    ensures
        final(t).pending() == old(t).pending() + framed(
            old(t).no_color_spec(),
            x,
            y,
            s.spec_bytes(),
            s@.len(),
        ),
        final(t).same_setup(old(t)),
{
    let w = codepoint_count(s);
    draw_framed(t, x, y, s, w);
}

/// Boxes the NFC of `s`, as wide as that has scalar values.
pub fn nfc_codepoints(t: &mut Terminal, x: u16, y: u16, s: &str)
    requires
        y <= 0xfffd,
    ensures
        final(t).pending() == old(t).pending() + framed(
            old(t).no_color_spec(),
            x,
            y,
            encode_utf8(nfc_of(s@)),
            nfc_of(s@).len(),
        ),
        final(t).same_setup(old(t)),
{
    let n = nfc(s);
    let w = codepoint_count(n.as_str());
    draw_framed(t, x, y, n.as_str(), w);
}

/// Boxes `s` as wide as it has grapheme clusters.
pub fn graphemes(t: &mut Terminal, x: u16, y: u16, s: &str)
    requires
        y <= 0xfffd,
    ensures
        final(t).pending() == old(t).pending() + framed(
            old(t).no_color_spec(),
            x,
            y,
            s.spec_bytes(),
            clusters_of(s@).len(),
        ),
        final(t).same_setup(old(t)),
{
    let w = grapheme_count(s);
    draw_framed(t, x, y, s, w);
}

/// Boxes `s` as wide as the platform's `wcwidth` says, given its answers `ns`
/// for the scalars of `s` in order.
pub fn system_wcwidth(t: &mut Terminal, x: u16, y: u16, s: &str, ns: &[i32])
    requires
        y <= 0xfffd,
    ensures
        final(t).pending() == old(t).pending() + framed(
            old(t).no_color_spec(),
            x,
            y,
            s.spec_bytes(),
            capped(total(system_widths(ns@))) as nat,
        ),
        final(t).same_setup(old(t)),
{
    let w = system_width_total(ns);
    draw_framed(t, x, y, s, w);
}

/// Boxes `s` as wide as its East-Asian-aware string width.
pub fn unicode_width(t: &mut Terminal, x: u16, y: u16, s: &str)
    requires
        y <= 0xfffd,
    ensures
        final(t).pending() == old(t).pending() + framed(
            old(t).no_color_spec(),
            x,
            y,
            s.spec_bytes(),
            str_width_of(s@),
        ),
        final(t).same_setup(old(t)),
{
    let w = unicode_str_width(s);
    draw_framed(t, x, y, s, w);
}

/// Boxes the NFC of `s`, as wide as that one's East-Asian-aware width.
pub fn nfc_unicode_width(t: &mut Terminal, x: u16, y: u16, s: &str)
    requires
        y <= 0xfffd,
    ensures
        final(t).pending() == old(t).pending() + framed(
            old(t).no_color_spec(),
            x,
            y,
            encode_utf8(nfc_of(s@)),
            str_width_of(nfc_of(s@)),
        ),
        final(t).same_setup(old(t)),
{
    let n = nfc(s);
    let w = unicode_str_width(n.as_str());
    draw_framed(t, x, y, n.as_str(), w);
}

/// Boxes `s` as wide as fish reads the width table, given the table class
/// `ws` and the platform answer `ns` of each scalar of `s`.
pub fn widecharwidth_fish(t: &mut Terminal, x: u16, y: u16, s: &str, ws: &[WCWidth], ns: &[i32])
    requires
        y <= 0xfffd,
        ws@.len() == s@.len(),
        ns@.len() == s@.len(),
    ensures
        final(t).pending() == old(t).pending() + framed(
            old(t).no_color_spec(),
            x,
            y,
            s.spec_bytes(),
            capped(total(fish_widths(s@, ws@, ns@))) as nat,
        ),
        final(t).same_setup(old(t)),
{
    let w = fish_width_total(s, ws, ns);
    draw_framed(t, x, y, s, w);
}

/// Boxes `s` as wide as the width table's recommended reading, given the
/// table class `ws` of each scalar of `s`.
pub fn widecharwidth_recommended(t: &mut Terminal, x: u16, y: u16, s: &str, ws: &[WCWidth])
    requires
        y <= 0xfffd,
    ensures
        final(t).pending() == old(t).pending() + framed(
            old(t).no_color_spec(),
            x,
            y,
            s.spec_bytes(),
            capped(total(recommended_widths(ws@))) as nat,
        ),
        final(t).same_setup(old(t)),
{
    let w = recommended_width_total(ws);
    draw_framed(t, x, y, s, w);
}

/// Boxes the NFC of `s`, as wide as the grapheme and emoji heuristic says.
pub fn termwiz_ish(t: &mut Terminal, x: u16, y: u16, s: &str)
    requires
        y <= 0xfffd,
    ensures
        final(t).pending() == old(t).pending() + framed(
            old(t).no_color_spec(),
            x,
            y,
            encode_utf8(nfc_of(s@)),
            capped(total(cluster_widths(clusters_of(nfc_of(s@))))) as nat,
        ),
        final(t).same_setup(old(t)),
{
    let n = nfc(s);
    let w = hybrid_width(n.as_str());
    draw_framed(t, x, y, n.as_str(), w);
}

/// The content row of a measured box: `s` between two bars on row `y + 1`.
pub open spec fn measured_row(no_color: bool, x: u16, y: u16, text: Seq<u8>) -> Seq<u8> {
    cursor_to(x, (y + 1) as u16) + bar(no_color) + text + bar(no_color)
}

/// Writes the content row of a measured box. The cursor position that the
/// terminal reports next is handed to [`read_pos`], which draws the rest.
pub fn read_pos_row(t: &mut Terminal, x: u16, y: u16, s: &str)
    requires
        y <= 0xfffd,
    ensures
        final(t).pending() == old(t).pending() + measured_row(
            old(t).no_color_spec(),
            x,
            y,
            s.spec_bytes(),
        ),
        final(t).same_setup(old(t)),
{
    t.move_to(x, y + 1);
    write_bar(t);
    t.write(s);
    write_bar(t);
    assert(final(t).pending() =~= old(t).pending() + measured_row(
        old(t).no_color_spec(),
        x,
        y,
        s.spec_bytes(),
    ));
}

/// `a - b`, or 0 where `b` is larger.
pub open spec fn monus(a: int, b: int) -> nat {
    if a >= b {
        (a - b) as nat
    } else {
        0
    }
}

/// The width that the cursor's end position `end` (column, row) shows for a
/// row written from column `x` on row `y + 1` of a screen `cols` wide: the
/// column distance less the two bars, or, where the row wrapped, the distance
/// to the right edge less the two bars.
pub open spec fn measured_width(cols: u16, x: u16, y: u16, end: (u16, u16)) -> nat {
    let w = if end.1 != y + 1 {
        monus(cols as int, x as int)
    } else {
        monus(end.0 as int, x as int)
    };
    monus(w as int, 2)
}

/// What [`read_pos`] writes where the row wrapped: a closing bar at the right
/// edge, and the rest of the screen cleared.
pub open spec fn wrap_fix(no_color: bool, cols: u16, y: u16) -> Seq<u8> {
    cursor_to(monus(cols as int, 1) as u16, (y + 1) as u16) + bar(no_color) + clear_seq(
        Clear::ToEndOfScreen,
    )
}

/// Draws the borders of a measured box whose content row was written by
/// [`read_pos_row`] and after which the terminal reported the cursor at
/// `end` (column, row).
pub fn read_pos(t: &mut Terminal, x: u16, y: u16, end: (u16, u16))
    requires
        y <= 0xfffd,
    ensures
        ({
            let nc = old(t).no_color_spec();
            let cols = old(t).size_spec().0;
            let w = measured_width(cols, x, y, end);
            let fix = if end.1 != y + 1 {
                wrap_fix(nc, cols, y)
            } else {
                Seq::<u8>::empty()
            };
            final(t).pending() == old(t).pending() + fix + cursor_to(x, y) + colored(
                nc,
                box_color(),
                border(w),
            ) + cursor_to(x, (y + 2) as u16) + colored(nc, box_color(), border(w))
        }),
        final(t).same_setup(old(t)),
{
    let (ex, ey) = end;
    let sx = x;
    let sy = y + 1;
    let cols = t.size().0;
    let width: u16 = if ey != sy {
        let edge: u16 = if cols >= 1 { cols - 1 } else { 0 };
        t.move_to(edge, sy);
        write_bar(t);
        t.clear(Clear::ToEndOfScreen);
        if cols >= sx { cols - sx } else { 0 }
    } else {
        if ex >= sx { ex - sx } else { 0 }
    };
    let ghost mid = t.pending();
    let inner: usize = if width >= 2 { (width - 2) as usize } else { 0 };
    let line = border_bytes(inner);
    t.move_to(x, y);
    t.write_colored_bytes(Color::Red, line.as_slice());
    t.move_to(x, y + 2);
    t.write_colored_bytes(Color::Red, line.as_slice());
    proof {
        let nc = old(t).no_color_spec();
        let fix = if end.1 != y + 1 {
            wrap_fix(nc, cols, y)
        } else {
            Seq::<u8>::empty()
        };
        assert(mid =~= old(t).pending() + fix);
    }
    assert(final(t).pending() =~= old(t).pending() + (if end.1 != y + 1 {
        wrap_fix(old(t).no_color_spec(), cols, y)
    } else {
        Seq::<u8>::empty()
    }) + cursor_to(x, y) + colored(
        old(t).no_color_spec(),
        box_color(),
        border(measured_width(cols, x, y, end)),
    ) + cursor_to(x, (y + 2) as u16) + colored(
        old(t).no_color_spec(),
        box_color(),
        border(measured_width(cols, x, y, end)),
    ));
}

} // verus!
