//! Boxes drawn with the box-drawing characters (`┌─┐`, `│`, `└─┘`) and no
//! colour, each as wide as one width strategy says the text is.
use vstd::prelude::*;
use vstd::string::StringSliceAdditionalSpecFns;
use crate::draw::monus;
use crate::term::{Clear, Terminal, clear_seq, cursor_to};
use crate::unicode::{clusters_of, str_width_of};
use crate::widths::{
    byte_count, capped, cluster_widths, codepoint_count, grapheme_count, hybrid_width, total,
    unicode_str_width,
};

verus! {

/// `─` in UTF-8.
pub open spec fn hline() -> Seq<u8> {
    seq![0xe2u8, 0x94u8, 0x80u8]
}

/// `│` in UTF-8.
pub open spec fn vline() -> Seq<u8> {
    seq![0xe2u8, 0x94u8, 0x82u8]
}

/// `w` horizontal lines.
pub open spec fn rule(w: nat) -> Seq<u8>
    decreases w,
{
    if w == 0 {
        Seq::empty()
    } else {
        rule((w - 1) as nat) + hline()
    }
}

/// `┌`, `w` lines, `┐`.
pub open spec fn top(w: nat) -> Seq<u8> {
    seq![0xe2u8, 0x94u8, 0x8cu8] + rule(w) + seq![0xe2u8, 0x94u8, 0x90u8]
}

/// `└`, `w` lines, `┘`.
pub open spec fn bottom(w: nat) -> Seq<u8> {
    seq![0xe2u8, 0x94u8, 0x94u8] + rule(w) + seq![0xe2u8, 0x94u8, 0x98u8]
}

/// A box of inner width `w` around `text`, top at row `y`, text on row
/// `y + 1`, bottom on row `y + 2`, each row starting at column `x`.
pub open spec fn glyph_box(x: u16, y: u16, text: Seq<u8>, w: nat) -> Seq<u8> {
    cursor_to(x, y) + top(w) + cursor_to(x, (y + 1) as u16) + vline() + text + vline()
        + cursor_to(x, (y + 2) as u16) + bottom(w)
}

fn corner_line(a: u8, w: usize, b: u8) -> (r: Vec<u8>)
    ensures
        r@ == seq![0xe2u8, 0x94u8, a] + rule(w as nat) + seq![0xe2u8, 0x94u8, b],
{
    let mut v: Vec<u8> = Vec::new();
    v.push(0xe2);
    v.push(0x94);
    v.push(a);
    let mut i: usize = 0;
    while i < w
        invariant
            i <= w,
            v@ == seq![0xe2u8, 0x94u8, a] + rule(i as nat),
        decreases w - i,
    {
        v.push(0xe2);
        v.push(0x94);
        v.push(0x80);
        i = i + 1;
        assert(v@ =~= seq![0xe2u8, 0x94u8, a] + rule(i as nat));
    }
    v.push(0xe2);
    v.push(0x94);
    v.push(b);
    assert(v@ =~= seq![0xe2u8, 0x94u8, a] + rule(w as nat) + seq![0xe2u8, 0x94u8, b]);
    v
}

fn write_vline(t: &mut Terminal)
    ensures
        final(t).pending() == old(t).pending() + vline(),
        final(t).same_setup(old(t)),
{
    let b: [u8; 3] = [0xe2, 0x94, 0x82];
    t.write_bytes(&b);
    assert(b@ =~= vline());
}

fn draw_glyph_box(t: &mut Terminal, x: u16, y: u16, s: &str, w: usize)
    requires
        y <= 0xfffd,
    ensures
        final(t).pending() == old(t).pending() + glyph_box(x, y, s.spec_bytes(), w as nat),
        final(t).same_setup(old(t)),
{
    let upper = corner_line(0x8c, w, 0x90);
    let lower = corner_line(0x94, w, 0x98);
    t.move_to(x, y);
    t.write_bytes(upper.as_slice());
    t.move_to(x, y + 1);
    write_vline(t);
    t.write(s);
    write_vline(t);
    t.move_to(x, y + 2);
    t.write_bytes(lower.as_slice());
    assert(final(t).pending() =~= old(t).pending() + glyph_box(x, y, s.spec_bytes(), w as nat));
}

/// A box of `s` as wide as its UTF-8 encoding is long.
pub fn draw_boxed_byte_len(t: &mut Terminal, x: u16, y: u16, s: &str)
    requires
        y <= 0xfffd,
    ensures
        final(t).pending() == old(t).pending() + glyph_box(
            x,
            y,
            s.spec_bytes(),
            s.spec_bytes().len(),
        ),
        final(t).same_setup(old(t)),
{
    let w = byte_count(s);
    draw_glyph_box(t, x, y, s, w);
}

/// A box of `s` as wide as it has scalar values.
pub fn draw_boxed_char_count(t: &mut Terminal, x: u16, y: u16, s: &str)
    requires
        y <= 0xfffd,
    ensures
        final(t).pending() == old(t).pending() + glyph_box(x, y, s.spec_bytes(), s@.len()),
        final(t).same_setup(old(t)),
{
    let w = codepoint_count(s);
    draw_glyph_box(t, x, y, s, w);
}

/// A box of `s` as wide as it has grapheme clusters.
pub fn draw_boxed_graphemes(t: &mut Terminal, x: u16, y: u16, s: &str)
    requires
        y <= 0xfffd,
    ensures
        final(t).pending() == old(t).pending() + glyph_box(
            x,
            y,
            s.spec_bytes(),
            clusters_of(s@).len(),
        ),
        final(t).same_setup(old(t)),
{
    let w = grapheme_count(s);
    draw_glyph_box(t, x, y, s, w);
}

/// A box of `s` as wide as its East-Asian-aware width.
pub fn draw_boxed_unicode_width(t: &mut Terminal, x: u16, y: u16, s: &str)
    requires
        y <= 0xfffd,
    ensures
        final(t).pending() == old(t).pending() + glyph_box(
            x,
            y,
            s.spec_bytes(),
            str_width_of(s@),
        ),
        final(t).same_setup(old(t)),
{
    let w = unicode_str_width(s);
    draw_glyph_box(t, x, y, s, w);
}

/// A box of `s` as wide as the grapheme and emoji heuristic says, on `s` as
/// it stands.
pub fn draw_boxed_hybrid_width_graphemes(t: &mut Terminal, x: u16, y: u16, s: &str)
    requires
        y <= 0xfffd,
    ensures
        final(t).pending() == old(t).pending() + glyph_box(
            x,
            y,
            s.spec_bytes(),
            capped(total(cluster_widths(clusters_of(s@)))) as nat,
        ),
        final(t).same_setup(old(t)),
{
    let w = hybrid_width(s);
    draw_glyph_box(t, x, y, s, w);
}

/// The content row of a measured glyph box: `│s│` on row `y + 1`.
pub open spec fn fixed_row(x: u16, y: u16, text: Seq<u8>) -> Seq<u8> {
    cursor_to(x, (y + 1) as u16) + vline() + text + vline()
}

/// Writes the content row of a measured glyph box; the position that the
/// terminal then reports goes to [`draw_boxed_fixed`].
pub fn draw_boxed_fixed_row(t: &mut Terminal, x: u16, y: u16, s: &str)
    requires
        y <= 0xfffd,
    ensures
        final(t).pending() == old(t).pending() + fixed_row(x, y, s.spec_bytes()),
        final(t).same_setup(old(t)),
{
    t.move_to(x, y + 1);
    write_vline(t);
    t.write(s);
    write_vline(t);
    assert(final(t).pending() =~= old(t).pending() + fixed_row(x, y, s.spec_bytes()));
}

/// The inner width of a measured glyph box: the column distance that the
/// reported end position `end` shows, or where the row wrapped, the distance
/// to two columns short of the right edge; less the two lines.
pub open spec fn fixed_width(cols: u16, x: u16, y: u16, end: (u16, u16)) -> nat {
    let w = if end.1 != y + 1 {
        monus(monus(cols as int, 2) as int, x as int)
    } else {
        monus(end.0 as int, x as int)
    };
    monus(w as int, 2)
}

/// What a wrapped measured glyph box writes first: a closing line two columns
/// short of the right edge, and the rest of the screen cleared.
pub open spec fn fixed_wrap(cols: u16, y: u16) -> Seq<u8> {
    cursor_to(monus(cols as int, 2) as u16, (y + 1) as u16) + vline() + clear_seq(
        Clear::ToEndOfScreen,
    )
}

/// Draws the top and bottom of a measured glyph box whose row was written by
/// [`draw_boxed_fixed_row`], after which the cursor was reported at `end`
/// (column, row).
pub fn draw_boxed_fixed(t: &mut Terminal, x: u16, y: u16, end: (u16, u16))
    requires
        y <= 0xfffd,
    ensures
        ({
            let cols = old(t).size_spec().0;
            let w = fixed_width(cols, x, y, end);
            let fix = if end.1 != y + 1 {
                fixed_wrap(cols, y)
            } else {
                Seq::<u8>::empty()
            };
            final(t).pending() == old(t).pending() + fix + cursor_to(x, y) + top(w) + cursor_to(
                x,
                (y + 2) as u16,
            ) + bottom(w)
        }),
        final(t).same_setup(old(t)),
{
    let (ex, ey) = end;
    let sx = x;
    let sy = y + 1;
    let cols = t.size().0;
    let width: u16 = if ey != sy {
        let edge: u16 = if cols >= 2 { cols - 2 } else { 0 };
        t.move_to(edge, sy);
        write_vline(t);
        t.clear(Clear::ToEndOfScreen);
        if edge >= sx { edge - sx } else { 0 }
    } else {
        if ex >= sx { ex - sx } else { 0 }
    };
    let ghost mid = t.pending();
    let inner: usize = if width >= 2 { (width - 2) as usize } else { 0 };
    let upper = corner_line(0x8c, inner, 0x90);
    let lower = corner_line(0x94, inner, 0x98);
    t.move_to(x, y);
    t.write_bytes(upper.as_slice());
    t.move_to(x, y + 2);
    t.write_bytes(lower.as_slice());
    proof {
        let fix = if end.1 != y + 1 {
            fixed_wrap(cols, y)
        } else {
            Seq::<u8>::empty()
        };
        assert(mid =~= old(t).pending() + fix);
    }
    assert(final(t).pending() =~= old(t).pending() + (if end.1 != y + 1 {
        fixed_wrap(cols, y)
    } else {
        Seq::<u8>::empty()
    }) + cursor_to(x, y) + top(fixed_width(cols, x, y, end)) + cursor_to(x, (y + 2) as u16)
        + bottom(fixed_width(cols, x, y, end)));
}

} // verus!
