use termwidth::boxes::{
    draw_boxed_byte_len, draw_boxed_char_count, draw_boxed_fixed, draw_boxed_fixed_row,
    draw_boxed_graphemes, draw_boxed_hybrid_width_graphemes, draw_boxed_unicode_width,
};
use termwidth::term::Terminal;

fn glyphs(x: u16, y: u16, text: &str, w: usize) -> Vec<u8> {
    let line = "\u{2500}".repeat(w);
    format!(
        "\x1b[{};{}H\u{250c}{}\u{2510}\x1b[{};{}H\u{2502}{}\u{2502}\x1b[{};{}H\u{2514}{}\u{2518}",
        y, x, line, y + 1, x, text, y + 2, x, line
    )
    .into_bytes()
}

#[test]
fn glyph_boxes_by_strategy() {
    let mut t = Terminal::new((80, 24), None, false);
    draw_boxed_byte_len(&mut t, 2, 3, "caf\u{e9}");
    assert_eq!(t.take_output(), glyphs(2, 3, "caf\u{e9}", 5));
    draw_boxed_char_count(&mut t, 2, 3, "caf\u{e9}");
    assert_eq!(t.take_output(), glyphs(2, 3, "caf\u{e9}", 4));
    draw_boxed_graphemes(&mut t, 2, 3, "cafe\u{301}");
    assert_eq!(t.take_output(), glyphs(2, 3, "cafe\u{301}", 4));
    draw_boxed_unicode_width(&mut t, 1, 1, "\u{65e5}");
    assert_eq!(t.take_output(), glyphs(1, 1, "\u{65e5}", 2));
    draw_boxed_hybrid_width_graphemes(&mut t, 1, 1, "\u{1F1FA}\u{1F1F8}");
    assert_eq!(t.take_output(), glyphs(1, 1, "\u{1F1FA}\u{1F1F8}", 2));
    draw_boxed_byte_len(&mut t, 1, 1, "");
    assert_eq!(t.take_output(), glyphs(1, 1, "", 0));
}

#[test]
fn glyph_fixed_box() {
    let mut t = Terminal::new((80, 24), None, true);
    draw_boxed_fixed_row(&mut t, 1, 4, "ab");
    assert_eq!(t.take_output(), "\x1b[5;1H\u{2502}ab\u{2502}".as_bytes().to_vec());
    draw_boxed_fixed(&mut t, 1, 4, (5, 5));
    let want = "\x1b[4;1H\u{250c}\u{2500}\u{2500}\u{2510}\x1b[6;1H\u{2514}\u{2500}\u{2500}\u{2518}";
    assert_eq!(t.take_output(), want.as_bytes().to_vec());
}

#[test]
fn glyph_fixed_box_that_wrapped() {
    let mut t = Terminal::new((10, 24), None, true);
    draw_boxed_fixed(&mut t, 3, 1, (2, 3));
    let want = format!(
        "\x1b[2;8H\u{2502}\x1b[0J\x1b[1;3H\u{250c}{}\u{2510}\x1b[3;3H\u{2514}{}\u{2518}",
        "\u{2500}".repeat(3),
        "\u{2500}".repeat(3)
    );
    assert_eq!(t.take_output(), want.into_bytes());
}
