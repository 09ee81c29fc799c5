use termwidth::report::{parse_report, PosReader, ReportError};
use termwidth::term::{is_terminal, Clear, Color, Terminal};

fn plain() -> Terminal {
    Terminal::new((80, 24), None, true)
}

#[test]
fn move_to_writes_row_then_column() {
    let mut t = plain();
    t.move_to(3, 7);
    assert_eq!(t.take_output(), b"\x1b[7;3H".to_vec());
    t.move_to(0, 0);
    assert_eq!(t.take_output(), b"\x1b[1;1H".to_vec());
    t.move_to(65535, 120);
    assert_eq!(t.take_output(), b"\x1b[120;65535H".to_vec());
}

#[test]
fn clear_sequences() {
    let cases = [
        (Clear::ToEndOfScreen, b"\x1b[0J"),
        (Clear::ToStartOfScreen, b"\x1b[1J"),
        (Clear::FullScreen, b"\x1b[2J"),
        (Clear::ToEndOfLine, b"\x1b[0K"),
        (Clear::ToStartOfLine, b"\x1b[1K"),
        (Clear::FullLine, b"\x1b[2K"),
    ];
    for (c, want) in cases {
        let mut t = plain();
        t.clear(c);
        assert_eq!(t.take_output(), want.to_vec());
    }
}

#[test]
fn scroll_and_status_request() {
    let mut t = plain();
    t.scroll(12);
    t.request_pos();
    assert_eq!(t.take_output(), b"\x1b[12S\x1b[6n".to_vec());
    assert!(t.take_output().is_empty());
}

#[test]
fn colored_and_plain_writes() {
    let mut t = Terminal::new((80, 24), None, false);
    t.write_colored(Color::Red, "x");
    t.write_colored(Color::White, "");
    t.write("\u{e9}");
    assert_eq!(t.take_output(), b"\x1b[31mx\x1b[m\x1b[37m\x1b[m\xc3\xa9".to_vec());
    let mut p = plain();
    p.write_colored(Color::Blue, "x");
    assert_eq!(p.take_output(), b"x".to_vec());
}

#[test]
fn color_codes() {
    let all = [
        Color::Black,
        Color::Red,
        Color::Green,
        Color::Yellow,
        Color::Blue,
        Color::Magenta,
        Color::Cyan,
        Color::White,
    ];
    for (i, c) in all.iter().enumerate() {
        assert_eq!(c.code() as usize, i);
    }
}

#[test]
fn size_and_raw_state() {
    let mut t = plain();
    assert_eq!(t.size(), (80, 24));
    assert!(!t.is_raw());
    assert!(t.take_saved().is_none());
    assert!(t.take_saved().is_none());
}

fn read_all(bytes: &[u8]) -> Option<Result<(u16, u16), ReportError>> {
    let mut r = PosReader::new();
    for &b in bytes {
        if r.feed(b) {
            return Some(r.finish());
        }
    }
    None
}

#[test]
fn reader_skips_noise_before_escape() {
    assert_eq!(read_all(b"junk\x1b[12;40R"), Some(Ok((40, 12))));
    assert_eq!(read_all(b"\x1b[1;1R"), Some(Ok((1, 1))));
    assert_eq!(read_all(b"R\x1b[3;4R"), Some(Ok((4, 3))));
    assert_eq!(read_all(b"\x1b[3;4"), None);
}

#[test]
fn move_then_report_round_trip() {
    for &(x, y) in &[(1u16, 1u16), (5, 9), (79, 23), (65535, 65535)] {
        let mut t = plain();
        t.move_to(x, y);
        let mut out = t.take_output();
        let last = out.len() - 1;
        assert_eq!(out[last], b'H');
        out[last] = b'R';
        assert_eq!(read_all(&out), Some(Ok((x, y))));
    }
}

#[test]
fn report_parse_errors() {
    assert_eq!(parse_report(&b"[x;3".to_vec()), Err(ReportError::Row));
    assert_eq!(parse_report(&b"".to_vec()), Err(ReportError::Row));
    assert_eq!(parse_report(&b";3".to_vec()), Err(ReportError::Row));
    assert_eq!(parse_report(&b"[;3".to_vec()), Err(ReportError::Row));
    assert_eq!(parse_report(&b"[70000;3".to_vec()), Err(ReportError::Row));
    assert_eq!(parse_report(&b"[12".to_vec()), Err(ReportError::Column));
    assert_eq!(parse_report(&b"[12;".to_vec()), Err(ReportError::Column));
    assert_eq!(parse_report(&b"[12;99999".to_vec()), Err(ReportError::Column));
    assert_eq!(parse_report(&b"[12;-1".to_vec()), Err(ReportError::Column));
    assert_eq!(parse_report(&b"[12;+".to_vec()), Err(ReportError::Column));
}

#[test]
fn report_parse_accepts() {
    assert_eq!(parse_report(&b"[+7;+8".to_vec()), Ok((8, 7)));
    assert_eq!(parse_report(&b"[65535;0".to_vec()), Ok((0, 65535)));
    assert_eq!(parse_report(&b"[2;3;4".to_vec()), Ok((3, 2)));
    assert_eq!(parse_report(&b"?007;010".to_vec()), Ok((10, 7)));
}

#[test]
fn interactive_terminal_check() {
    assert!(is_terminal(true, Some("xterm-256color")));
    assert!(!is_terminal(true, Some("dumb")));
    assert!(!is_terminal(true, Some("DuMb")));
    assert!(!is_terminal(true, Some("")));
    assert!(!is_terminal(true, None));
    assert!(!is_terminal(false, Some("xterm")));
    assert!(is_terminal(true, Some("dumbo")));
}
