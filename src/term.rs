//! A terminal seen as a byte stream: the escape sequences that move the
//! cursor, clear, scroll and colour, the cursor-position report that comes
//! back, and the saved attributes of a session in raw mode.
//!
//! Output is gathered in a buffer that the program hands to the device; what
//! the device answers is fed back in byte by byte.
use vstd::prelude::*;
use vstd::string::StringSliceAdditionalSpecFns;
use crate::decimal::{decimal, digit_byte, push_decimal};
use crate::wcwidths::{letter_is, same_letter};

verus! {

/// The terminal attribute set of the C library.
#[verifier::external_type_specification]
#[verifier::external_body]
pub struct ExTermios(libc::termios);

pub const ESC: u8 = 0x1b;

/// The parameter of a cursor movement: coordinates are 1-based, so 0 means 1.
pub open spec fn at_least_one(v: u16) -> nat {
    if v == 0 {
        1
    } else {
        v as nat
    }
}

/// `[row;col`: the text between the escape byte and the final letter of a
/// cursor movement and of a cursor-position report.
pub open spec fn position_text(col: nat, row: nat) -> Seq<u8> {
    seq![0x5bu8] + decimal(row) + seq![0x3bu8] + decimal(col)
}

/// `ESC [ row ; col H`, with both coordinates raised to at least 1.
pub open spec fn cursor_to(x: u16, y: u16) -> Seq<u8> {
    seq![ESC] + position_text(at_least_one(x), at_least_one(y)) + seq![0x48u8]
}

/// `ESC [ row ; col R`: what a terminal answers with the cursor at (col, row).
pub open spec fn position_report(col: nat, row: nat) -> Seq<u8> {
    seq![ESC] + position_text(col, row) + seq![0x52u8]
}

/// `ESC [ 6 n`: the device status report request.
pub open spec fn status_request() -> Seq<u8> {
    seq![ESC, 0x5bu8, 0x36u8, 0x6eu8]
}

/// `ESC [ n S`: scroll the screen up by `n` lines.
pub open spec fn scroll_up(n: u16) -> Seq<u8> {
    seq![ESC, 0x5bu8] + decimal(n as nat) + seq![0x53u8]
}

/// The parameter and final byte of each clear sequence.
pub open spec fn clear_code(c: Clear) -> (u8, u8) {
    match c {
        Clear::ToEndOfScreen => (0x30u8, 0x4au8),
        Clear::ToStartOfScreen => (0x31u8, 0x4au8),
        Clear::FullScreen => (0x32u8, 0x4au8),
        Clear::ToEndOfLine => (0x30u8, 0x4bu8),
        Clear::ToStartOfLine => (0x31u8, 0x4bu8),
        Clear::FullLine => (0x32u8, 0x4bu8),
    }
}

/// `ESC [ {0,1,2} {J,K}`.
pub open spec fn clear_seq(c: Clear) -> Seq<u8> {
    seq![ESC, 0x5bu8, clear_code(c).0, clear_code(c).1]
}

/// `text` as written in `color`: wrapped in a foreground-select and a reset
/// sequence, or left bare when colour is off.
pub open spec fn colored(no_color: bool, color: Color, text: Seq<u8>) -> Seq<u8> {
    if no_color {
        text
    } else {
        seq![ESC, 0x5bu8, 0x33u8, digit_byte(color.code_spec() as nat), 0x6du8] + text + seq![
            ESC,
            0x5bu8,
            0x6du8,
        ]
    }
}

/// One of the eight fixed terminal colours.
#[derive(Copy, Clone, Debug, PartialEq, Eq, Structural)]
pub enum Color {
    Black,
    Red,
    Green,
    Yellow,
    Blue,
    Magenta,
    Cyan,
    White,
}

impl Color {
    pub open spec fn code_spec(self) -> u8 {
        match self {
            Color::Black => 0,
            Color::Red => 1,
            Color::Green => 2,
            Color::Yellow => 3,
            Color::Blue => 4,
            Color::Magenta => 5,
            Color::Cyan => 6,
            Color::White => 7,
        }
    }

    /// The colour's number in the `ESC [ 3n m` sequence.
    pub fn code(self) -> (r: u8)
        ensures
            r == self.code_spec(),
    {
        match self {
            Color::Black => 0,
            Color::Red => 1,
            Color::Green => 2,
            Color::Yellow => 3,
            Color::Blue => 4,
            Color::Magenta => 5,
            Color::Cyan => 6,
            Color::White => 7,
        }
    }
}

/// What a clear sequence erases.
#[derive(Copy, Clone, Debug, PartialEq, Eq, Structural)]
pub enum Clear {
    FullScreen,
    ToStartOfScreen,
    ToEndOfScreen,
    FullLine,
    ToStartOfLine,
    ToEndOfLine,
}

/// Appends `b` to `out`.
fn push_all(out: &mut Vec<u8>, b: &[u8])
    ensures
        final(out)@ == old(out)@ + b@,
{
    let mut i: usize = 0;
    while i < b.len()
        invariant
            i <= b@.len(),
            out@ == old(out)@ + b@.take(i as int),
        decreases b@.len() - i,
    {
        out.push(b[i]);
        i = i + 1;
        assert(out@ =~= old(out)@ + b@.take(i as int));
    }
    assert(b@.take(i as int) =~= b@);
}

/// An open terminal: its size when it was opened, whether borders are
/// coloured, the attributes to restore if it was put in raw mode, and the
/// bytes written to it that the device has not been handed yet.
pub struct Terminal {
    size: (u16, u16),
    prev: Option<libc::termios>,
    no_color: bool,
    out: Vec<u8>,
}

impl Terminal {
    /// The bytes written and not yet taken.
    pub closed spec fn pending(&self) -> Seq<u8> {
        self.out@
    }

    pub closed spec fn size_spec(&self) -> (u16, u16) {
        self.size
    }

    pub closed spec fn no_color_spec(&self) -> bool {
        self.no_color
    }

    /// The attributes that closing must restore, if any.
    pub closed spec fn saved(&self) -> Option<libc::termios> {
        self.prev
    }

    /// Everything but the pending output is as in `other`.
    pub open spec fn same_setup(&self, other: &Terminal) -> bool {
        &&& self.size_spec() == other.size_spec()
        &&& self.no_color_spec() == other.no_color_spec()
        &&& self.saved() == other.saved()
    }

    /// A terminal of `size` (columns, rows) with nothing written yet; `prev`
    /// holds the attributes saved on entering raw mode.
    pub fn new(size: (u16, u16), prev: Option<libc::termios>, no_color: bool) -> (r: Terminal)
        ensures
            r.size_spec() == size,
            r.saved() == prev,
            r.no_color_spec() == no_color,
            r.pending() == Seq::<u8>::empty(),
    {
        Terminal { size, prev, no_color, out: Vec::new() }
    }

    /// (columns, rows), as they were when the terminal was opened.
    pub fn size(&self) -> (r: (u16, u16))
        ensures
            r == self.size_spec(),
    {
        self.size
    }

    /// Whether a raw-mode session still holds attributes to restore.
    pub fn is_raw(&self) -> (r: bool)
        ensures
            r == self.saved() is Some,
    {
        self.prev.is_some()
    }

    /// Hands over the saved attributes for restoring, once: afterwards the
    /// terminal holds none.
    pub fn take_saved(&mut self) -> (r: Option<libc::termios>)
        ensures
            r == old(self).saved(),
            final(self).saved() is None,
            final(self).size_spec() == old(self).size_spec(),
            final(self).no_color_spec() == old(self).no_color_spec(),
            final(self).pending() == old(self).pending(),
    {
        self.prev.take()
    }

    /// Hands over the pending output, leaving none.
    pub fn take_output(&mut self) -> (r: Vec<u8>)
        ensures
            r@ == old(self).pending(),
            final(self).pending() == Seq::<u8>::empty(),
            final(self).same_setup(old(self)),
    {
        let mut rest: Vec<u8> = Vec::new();
        rest.append(&mut self.out);
        rest
    }

    /// Writes literal text.
    pub fn write(&mut self, s: &str)
        ensures
            final(self).pending() == old(self).pending() + s.spec_bytes(),
            final(self).same_setup(old(self)),
    {
        push_all(&mut self.out, s.as_bytes());
    }

    /// Writes raw bytes.
    pub fn write_bytes(&mut self, b: &[u8])
        ensures
            final(self).pending() == old(self).pending() + b@,
            final(self).same_setup(old(self)),
    {
        push_all(&mut self.out, b);
    }

    /// Moves the cursor to column `x`, row `y` (both 1-based; 0 counts as 1).
    pub fn move_to(&mut self, x: u16, y: u16)
        ensures
            final(self).pending() == old(self).pending() + cursor_to(x, y),
            final(self).same_setup(old(self)),
    {
        let row: u16 = if y == 0 { 1 } else { y };
        let col: u16 = if x == 0 { 1 } else { x };
        self.out.push(ESC);
        self.out.push(0x5b);
        push_decimal(&mut self.out, row);
        self.out.push(0x3b);
        push_decimal(&mut self.out, col);
        self.out.push(0x48);
        assert(self.out@ =~= old(self).out@ + cursor_to(x, y));
    }

    /// Erases part of the screen or of the cursor's line.
    pub fn clear(&mut self, c: Clear)
        ensures
            final(self).pending() == old(self).pending() + clear_seq(c),
            final(self).same_setup(old(self)),
    {
        let (param, fin): (u8, u8) = match c {
            Clear::ToEndOfScreen => (0x30, 0x4a),
            Clear::ToStartOfScreen => (0x31, 0x4a),
            Clear::FullScreen => (0x32, 0x4a),
            Clear::ToEndOfLine => (0x30, 0x4b),
            Clear::ToStartOfLine => (0x31, 0x4b),
            Clear::FullLine => (0x32, 0x4b),
        };
        self.out.push(ESC);
        self.out.push(0x5b);
        self.out.push(param);
        self.out.push(fin);
        assert(self.out@ =~= old(self).out@ + clear_seq(c));
    }

    /// Shifts the screen's content up by `n` lines.
    pub fn scroll(&mut self, n: u16)
        ensures
            final(self).pending() == old(self).pending() + scroll_up(n),
            final(self).same_setup(old(self)),
    {
        self.out.push(ESC);
        self.out.push(0x5b);
        push_decimal(&mut self.out, n);
        self.out.push(0x53);
        assert(self.out@ =~= old(self).out@ + scroll_up(n));
    }

    /// Writes `s` in `color`, or bare when colour is off.
    pub fn write_colored(&mut self, color: Color, s: &str)
        ensures
            final(self).pending() == old(self).pending() + colored(
                old(self).no_color_spec(),
                color,
                s.spec_bytes(),
            ),
            final(self).same_setup(old(self)),
    {
        self.write_colored_bytes(color, s.as_bytes());
    }

    /// Writes the bytes `b` in `color`, or bare when colour is off.
    pub fn write_colored_bytes(&mut self, color: Color, b: &[u8])
        ensures
            final(self).pending() == old(self).pending() + colored(
                old(self).no_color_spec(),
                color,
                b@,
            ),
            final(self).same_setup(old(self)),
    {
        if self.no_color {
            push_all(&mut self.out, b);
        } else {
            self.out.push(ESC);
            self.out.push(0x5b);
            self.out.push(0x33);
            self.out.push(0x30 + color.code());
            self.out.push(0x6d);
            push_all(&mut self.out, b);
            self.out.push(ESC);
            self.out.push(0x5b);
            self.out.push(0x6d);
            assert(self.out@ =~= old(self).out@ + colored(self.no_color, color, b@));
        }
    }

    /// Asks the terminal where the cursor is; the answer comes back on the
    /// input side and is read with a [`PosReader`].
    pub fn request_pos(&mut self)
        ensures
            final(self).pending() == old(self).pending() + status_request(),
            final(self).same_setup(old(self)),
    {
        self.out.push(ESC);
        self.out.push(0x5b);
        self.out.push(0x36);
        self.out.push(0x6e);
        assert(self.out@ =~= old(self).out@ + status_request());
    }
}

/// `TERM` names no terminal to draw on when it is empty or, in any ASCII
/// case, `dumb`.
pub open spec fn dumb_term(t: Seq<char>) -> bool {
    t.len() == 0 || (t.len() == 4 && same_letter(t[0], 'd') && same_letter(t[1], 'u')
        && same_letter(t[2], 'm') && same_letter(t[3], 'b'))
}

/// Whether boxes can be drawn: standard output is a terminal and `TERM` is
/// set to something other than an empty or dumb terminal.
pub fn is_terminal(stdout_is_tty: bool, term: Option<&str>) -> (r: bool)
    ensures
        r == (stdout_is_tty && match term {
            Some(t) => !dumb_term(t@),
            None => false,
        }),
{
    if !stdout_is_tty {
        return false;
    }
    match term {
        None => false,
        Some(t) => {
            let n = t.unicode_len();
            if n == 0 {
                false
            } else if n == 4 {
                !(letter_is(t.get_char(0), 'd') && letter_is(t.get_char(1), 'u') && letter_is(
                    t.get_char(2),
                    'm',
                ) && letter_is(t.get_char(3), 'b'))
            } else {
                true
            }
        },
    }
}

} // verus!
