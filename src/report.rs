//! The cursor-position protocol: after a device status report request the
//! terminal answers `ESC [ row ; col R`, which is read one byte at a time and
//! then parsed.
use vstd::prelude::*;
use crate::decimal::{decimal, parse_u16, parse_u16_spec, lemma_parse_decimal};
use crate::term::{ESC, cursor_to, position_report, position_text};

verus! {

/// Why a cursor-position report could not be read.
#[derive(Copy, Clone, Debug, PartialEq, Eq, Structural)]
pub enum ReportError {
    /// The row field is not an unsigned 16-bit number.
    Row,
    /// The column field is missing or not an unsigned 16-bit number.
    Column,
}

/// The index of the first `;` at or after `from`, or the length of `v`.
pub open spec fn field_end(v: Seq<u8>, from: int) -> int
    decreases v.len() - from,
{
    if from >= v.len() {
        v.len() as int
    } else if v[from] == 0x3b {
        from
    } else {
        field_end(v, from + 1)
    }
}

/// What the text `[row;col` of a report reads as: (column, row). The row is
/// the first `;`-separated field less its first byte, the column the second.
pub open spec fn parse_report_spec(v: Seq<u8>) -> Result<(u16, u16), ReportError> {
    let e1 = field_end(v, 0);
    let row = if e1 >= 1 {
        parse_u16_spec(v.subrange(1, e1))
    } else {
        None
    };
    match row {
        None => Err(ReportError::Row),
        Some(r) => if e1 >= v.len() {
            Err(ReportError::Column)
        } else {
            match parse_u16_spec(v.subrange(e1 + 1, field_end(v, e1 + 1))) {
                None => Err(ReportError::Column),
                Some(c) => Ok((c, r)),
            }
        },
    }
}

proof fn lemma_field_end_bounds(v: Seq<u8>, from: int)
    requires
        0 <= from <= v.len(),
    ensures
        from <= field_end(v, from) <= v.len(),
    decreases v.len() - from,
{
    if from < v.len() && v[from] != 0x3b {
        lemma_field_end_bounds(v, from + 1);
    }
}

/// The index of the first `;` in `v` at or after `from`, or `v`'s length.
fn find_field_end(v: &Vec<u8>, from: usize) -> (r: usize)
    requires
        from <= v@.len(),
    ensures
        r == field_end(v@, from as int),
{
    let mut i: usize = from;
    while i < v.len()
        invariant
            from <= i <= v@.len(),
            field_end(v@, i as int) == field_end(v@, from as int),
        decreases v@.len() - i,
    {
        if v[i] == 0x3b {
            return i;
        }
        i = i + 1;
    }
    i
}

/// Parses the text of a report, `[row;col`, into (column, row).
pub fn parse_report(v: &Vec<u8>) -> (r: Result<(u16, u16), ReportError>)
    ensures
        r == parse_report_spec(v@),
{
    let e1 = find_field_end(v, 0);
    proof {
        lemma_field_end_bounds(v@, 0);
    }
    if e1 < 1 {
        return Err(ReportError::Row);
    }
    let row = match parse_u16(v, 1, e1) {
        None => {
            return Err(ReportError::Row);
        },
        Some(r) => r,
    };
    if e1 >= v.len() {
        return Err(ReportError::Column);
    }
    let e2 = find_field_end(v, e1 + 1);
    proof {
        lemma_field_end_bounds(v@, e1 + 1);
    }
    match parse_u16(v, e1 + 1, e2) {
        None => Err(ReportError::Column),
        Some(col) => Ok((col, row)),
    }
}

/// Reads a cursor-position report one byte at a time: bytes before the first
/// escape are skipped, and those after it are kept until the final `R`.
pub struct PosReader {
    saw_esc: bool,
    body: Vec<u8>,
}

impl PosReader {
    pub closed spec fn seen_escape(&self) -> bool {
        self.saw_esc
    }

    /// The bytes kept so far.
    pub closed spec fn collected(&self) -> Seq<u8> {
        self.body@
    }

    pub fn new() -> (r: PosReader)
        ensures
            !r.seen_escape(),
            r.collected() == Seq::<u8>::empty(),
    {
        PosReader { saw_esc: false, body: Vec::new() }
    }

    /// Takes the next byte from the terminal; true once the report is complete.
    pub fn feed(&mut self, b: u8) -> (done: bool)
        ensures
            !old(self).seen_escape() ==> {
                &&& !done
                &&& final(self).seen_escape() == (b == ESC)
                &&& final(self).collected() == old(self).collected()
            },
            old(self).seen_escape() && b == 0x52 ==> {
                &&& done
                &&& final(self).seen_escape()
                &&& final(self).collected() == old(self).collected()
            },
            old(self).seen_escape() && b != 0x52 ==> {
                &&& !done
                &&& final(self).seen_escape()
                &&& final(self).collected() == old(self).collected().push(b)
            },
    {
        if !self.saw_esc {
            self.saw_esc = b == ESC;
            false
        } else if b == 0x52 {
            true
        } else {
            self.body.push(b);
            false
        }
    }

    /// The position that the collected report gives, as (column, row).
    pub fn finish(&self) -> (r: Result<(u16, u16), ReportError>)
        ensures
            r == parse_report_spec(self.collected()),
    {
        parse_report(&self.body)
    }
}

/// Moving the cursor to (x, y) and having the terminal report (x, y) back use
/// the same `[row;col` text, and a reader that is handed that report gives
/// back exactly (x, y): a position survives the trip to the terminal and back.
pub proof fn lemma_position_round_trip(x: u16, y: u16)
    requires
        1 <= x,
        1 <= y,
    ensures
        cursor_to(x, y) == seq![ESC] + position_text(x as nat, y as nat) + seq![0x48u8],
        position_report(x as nat, y as nat) == seq![ESC] + position_text(x as nat, y as nat)
            + seq![0x52u8],
        forall|i: int|
            0 <= i < position_text(x as nat, y as nat).len() ==> #[trigger] position_text(
                x as nat,
                y as nat,
            )[i] != 0x52,
        parse_report_spec(position_text(x as nat, y as nat)) == Ok::<(u16, u16), ReportError>((x, y)),
{
    let t = position_text(x as nat, y as nat);
    let dy = decimal(y as nat);
    let dx = decimal(x as nat);
    lemma_parse_decimal(x);
    lemma_parse_decimal(y);
    crate::decimal::lemma_decimal_digits(x as nat);
    crate::decimal::lemma_decimal_digits(y as nat);
    let e: int = 1 + dy.len() as int;
    assert(t[e] == 0x3b);
    assert forall|i: int| 0 <= i < t.len() implies #[trigger] t[i] != 0x52 by {
        if 1 <= i < e {
            assert(t[i] == dy[i - 1]);
        } else if i > e {
            assert(t[i] == dx[i - e - 1]);
        }
    }
    assert forall|j: int| 0 <= j <= e implies field_end(t, j) == e by {
        lemma_field_end_from(t, j, e, dy);
    }
    assert(t.subrange(1, e) =~= dy);
    assert forall|j: int| e + 1 <= j <= t.len() implies field_end(t, j) == t.len() by {
        lemma_field_end_tail(t, j, e, dx);
    }
    assert(t.subrange(e + 1, t.len() as int) =~= dx);
}

proof fn lemma_field_end_from(t: Seq<u8>, j: int, e: int, d: Seq<u8>)
    requires
        0 <= j <= e < t.len(),
        t[e] == 0x3b,
        e == 1 + d.len(),
        crate::decimal::all_digits(d),
        t[0] == 0x5b,
        forall|i: int| 1 <= i < e ==> t[i] == d[i - 1],
    ensures
        field_end(t, j) == e,
    decreases e - j,
{
    if j < e {
        if j >= 1 {
            assert(t[j] == d[j - 1]);
            assert(crate::decimal::is_digit(d[j - 1]));
        }
        lemma_field_end_from(t, j + 1, e, d);
    }
}

proof fn lemma_field_end_tail(t: Seq<u8>, j: int, e: int, d: Seq<u8>)
    requires
        e + 1 <= j <= t.len(),
        t.len() == e + 1 + d.len(),
        crate::decimal::all_digits(d),
        forall|i: int| e < i < t.len() ==> t[i] == d[i - e - 1],
    ensures
        field_end(t, j) == t.len(),
    decreases t.len() - j,
{
    if j < t.len() {
        assert(t[j] == d[j - e - 1]);
        assert(crate::decimal::is_digit(d[j - e - 1]));
        lemma_field_end_tail(t, j + 1, e, d);
    }
}

} // verus!
