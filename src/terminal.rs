use vstd::prelude::*;

use crate::editor::Position;

verus! {

/// The size of the terminal in character cells.
#[derive(Clone, Copy, Debug, PartialEq, Eq, Structural)]
pub struct Size {
    pub width: u16,
    pub height: u16,
}

/// The control sequence that clears the whole screen.
pub open spec fn clear_all_code() -> Seq<char> {
    "\x1b[2J"@
}

/// The control sequence that clears the line the cursor is on.
pub open spec fn clear_line_code() -> Seq<char> {
    "\x1b[2K"@
}

/// The character of a decimal digit.
pub open spec fn digit_char(d: nat) -> char {
    if d == 0 { '0' }
    else if d == 1 { '1' }
    else if d == 2 { '2' }
    else if d == 3 { '3' }
    else if d == 4 { '4' }
    else if d == 5 { '5' }
    else if d == 6 { '6' }
    else if d == 7 { '7' }
    else if d == 8 { '8' }
    else { '9' }
}

/// The decimal notation of `n`, without leading zeros.
pub open spec fn decimal(n: nat) -> Seq<char>
    decreases n,
{
    if n < 10 {
        seq![digit_char(n)]
    } else {
        decimal(n / 10).push(digit_char(n % 10))
    }
}

/// The control sequence that moves the cursor to the 1-based column `col`
/// and row `row`.
pub open spec fn goto_code(col: nat, row: nat) -> Seq<char> {
    "\x1b["@ + decimal(row) + ";"@ + decimal(col) + "H"@
}

/// The 1-based coordinate of the 0-based `v`, saturated at the largest `u16`.
pub open spec fn one_based(v: nat) -> nat {
    if v + 1 > u16::MAX {
        u16::MAX as nat
    } else {
        v + 1
    }
}

/// Relies on the `Display` impl of `termion::clear::All`: it writes `ESC [ 2 J`.
#[verifier::external_body]
fn clear_all_text() -> (r: String)
    ensures
        r@ == clear_all_code(),
{
    format!("{}", termion::clear::All)
}

/// Relies on the `Display` impl of `termion::clear::CurrentLine`: it writes `ESC [ 2 K`.
#[verifier::external_body]
fn clear_line_text() -> (r: String)
    ensures
        r@ == clear_line_code(),
{
    format!("{}", termion::clear::CurrentLine)
}

/// Relies on the `Display` impl of `termion::cursor::Goto`: it writes
/// `ESC [ row ; col H` with both numbers in decimal, and debug-asserts that
/// not both of them are zero.
#[verifier::external_body]
fn goto_text(col: u16, row: u16) -> (r: String)
    requires
        !(col == 0 && row == 0),
    ensures
        r@ == goto_code(col as nat, row as nat),
{
    format!("{}", termion::cursor::Goto(col, row))
}

/// The 1-based coordinate of a 0-based one, saturated at the largest `u16`.
fn one_based_u16(v: usize) -> (r: u16)
    ensures
        r as nat == one_based(v as nat),
        r >= 1,
{
    if v >= 65535 {
        65535
    } else {
        (v + 1) as u16
    }
}

/// The terminal as the editor sees it: its size, captured once, and the
/// output written since the last flush.
pub struct Terminal {
    size: Size,
    out: String,
}

impl Terminal {
    /// The size captured when the terminal was created.
    pub closed spec fn dims(&self) -> Size {
        self.size
    }

    /// The output written since the last flush.
    pub closed spec fn pending(&self) -> Seq<char> {
        self.out@
    }

    /// A terminal of the given size with nothing written yet.
    pub fn new(size: Size) -> (t: Terminal)
        ensures
            t.dims() == size,
            t.pending() == Seq::<char>::empty(),
    {
        Terminal { size, out: String::new() }
    }

    /// The stored size; it is never queried again.
    pub fn size(&self) -> (s: &Size)
        ensures
            *s == self.dims(),
    {
        &self.size
    }

    /// Hands over everything written since the last flush, to be sent to the
    /// terminal, and starts afresh.
    pub fn flush(&mut self) -> (r: String)
        ensures
            r@ == old(self).pending(),
            final(self).pending() == Seq::<char>::empty(),
            final(self).dims() == old(self).dims(),
    {
        let mut out = String::new();
        std::mem::swap(&mut out, &mut self.out);
        out
    }

    /// Writes plain text.
    pub fn write(&mut self, text: &str)
        ensures
            final(self).pending() == old(self).pending() + text@,
            final(self).dims() == old(self).dims(),
    {
        self.out.append(text);
    }

    /// Writes the sequence that clears the entire screen.
    pub fn clear_screen(&mut self)
        ensures
            final(self).pending() == old(self).pending() + clear_all_code(),
            final(self).dims() == old(self).dims(),
    {
        let code = clear_all_text();
        self.out.append(code.as_str());
    }

    /// Writes the sequence that clears the line the cursor is on.
    pub fn clear_current_line(&mut self)
        ensures
            final(self).pending() == old(self).pending() + clear_line_code(),
            final(self).dims() == old(self).dims(),
    {
        let code = clear_line_text();
        self.out.append(code.as_str());
    }

    /// Writes the sequence that moves the cursor to the 0-based `position`,
    /// i.e. to the 1-based column `x + 1` and row `y + 1`, each saturated at
    /// the largest `u16`.
    pub fn cursor_position(&mut self, position: &Position)
        ensures
            final(self).pending() == old(self).pending() + goto_code(
                one_based(position.x as nat),
                one_based(position.y as nat),
            ),
            final(self).dims() == old(self).dims(),
    {
        let col = one_based_u16(position.x);
        let row = one_based_u16(position.y);
        let code = goto_text(col, row);
        self.out.append(code.as_str());
    }
}

} // verus!
