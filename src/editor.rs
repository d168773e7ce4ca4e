use vstd::prelude::*;

use crate::terminal::{
    clear_all_code, clear_line_code, goto_code, one_based, Size, Terminal,
};

verus! {

/// The first line of every normal paint, before truncation to the width.
pub const WELCOME: &'static str = "Hello Editor -- version 0.1.0";

/// A screen-space cursor location: `x` is the column, `y` the row, both 0-based.
#[derive(Clone, Copy, Debug, PartialEq, Eq, Structural)]
pub struct Position {
    pub x: usize,
    pub y: usize,
}

/// A decoded key event. The editor acts on `Ctrl('q')` and the navigation
/// keys; every other key is ignored.
#[derive(Clone, Copy, Debug, PartialEq, Eq, Structural)]
pub enum Key {
    Char(char),
    Ctrl(char),
    Up,
    Down,
    Left,
    Right,
    PageUp,
    PageDown,
    Home,
    End,
    Other,
}

/// What the editor's behaviour depends on: the quit flag, the screen size and
/// the logical cursor.
pub struct EditorState {
    pub should_quit: bool,
    pub size: Size,
    pub cursor: Position,
}

/// Whether `key` moves the cursor.
pub open spec fn is_motion(key: Key) -> bool {
    match key {
        Key::Up | Key::Down | Key::Left | Key::Right | Key::PageUp | Key::PageDown | Key::Home
        | Key::End => true,
        _ => false,
    }
}

/// The last column the cursor may reach: `width - 1`, or 0 on an empty screen.
pub open spec fn last_col(size: Size) -> nat {
    if size.width >= 1 {
        (size.width - 1) as nat
    } else {
        0
    }
}

/// The last row the cursor may reach: `height - 2`, since the bottom row is
/// reserved; 0 on a screen of fewer than two rows.
pub open spec fn last_row(size: Size) -> nat {
    if size.height >= 2 {
        (size.height - 2) as nat
    } else {
        0
    }
}

/// The cursor lies within the area that the editor paints.
pub open spec fn in_bounds(size: Size, p: Position) -> bool {
    p.x <= last_col(size) && p.y <= last_row(size)
}

/// Where a key moves the cursor; decrements stop at 0, increments at the
/// last column or row.
pub open spec fn moved(size: Size, p: Position, key: Key) -> Position {
    match key {
        Key::Up => Position { y: if p.y >= 1 { (p.y - 1) as usize } else { 0 }, ..p },
        Key::Down => Position { y: if p.y < last_row(size) { (p.y + 1) as usize } else { p.y }, ..p },
        Key::Left => Position { x: if p.x >= 1 { (p.x - 1) as usize } else { 0 }, ..p },
        Key::Right => Position { x: if p.x < last_col(size) { (p.x + 1) as usize } else { p.x }, ..p },
        Key::PageUp => Position { y: 0, ..p },
        Key::PageDown => Position { y: last_row(size) as usize, ..p },
        Key::Home => Position { x: 0, ..p },
        Key::End => Position { x: last_col(size) as usize, ..p },
        _ => p,
    }
}

/// The state after one key: `Ctrl('q')` sets the quit flag, a navigation key
/// moves the cursor, any other key changes nothing.
pub open spec fn after_key(s: EditorState, key: Key) -> EditorState {
    if key == Key::Ctrl('q') {
        EditorState { should_quit: true, ..s }
    } else if is_motion(key) {
        EditorState { cursor: moved(s.size, s.cursor, key), ..s }
    } else {
        s
    }
}

/// The welcome line cut to at most `width` characters, then `\r\n`.
pub open spec fn banner_row(width: nat) -> Seq<char> {
    let n = if width < WELCOME@.len() { width } else { WELCOME@.len() };
    WELCOME@.take(n as int) + "\r\n"@
}

/// The text of a row after the line is cleared: the banner on the first row,
/// a tilde on the others.
pub open spec fn row_text(row: nat, width: nat) -> Seq<char> {
    if row == 0 {
        banner_row(width)
    } else {
        "~\r\n"@
    }
}

/// How many rows a paint draws: all but the bottom one.
pub open spec fn row_count(size: Size) -> nat {
    if size.height >= 1 {
        (size.height - 1) as nat
    } else {
        0
    }
}

/// The output of each painted row, from the top.
pub open spec fn row_outputs(size: Size) -> Seq<Seq<char>> {
    Seq::new(row_count(size), |i: int| clear_line_code() + row_text(i as nat, size.width as nat))
}

/// The concatenation of `parts`.
pub open spec fn joined(parts: Seq<Seq<char>>) -> Seq<char>
    decreases parts.len(),
{
    if parts.len() == 0 {
        Seq::empty()
    } else {
        joined(parts.drop_last()) + parts.last()
    }
}

/// The sequence that places the terminal cursor at the logical position `p`.
pub open spec fn goto_position(p: Position) -> Seq<char> {
    goto_code(one_based(p.x as nat), one_based(p.y as nat))
}

/// What drawing the rows writes: every row, then the cursor put back.
pub open spec fn rows_output(size: Size, cursor: Position) -> Seq<char> {
    joined(row_outputs(size)) + goto_position(cursor)
}

/// The farewell written on quitting.
pub open spec fn goodbye() -> Seq<char> {
    "GoodBye. \r\n"@
}

/// What one refresh writes: the cursor sent home, then either the farewell
/// on a cleared screen or the rows.
pub open spec fn frame(s: EditorState) -> Seq<char> {
    goto_code(1, 1) + if s.should_quit {
        clear_all_code() + goodbye()
    } else {
        rows_output(s.size, s.cursor)
    }
}

/// The editor: the quit flag, the terminal and the logical cursor.
pub struct Editor {
    should_quit: bool,
    terminal: Terminal,
    cursor_position: Position,
}

impl View for Editor {
    type V = EditorState;

    closed spec fn view(&self) -> EditorState {
        EditorState {
            should_quit: self.should_quit,
            size: self.terminal.dims(),
            cursor: self.cursor_position,
        }
    }
}

impl Editor {
    /// The output written to the terminal and not yet flushed.
    pub closed spec fn pending(&self) -> Seq<char> {
        self.terminal.pending()
    }

    /// The cursor stays within the painted area.
    pub open spec fn wf(&self) -> bool {
        in_bounds(self@.size, self@.cursor)
    }

    /// An editor on `terminal`, not quitting, with the cursor at the top left.
    pub fn new(terminal: Terminal) -> (e: Editor)
        ensures
            e@ == (EditorState {
                should_quit: false,
                size: terminal.dims(),
                cursor: Position { x: 0, y: 0 },
            }),
            e.pending() == terminal.pending(),
            e.wf(),
    {
        Editor { should_quit: false, terminal, cursor_position: Position { x: 0, y: 0 } }
    }

    /// Whether the quit command has been given.
    pub fn should_quit(&self) -> (r: bool)
        ensures
            r == self@.should_quit,
    {
        self.should_quit
    }

    /// The logical cursor.
    pub fn cursor_position(&self) -> (p: Position)
        ensures
            p == self@.cursor,
    {
        self.cursor_position
    }

    /// The size of the screen.
    pub fn size(&self) -> (s: Size)
        ensures
            s == self@.size,
    {
        *self.terminal.size()
    }

    /// Moves the cursor as `key` says (see `moved`); the position never
    /// leaves the painted area once inside it.
    pub fn move_cursor(&mut self, key: Key)
        ensures
            final(self)@ == (EditorState {
                cursor: moved(old(self)@.size, old(self)@.cursor, key),
                ..old(self)@
            }),
            final(self).pending() == old(self).pending(),
            old(self).wf() ==> final(self).wf(),
    {
        let Position { mut x, mut y } = self.cursor_position;
        let size = *self.terminal.size();
        let last_x: usize = if size.width >= 1 { (size.width - 1) as usize } else { 0 };
        let last_y: usize = if size.height >= 2 { (size.height - 2) as usize } else { 0 };

        match key {
            Key::Up => y = if y >= 1 { y - 1 } else { 0 },
            Key::Down => {
                if y < last_y {
                    y = y + 1;
                }
            },
            Key::Right => {
                if x < last_x {
                    x = x + 1;
                }
            },
            Key::Left => x = if x >= 1 { x - 1 } else { 0 },
            Key::PageUp => y = 0,
            Key::PageDown => y = last_y,
            Key::Home => x = 0,
            Key::End => x = last_x,
            _ => {},
        }
        self.cursor_position = Position { x, y };
    }

    /// Acts on one key: `Ctrl('q')` asks to quit, a navigation key moves the
    /// cursor, any other key is ignored.
    pub fn process_keypress(&mut self, key: Key)
        ensures
            final(self)@ == after_key(old(self)@, key),
            final(self).pending() == old(self).pending(),
            old(self).wf() ==> final(self).wf(),
    {
        match key {
            Key::Ctrl('q') => self.should_quit = true,
            Key::Up
            | Key::Down
            | Key::Left
            | Key::Right
            | Key::PageUp
            | Key::PageDown
            | Key::End
            | Key::Home => self.move_cursor(key),
            _ => {},
        }
    }

    /// Writes every row but the bottom one, each after clearing its line: the
    /// welcome banner cut to the width on the first, a tilde on the others;
    /// then puts the cursor back at its logical position.
    pub fn draw_rows(&mut self)
        ensures
            final(self)@ == old(self)@,
            final(self).pending() == old(self).pending() + rows_output(
                old(self)@.size,
                old(self)@.cursor,
            ),
    {
        let size = *self.terminal.size();
        let count: u16 = if size.height >= 1 { size.height - 1 } else { 0 };
        let ghost start = self.pending();
        let ghost rows = row_outputs(size);
        let mut row: u16 = 0;
        while row < count
            invariant
                self@ == old(self)@,
                size == self@.size,
                rows == row_outputs(size),
                count as nat == rows.len(),
                row <= count,
                self.pending() == start + joined(rows.take(row as int)),
            decreases count - row,
        {
            self.terminal.clear_current_line();
            if row == 0 {
                let len = WELCOME.unicode_len();
                let n: usize = if (size.width as usize) < len { size.width as usize } else { len };
                self.terminal.write(WELCOME.substring_char(0, n));
                self.terminal.write("\r\n");
            } else {
                self.terminal.write("~\r\n");
            }
            proof {
                assert(rows.take(row as int + 1).drop_last() =~= rows.take(row as int));
            }
            row = row + 1;
        }
        proof {
            assert(rows.take(count as int) =~= rows);
        }
        self.terminal.cursor_position(&self.cursor_position);
    }

    /// Paints the screen for the current state and hands over everything
    /// written since the last flush, to be sent to the terminal: the cursor
    /// sent home, then the farewell on a cleared screen when quitting, else
    /// the rows with the cursor put back.
    pub fn refresh_screen(&mut self) -> (r: String)
        ensures
            r@ == old(self).pending() + frame(old(self)@),
            final(self)@ == old(self)@,
            final(self).pending() == Seq::<char>::empty(),
    {
        self.terminal.cursor_position(&Position { x: 0, y: 0 });
        if self.should_quit {
            self.terminal.clear_screen();
            self.terminal.write("GoodBye. \r\n");
        } else {
            self.draw_rows();
        }
        self.terminal.flush()
    }

    /// What the fatal path sends before giving up: everything still pending,
    /// then a cleared screen.
    pub fn fatal_screen(&mut self) -> (r: String)
        ensures
            r@ == old(self).pending() + clear_all_code(),
            final(self)@ == old(self)@,
            final(self).pending() == Seq::<char>::empty(),
    {
        self.terminal.clear_screen();
        self.terminal.flush()
    }
}

} // verus!
