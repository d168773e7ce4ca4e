//! Facts about the editor's behaviour that relate its operations or hold of
//! all inputs, proved from the spec functions that the operations' contracts
//! use.
use vstd::prelude::*;

use crate::editor::{
    after_key, frame, goodbye, goto_position, in_bounds, is_motion, joined, rows_output,
    row_outputs, banner_row, EditorState, Key, Position, WELCOME,
};
use crate::terminal::{clear_all_code, clear_line_code, goto_code, Size};

verus! {

/// The state after feeding `keys` one by one, from the first.
pub open spec fn after_keys(s: EditorState, keys: Seq<Key>) -> EditorState
    decreases keys.len(),
{
    if keys.len() == 0 {
        s
    } else {
        after_key(after_keys(s, keys.drop_last()), keys.last())
    }
}

/// The last `n` elements of `s`.
pub open spec fn suffix<A>(s: Seq<A>, n: nat) -> Seq<A> {
    s.subrange(s.len() - n, s.len() as int)
}

/// One key keeps a cursor that lies in the painted area inside it.
pub proof fn lemma_key_keeps_bounds(s: EditorState, key: Key)
    requires
        in_bounds(s.size, s.cursor),
    ensures
        in_bounds(after_key(s, key).size, after_key(s, key).cursor),
        after_key(s, key).size == s.size,
{
}

/// Whatever keys are fed to an editor whose cursor starts at the top left of
/// a `W` by `H` screen, the cursor ends with `x <= W - 1` and `y <= H - 2`.
pub proof fn lemma_cursor_bounds(s: EditorState, keys: Seq<Key>)
    requires
        s.cursor == (Position { x: 0, y: 0 }),
        s.size.width >= 1,
        s.size.height >= 2,
    ensures
        after_keys(s, keys).cursor.x <= s.size.width - 1,
        after_keys(s, keys).cursor.y <= s.size.height - 2,
{
    lemma_keys_keep_bounds(s, keys);
}

/// Feeding keys keeps a cursor that lies in the painted area inside it, and
/// never changes the size.
pub proof fn lemma_keys_keep_bounds(s: EditorState, keys: Seq<Key>)
    requires
        in_bounds(s.size, s.cursor),
    ensures
        in_bounds(s.size, after_keys(s, keys).cursor),
        after_keys(s, keys).size == s.size,
    decreases keys.len(),
{
    if keys.len() > 0 {
        lemma_keys_keep_bounds(s, keys.drop_last());
        lemma_key_keeps_bounds(after_keys(s, keys.drop_last()), keys.last());
    }
}

/// `Left` in the first column stays there; `Up` on the first row stays there.
pub proof fn lemma_saturation_at_zero(s: EditorState)
    ensures
        s.cursor.x == 0 ==> after_key(s, Key::Left).cursor.x == 0,
        s.cursor.y == 0 ==> after_key(s, Key::Up).cursor.y == 0,
{
}

/// `End` reaches the last column and `Home` the first; `PageDown` reaches the
/// second-to-last row and `PageUp` the first.
pub proof fn lemma_extremes(s: EditorState)
    ensures
        s.size.width >= 1 ==> after_key(s, Key::End).cursor.x == s.size.width - 1,
        after_key(s, Key::Home).cursor.x == 0,
        s.size.height >= 2 ==> after_key(s, Key::PageDown).cursor.y == s.size.height - 2,
        after_key(s, Key::PageUp).cursor.y == 0,
{
}

/// After `Ctrl('q')` the editor is quitting, and the next paint ends with a
/// cleared screen followed by the farewell.
pub proof fn lemma_quit(s: EditorState)
    ensures
        after_key(s, Key::Ctrl('q')).should_quit,
        suffix(frame(after_key(s, Key::Ctrl('q'))), (clear_all_code() + goodbye()).len())
            == clear_all_code() + goodbye(),
{
    let f = frame(after_key(s, Key::Ctrl('q')));
    let tail = clear_all_code() + goodbye();
    assert(f == goto_code(1, 1) + tail);
    assert(suffix(f, tail.len()) =~= tail);
}

/// On a screen narrower than the banner, the first painted row shows exactly
/// the first `width` characters of the banner, then `\r\n`.
pub proof fn lemma_banner_truncation(size: Size)
    requires
        size.height >= 2,
        (size.width as nat) < WELCOME@.len(),
    ensures
        row_outputs(size)[0] == clear_line_code() + WELCOME@.take(size.width as int) + "\r\n"@,
{
}

/// A normal paint draws `H - 1` rows: the banner first, then a tilde on each
/// of the `H - 2` others.
pub proof fn lemma_row_count(size: Size, cursor: Position)
    requires
        size.height >= 1,
    ensures
        row_outputs(size).len() == size.height - 1,
        size.height >= 2 ==> row_outputs(size)[0] == clear_line_code() + banner_row(
            size.width as nat,
        ),
        forall|i: int|
            1 <= i < size.height - 1 ==> #[trigger] row_outputs(size)[i] == clear_line_code()
                + "~\r\n"@,
        rows_output(size, cursor) == joined(row_outputs(size)) + goto_position(cursor),
{
}

/// A normal paint ends by moving the terminal cursor to the 1-based
/// `(x + 1, y + 1)` of the logical cursor.
pub proof fn lemma_cursor_restored(s: EditorState)
    requires
        !s.should_quit,
        s.cursor.x < u16::MAX,
        s.cursor.y < u16::MAX,
    ensures
        suffix(frame(s), goto_position(s.cursor).len()) == goto_code(
            (s.cursor.x + 1) as nat,
            (s.cursor.y + 1) as nat,
        ),
{
    let f = frame(s);
    let g = goto_position(s.cursor);
    assert(f == (goto_code(1, 1) + joined(row_outputs(s.size))) + g);
    assert(suffix(f, g.len()) =~= g);
}

/// A key other than `Ctrl('q')` and the navigation keys changes nothing.
pub proof fn lemma_unknown_key_ignored(s: EditorState, key: Key)
    requires
        key != Key::Ctrl('q'),
        !is_motion(key),
    ensures
        after_key(s, key) == s,
{
}

} // verus!
