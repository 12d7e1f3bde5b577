//! The commit message box: its text, its cursor, and how both are wrapped.

use vstd::prelude::*;

use crate::columns::{columns, text_width};
use crate::input::{Key, KeyCode};
use crate::text::{slice_to_string, string_views};

verus! {

/// Most content rows a message box shows before it scrolls instead.
pub const MESSAGE_MAX_ROWS: usize = 4;

// ---- Wrapping ----

/// `message` cut into pieces of `field` characters; the last may be shorter.
pub open spec fn chunks(message: Seq<char>, field: nat) -> Seq<Seq<char>>
    decreases message.len(),
{
    if message.len() == 0 || field == 0 {
        Seq::empty()
    } else if message.len() <= field {
        seq![message]
    } else {
        seq![message.take(field as int)] + chunks(message.skip(field as int), field)
    }
}

pub open spec fn at_least_one(n: nat) -> nat {
    if n == 0 {
        1
    } else {
        n
    }
}

/// The rows of a message box whose lines hold `field` characters. A message
/// that fills its last row opens a fresh one for a cursor behind its end.
pub open spec fn wrapped(message: Seq<char>, cursor: nat, field: nat) -> Seq<Seq<char>> {
    let width = at_least_one(field);
    if message.len() == 0 {
        seq![Seq::empty()]
    } else if message.len() % width == 0 && cursor == message.len() {
        chunks(message, width).push(Seq::empty())
    } else {
        chunks(message, width)
    }
}

pub proof fn lemma_chunks_step(message: Seq<char>, start: int, field: nat)
    requires
        0 <= start < message.len(),
        field > 0,
    ensures
        ({
            let end = if start + field < message.len() {
                start + field
            } else {
                message.len() as int
            };
            chunks(message.skip(start), field) == seq![message.subrange(start, end)] + chunks(
                message.skip(end),
                field,
            )
        }),
{
    let rest = message.skip(start);
    if rest.len() <= field {
        assert(message.subrange(start, message.len() as int) =~= rest);
        assert(chunks(message.skip(message.len() as int), field) =~= Seq::empty());
        assert(chunks(rest, field) =~= seq![rest] + Seq::<Seq<char>>::empty());
    } else {
        assert(rest.take(field as int) =~= message.subrange(start, start + field));
        assert(rest.skip(field as int) =~= message.skip(start + field));
    }
}

/// Wrap `message` into `field`-wide rows plus the cursor's (row, column). The
/// cursor may sit one past the end, opening a fresh row when that lands on a
/// wrap boundary.
pub fn wrap_message(message: &[char], cursor: usize, field: usize) -> (res: (
    Vec<String>,
    usize,
    usize,
))
    ensures
        string_views(res.0@) == wrapped(message@, cursor as nat, field as nat),
        res.1 == cursor as nat / at_least_one(field as nat),
        res.2 == cursor as nat % at_least_one(field as nat),
{
    let width: usize = if field == 0 {
        1
    } else {
        field
    };
    let mut rows: Vec<String> = Vec::new();
    let mut start: usize = 0;
    assert(message@.skip(0) =~= message@);
    assert(string_views(rows@) + chunks(message@, width as nat) =~= chunks(message@, width as nat));
    while start < message.len()
        invariant
            start <= message@.len(),
            width > 0,
            string_views(rows@) + chunks(message@.skip(start as int), width as nat) == chunks(
                message@,
                width as nat,
            ),
        decreases message@.len() - start,
    {
        let end: usize = if message.len() - start > width {
            start + width
        } else {
            message.len()
        };
        proof {
            lemma_chunks_step(message@, start as int, width as nat);
        }
        let ghost before: Seq<String> = rows@;
        rows.push(slice_to_string(message, start, end));
        assert(string_views(rows@) =~= string_views(before) + seq![
            message@.subrange(start as int, end as int),
        ]);
        assert(string_views(rows@) + chunks(message@.skip(end as int), width as nat)
            =~= string_views(before) + chunks(message@.skip(start as int), width as nat));
        start = end;
    }
    assert(chunks(message@.skip(message@.len() as int), width as nat) =~= Seq::empty());
    assert(string_views(rows@) =~= chunks(message@, width as nat));
    if message.len() == 0 {
        rows.push(String::new());
        assert(string_views(rows@) =~= seq![Seq::<char>::empty()]);
    } else if message.len() % width == 0 && cursor == message.len() {
        let ghost before: Seq<String> = rows@;
        rows.push(String::new());
        assert(string_views(rows@) =~= string_views(before).push(Seq::<char>::empty()));
    }
    (rows, cursor / width, cursor % width)
}

pub proof fn lemma_chunks(message: Seq<char>, field: nat)
    requires
        field > 0,
    ensures
        chunks(message, field).len() * field >= message.len(),
        message.len() > 0 ==> (chunks(message, field).len() - 1) * field < message.len(),
        forall|i: int|
            0 <= i < chunks(message, field).len() ==> (#[trigger] chunks(message, field)[i]).len()
                == (if i + 1 < chunks(message, field).len() {
                field as int
            } else {
                message.len() - i * field
            }),
        chunks(message, field).flatten() == message,
    decreases message.len(),
{
    let all = chunks(message, field);
    if message.len() == 0 {
        assert(all.flatten() =~= message);
    } else if message.len() <= field {
        assert(all.drop_first() =~= Seq::<Seq<char>>::empty());
        assert(all.drop_first().flatten() =~= Seq::<char>::empty());
        assert(all.flatten() =~= message);
        assert(1 * field == field) by (nonlinear_arith);
        assert(0 * field == 0) by (nonlinear_arith);
    } else {
        let rest = message.skip(field as int);
        lemma_chunks(rest, field);
        let n = chunks(rest, field).len();
        assert(all.len() == n + 1);
        assert((n + 1) * field == n * field + field) by (nonlinear_arith);
        assert((n - 1) * field == n * field - field) by (nonlinear_arith);
        assert(all.drop_first() =~= chunks(rest, field));
        assert(all.flatten() =~= message.take(field as int) + rest);
        assert(message.take(field as int) + rest =~= message);
        assert forall|i: int| 0 <= i < all.len() implies (#[trigger] all[i]).len() == (if i + 1
            < all.len() {
            field as int
        } else {
            message.len() - i * field
        }) by {
            if i > 0 {
                assert(all[i] == chunks(rest, field)[i - 1]);
                assert((i - 1) * field == i * field - field) by (nonlinear_arith);
            }
        }
    }
}

/// The rows of a message box hold the message: joined, they are the message
/// again, and none is longer than the field.
pub proof fn law_wrapping_keeps_the_message(message: Seq<char>, cursor: nat, field: nat)
    ensures
        wrapped(message, cursor, field).flatten() == message,
        forall|i: int|
            0 <= i < wrapped(message, cursor, field).len() ==> (#[trigger] wrapped(
                message,
                cursor,
                field,
            )[i]).len() <= at_least_one(field),
{
    let width = at_least_one(field);
    let rows = wrapped(message, cursor, field);
    lemma_chunks(message, width);
    let pieces = chunks(message, width);
    if message.len() == 0 {
        assert(rows.drop_first() =~= Seq::<Seq<char>>::empty());
        assert(rows.flatten() =~= message);
    } else if rows.len() > pieces.len() {
        assert(rows =~= pieces.push(Seq::empty()));
        pieces.lemma_flatten_push(Seq::empty());
        assert(rows.flatten() =~= message);
    }
    assert forall|i: int| 0 <= i < rows.len() implies (#[trigger] rows[i]).len() <= width by {
        if message.len() > 0 && i < pieces.len() {
            assert(rows[i] == pieces[i]);
            if i + 1 == pieces.len() {
                assert(i * width == (pieces.len() - 1) * width);
                assert((pieces.len() - 1) * width == pieces.len() * width - width)
                    by (nonlinear_arith);
            }
        }
    }
}

/// The cursor of a message box stands on one of its rows, at most one column
/// behind the text of that row.
pub proof fn law_cursor_stands_on_a_row(message: Seq<char>, cursor: nat, field: nat)
    requires
        cursor <= message.len(),
    ensures
        ({
            let width = at_least_one(field);
            let rows = wrapped(message, cursor, field);
            &&& cursor / width < rows.len()
            &&& cursor % width <= rows[(cursor / width) as int].len()
            &&& cursor % width < width
        }),
{
    let width = at_least_one(field);
    let rows = wrapped(message, cursor, field);
    let q = cursor / width;
    let r = cursor % width;
    lemma_chunks(message, width);
    let pieces = chunks(message, width);
    let n = pieces.len();
    assert(cursor == q * width + r && 0 <= r < width) by (nonlinear_arith)
        requires
            width > 0,
            q == cursor / width,
            r == cursor % width,
    ;
    if message.len() == 0 {
        assert(q == 0 && r == 0) by (nonlinear_arith)
            requires
                cursor == 0,
                cursor == q * width + r,
                0 <= r < width,
                q >= 0,
        ;
    } else {
        assert(q <= n) by (nonlinear_arith)
            requires
                q * width + r <= n * width,
                0 <= r < width,
                width > 0,
        ;
        if q == n {
            assert(r == 0 && cursor == message.len()) by (nonlinear_arith)
                requires
                    q == n,
                    cursor == q * width + r,
                    cursor <= message.len(),
                    message.len() <= n * width,
                    0 <= r,
            ;
            assert(message.len() % width == 0);
        } else {
            assert(rows[q as int] == pieces[q as int]);
            if q + 1 == n {
                assert(r <= message.len() - q * width) by (nonlinear_arith)
                    requires
                        cursor == q * width + r,
                        cursor <= message.len(),
                ;
            }
        }
    }
}

/// The `(top, count)` window of wrapped rows: everything where it fits, else
/// as many rows as the box has, down to the cursor's, or from the first one
/// while the box is not focused.
pub open spec fn window_of(rows: nat, cursor_row: nat, focused: bool) -> (nat, nat) {
    let visible = if rows < MESSAGE_MAX_ROWS {
        rows
    } else {
        MESSAGE_MAX_ROWS as nat
    };
    let top = if focused && cursor_row + 1 > visible {
        (cursor_row + 1 - visible) as nat
    } else {
        0
    };
    (top, visible)
}

pub fn message_window(rows: usize, cursor_row: usize, focused: bool) -> (res: (usize, usize))
    requires
        cursor_row < usize::MAX,
    ensures
        (res.0 as nat, res.1 as nat) == window_of(rows as nat, cursor_row as nat, focused),
{
    let visible: usize = if rows < MESSAGE_MAX_ROWS {
        rows
    } else {
        MESSAGE_MAX_ROWS
    };
    let top: usize = if focused {
        (cursor_row + 1).saturating_sub(visible)
    } else {
        0
    };
    (top, visible)
}

/// The window of a focused box shows the row of the cursor, and no row that
/// the message does not have.
pub proof fn law_window_shows_the_cursor(rows: nat, cursor_row: nat)
    requires
        cursor_row < rows,
    ensures
        ({
            let (top, visible) = window_of(rows, cursor_row, true);
            top <= cursor_row < top + visible && top + visible <= rows
        }),
{
}

/// Content rows that a message box shows.
pub open spec fn shown_rows(message: Seq<char>, cursor: nat, field: nat) -> nat {
    window_of(wrapped(message, cursor, field).len(), 0, false).1
}

pub fn message_rows(message: &[char], cursor: usize, field: usize) -> (res: usize)
    ensures
        res == shown_rows(message@, cursor as nat, field as nat),
        1 <= res <= MESSAGE_MAX_ROWS,
{
    let (rows, _, _) = wrap_message(message, cursor, field);
    proof {
        lemma_chunks(message@, at_least_one(field as nat));
        assert(string_views(rows@).len() == rows@.len());
        if message@.len() > 0 && rows@.len() == 0 {
            assert(0 * at_least_one(field as nat) == 0) by (nonlinear_arith);
        }
    }
    if rows.len() < MESSAGE_MAX_ROWS {
        rows.len()
    } else {
        MESSAGE_MAX_ROWS
    }
}

// ---- Editing ----

/// The message and the cursor after a key press in the box.
pub open spec fn edited(message: Seq<char>, cursor: nat, key: Key) -> (Seq<char>, nat) {
    match key.code {
        KeyCode::Backspace => if cursor > 0 {
            (message.remove(cursor - 1), (cursor - 1) as nat)
        } else {
            (message, cursor)
        },
        KeyCode::Delete => if cursor < message.len() {
            (message.remove(cursor as int), cursor)
        } else {
            (message, cursor)
        },
        KeyCode::Left => (message, if cursor > 0 {
            (cursor - 1) as nat
        } else {
            0
        }),
        KeyCode::Right => (message, if cursor < message.len() {
            cursor + 1
        } else {
            message.len()
        }),
        KeyCode::Home => (message, 0),
        KeyCode::End => (message, message.len()),
        KeyCode::Char(c) => if c == 'u' && key.command() {
            (Seq::empty(), 0)
        } else if !key.command() {
            (message.insert(cursor as int, c), cursor + 1)
        } else {
            (message, cursor)
        },
        _ => (message, cursor),
    }
}

/// Apply a key press to a message and its cursor.
pub fn edit_message(message: &mut Vec<char>, cursor: &mut usize, key: Key)
    requires
        *old(cursor) <= old(message)@.len(),
    ensures
        (final(message)@, *final(cursor) as nat) == edited(old(message)@, *old(cursor) as nat, key),
        *final(cursor) <= final(message)@.len(),
{
    match key.code {
        KeyCode::Backspace => {
            if *cursor > 0 {
                *cursor = *cursor - 1;
                message.remove(*cursor);
            }
        },
        KeyCode::Delete => {
            if *cursor < message.len() {
                message.remove(*cursor);
            }
        },
        KeyCode::Left => {
            *cursor = (*cursor).saturating_sub(1);
        },
        KeyCode::Right => {
            if *cursor < message.len() {
                *cursor = *cursor + 1;
            }
        },
        KeyCode::Home => {
            *cursor = 0;
        },
        KeyCode::End => {
            *cursor = message.len();
        },
        KeyCode::Char(c) => {
            if c == 'u' && key.is_command() {
                message.clear();
                *cursor = 0;
            } else if !key.is_command() {
                message.insert(*cursor, c);
                let count: usize = message.len();
                assert(*cursor < count);
                *cursor = *cursor + 1;
            }
        },
        _ => {},
    }
}

/// A key press leaves the cursor within the message.
pub proof fn law_editing_keeps_the_cursor_in_range(message: Seq<char>, cursor: nat, key: Key)
    requires
        cursor <= message.len(),
    ensures
        edited(message, cursor, key).1 <= edited(message, cursor, key).0.len(),
{
}

/// Backspace takes back the character that was typed just before it.
pub proof fn law_backspace_undoes_typing(message: Seq<char>, cursor: nat, typed: Key, back: Key)
    requires
        cursor <= message.len(),
        typed.code is Char,
        !typed.command(),
        back.code == KeyCode::Backspace,
    ensures
        ({
            let after = edited(message, cursor, typed);
            edited(after.0, after.1, back) == (message, cursor)
        }),
{
    let after = edited(message, cursor, typed);
    assert(after.0.remove(after.1 - 1) =~= message);
}

// ---- The placeholder ----

/// Width-aware commit placeholder: the first that fits of the three, of which
/// each says less than the one before it.
pub open spec fn placeholder_of(branch: Seq<char>, width: usize) -> Seq<char> {
    let full = "Message (⏎ to commit on \""@ + branch + "\")"@;
    if columns(full) <= width {
        full
    } else if columns("Message (⏎ to commit)"@) <= width {
        "Message (⏎ to commit)"@
    } else if columns("Message"@) <= width {
        "Message"@
    } else {
        Seq::empty()
    }
}

pub fn message_placeholder(branch: &str, width: usize) -> (res: String)
    ensures
        res@ == placeholder_of(branch@, width),
{
    let mut full: String = "Message (⏎ to commit on \"".to_owned();
    full.append(branch);
    full.append("\")");
    if text_width(full.as_str()) <= width {
        return full;
    }
    if text_width("Message (⏎ to commit)") <= width {
        return "Message (⏎ to commit)".to_owned();
    }
    if text_width("Message") <= width {
        return "Message".to_owned();
    }
    String::new()
}

/// Columns the inline message box's input field spans: what is left of the
/// pane between the two borders and the three columns of the suggest button.
pub open spec fn inline_field(pane_width: u16) -> u16 {
    if pane_width >= 5 {
        (pane_width - 5) as u16
    } else {
        0
    }
}

pub fn inline_field_width(pane_width: u16) -> (res: u16)
    ensures
        res == inline_field(pane_width),
{
    pane_width.saturating_sub(5)
}

} // verus!
