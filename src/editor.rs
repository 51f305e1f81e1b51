//! The text editor that holds a file while it is edited, and the
//! conversions between a file's text and its lines.

use vstd::prelude::*;
use tui_textarea::{CursorMove, TextArea};
use crate::text::{push_char, push_chars, chars_of};

verus! {

/// The editor of a file's text. It holds a `tui_textarea::TextArea`, which
/// Verus does not read; what the library knows of it is its lines, its
/// cursor and whether it holds a selection.
#[verifier::external_body]
pub struct Editor {
    area: TextArea<'static>,
}

/// The lines of text that an editor holds.
pub uninterp spec fn editor_text(e: Editor) -> Seq<Seq<char>>;

/// The editor's cursor: row and column, counted in characters from zero.
pub uninterp spec fn editor_cursor(e: Editor) -> (nat, nat);

/// Whether the editor holds a selection.
pub uninterp spec fn editor_selecting(e: Editor) -> bool;

/// The text and cursor of an editor.
pub struct EditState {
    pub lines: Seq<Seq<char>>,
    pub row: nat,
    pub col: nat,
}

impl EditState {
    /// The cursor is on a line of the text.
    pub open spec fn ready(self) -> bool {
        self.row < self.lines.len()
    }
}

pub open spec fn edit_state(e: Editor) -> EditState {
    EditState { lines: editor_text(e), row: editor_cursor(e).0, col: editor_cursor(e).1 }
}

/// An editor that can take keys: its cursor is on a line and nothing is
/// selected.
pub open spec fn editor_ready(e: Editor) -> bool {
    edit_state(e).ready() && !editor_selecting(e)
}

/// The smaller of two numbers.
pub open spec fn min_nat(a: nat, b: nat) -> nat {
    if a < b {
        a
    } else {
        b
    }
}

/// Typing `c` at the cursor. A newline or carriage return splits the line
/// at the cursor and puts the cursor at the head of the new line; any other
/// character goes in before the cursor, which moves past it. A cursor past
/// the end of its line types at the end.
pub open spec fn typed(s: EditState, c: char) -> EditState {
    let line = s.lines[s.row as int];
    let k = min_nat(s.col, line.len());
    if c == '\n' || c == '\r' {
        EditState {
            lines: s.lines.take(s.row as int) + seq![line.take(k as int), line.skip(k as int)]
                + s.lines.skip(s.row as int + 1),
            row: s.row + 1,
            col: 0,
        }
    } else {
        EditState {
            lines: s.lines.update(
                s.row as int,
                line.take(k as int) + seq![c] + line.skip(k as int),
            ),
            row: s.row,
            col: s.col + 1,
        }
    }
}

/// Deleting the character before the cursor. At the head of a line the
/// line joins the one above, the cursor at the join; at the head of the
/// text, or past the end of a line, nothing changes.
pub open spec fn erased(s: EditState) -> EditState {
    if s.col == 0 {
        if s.row == 0 {
            s
        } else {
            let prev = s.lines[s.row - 1];
            EditState {
                lines: s.lines.take(s.row - 1) + seq![prev + s.lines[s.row as int]] + s.lines.skip(
                    s.row as int + 1,
                ),
                row: (s.row - 1) as nat,
                col: prev.len(),
            }
        }
    } else {
        let line = s.lines[s.row as int];
        if s.col - 1 < line.len() {
            EditState {
                lines: s.lines.update(s.row as int, line.take(s.col - 1) + line.skip(s.col as int)),
                row: s.row,
                col: (s.col - 1) as nat,
            }
        } else {
            s
        }
    }
}

/// Moving the cursor one step. Forward past the end of a line goes to the
/// head of the next, back from the head of a line to the end of the one
/// above; up and down keep the column where the line is long enough. A
/// step off the text leaves the cursor where it is.
pub open spec fn stepped(s: EditState, step: CursorStep) -> EditState {
    let n = s.lines.len();
    match step {
        CursorStep::Forward => if s.col >= s.lines[s.row as int].len() {
            if s.row + 1 < n {
                EditState { row: s.row + 1, col: 0, ..s }
            } else {
                s
            }
        } else {
            EditState { col: s.col + 1, ..s }
        },
        CursorStep::Back => if s.col == 0 {
            if s.row == 0 {
                s
            } else {
                EditState { row: (s.row - 1) as nat, col: s.lines[s.row - 1].len(), ..s }
            }
        } else {
            EditState { col: (s.col - 1) as nat, ..s }
        },
        CursorStep::Up => if s.row == 0 {
            s
        } else {
            EditState {
                row: (s.row - 1) as nat,
                col: min_nat(s.col, s.lines[s.row - 1].len()),
                ..s
            }
        },
        CursorStep::Down => if s.row + 1 < n {
            EditState { row: s.row + 1, col: min_nat(s.col, s.lines[s.row as int + 1].len()), ..s }
        } else {
            s
        },
    }
}

/// The state of a fresh editor on `lines`: one empty line when there are
/// none, the cursor at the start.
pub open spec fn fresh_state(lines: Seq<Seq<char>>) -> EditState {
    EditState {
        lines: if lines.len() == 0 {
            seq![Seq::<char>::empty()]
        } else {
            lines
        },
        row: 0,
        col: 0,
    }
}

impl Editor {
    /// Relies on `TextArea::new`: an editor that holds the given lines, or
    /// one empty line when there are none, with the cursor at the start and
    /// nothing selected.
    #[verifier::external_body]
    pub(crate) fn new(lines: Vec<String>) -> (r: Editor)
        ensures
            edit_state(r) == fresh_state(lines.deep_view()),
            !editor_selecting(r),
    {
        Editor { area: TextArea::new(lines) }
    }

    /// Relies on `TextArea::default`, which is `TextArea::new` on one empty
    /// line.
    #[verifier::external_body]
    pub(crate) fn empty() -> (r: Editor)
        ensures
            edit_state(r) == fresh_state(seq![Seq::<char>::empty()]),
            !editor_selecting(r),
    {
        Editor { area: TextArea::default() }
    }

    /// Relies on `TextArea::lines`: the lines the editor holds.
    #[verifier::external_body]
    pub(crate) fn lines(&self) -> (r: Vec<String>)
        ensures
            r.deep_view() == editor_text(*self),
    {
        self.area.lines().to_vec()
    }

    /// Relies on `TextArea::cursor`: the cursor's row and column.
    #[verifier::external_body]
    pub(crate) fn cursor(&self) -> (r: (usize, usize))
        ensures
            r.0 as nat == editor_cursor(*self).0,
            r.1 as nat == editor_cursor(*self).1,
    {
        self.area.cursor()
    }

    /// Relies on `TextArea::insert_char`, which indexes the cursor's line:
    /// with nothing selected it types one character at the cursor.
    #[verifier::external_body]
    pub(crate) fn insert(&mut self, c: char)
        requires
            edit_state(*old(self)).ready(),
        ensures
            !editor_selecting(*old(self)) ==> edit_state(*final(self)) == typed(
                edit_state(*old(self)),
                c,
            ) && !editor_selecting(*final(self)),
    {
        self.area.insert_char(c)
    }

    /// Relies on `TextArea::delete_char`, which indexes the cursor's line:
    /// with nothing selected it deletes the character before the cursor.
    #[verifier::external_body]
    pub(crate) fn delete(&mut self)
        requires
            edit_state(*old(self)).ready(),
        ensures
            !editor_selecting(*old(self)) ==> edit_state(*final(self)) == erased(
                edit_state(*old(self)),
            ) && !editor_selecting(*final(self)),
    {
        self.area.delete_char();
    }

    /// Relies on `TextArea::move_cursor` with a one-step `CursorMove`, which
    /// indexes the cursor's line, moves the cursor and keeps the text.
    #[verifier::external_body]
    pub(crate) fn step(&mut self, step: CursorStep)
        requires
            edit_state(*old(self)).ready(),
        ensures
            !editor_selecting(*old(self)) ==> edit_state(*final(self)) == stepped(
                edit_state(*old(self)),
                step,
            ) && !editor_selecting(*final(self)),
    {
        let m = match step {
            CursorStep::Forward => CursorMove::Forward,
            CursorStep::Back => CursorMove::Back,
            CursorStep::Up => CursorMove::Up,
            CursorStep::Down => CursorMove::Down,
        };
        self.area.move_cursor(m)
    }
}

/// A cursor movement in the editor.
#[derive(Clone, Copy, Debug, PartialEq, Eq, Structural)]
pub enum CursorStep {
    Forward,
    Back,
    Up,
    Down,
}

/// The lines of `s`: the pieces between its newlines.
pub open spec fn split_lines(s: Seq<char>) -> Seq<Seq<char>>
    decreases s.len(),
{
    if s.len() == 0 {
        seq![Seq::<char>::empty()]
    } else {
        let before = split_lines(s.drop_last());
        if s.last() == '\n' {
            before.push(Seq::<char>::empty())
        } else {
            before.update(before.len() - 1, before.last().push(s.last()))
        }
    }
}

/// Lines joined into one text, a newline between each two.
pub open spec fn join_lines(lines: Seq<Seq<char>>) -> Seq<char>
    decreases lines.len(),
{
    if lines.len() == 0 {
        Seq::<char>::empty()
    } else if lines.len() == 1 {
        lines[0]
    } else {
        join_lines(lines.drop_last()) + seq!['\n'] + lines.last()
    }
}

/// Splits a text at its newlines.
pub fn split_text(s: &String) -> (r: Vec<String>)
    ensures
        r.deep_view() == split_lines(s@),
{
    let v = chars_of(s.as_str());
    let mut r: Vec<String> = Vec::new();
    let mut start: usize = 0;
    let mut i: usize = 0;
    assert(v@.take(0) =~= Seq::<char>::empty());
    assert(r.deep_view() + seq![v@.subrange(0, 0)] =~= seq![Seq::<char>::empty()]);
    while i < v.len()
        invariant
            v@ == s@,
            start <= i <= v.len(),
            r.deep_view() + seq![v@.subrange(start as int, i as int)] == split_lines(
                v@.take(i as int),
            ),
        decreases v.len() - i,
    {
        let ghost before = r.deep_view() + seq![v@.subrange(start as int, i as int)];
        assert(v@.take(i as int + 1).drop_last() =~= v@.take(i as int));
        assert(v@.take(i as int + 1).last() == v@[i as int]);
        let ghost old_dv = r.deep_view();
        if v[i] == '\n' {
            let mut line = String::new();
            push_chars(&mut line, &v, start, i);
            r.push(line);
            assert(r.deep_view() =~= old_dv.push(v@.subrange(start as int, i as int)));
            start = i + 1;
            i = i + 1;
            assert(v@.subrange(start as int, i as int) =~= Seq::<char>::empty());
            assert(r.deep_view() + seq![v@.subrange(start as int, i as int)] =~= before.push(
                Seq::<char>::empty(),
            ));
        } else {
            assert(v@.subrange(start as int, i as int + 1) =~= v@.subrange(
                start as int,
                i as int,
            ).push(v@[i as int]));
            i = i + 1;
            assert(r.deep_view() + seq![v@.subrange(start as int, i as int)] =~= before.update(
                before.len() - 1,
                before.last().push(v@[i - 1]),
            ));
        }
    }
    let mut line = String::new();
    push_chars(&mut line, &v, start, i);
    r.push(line);
    assert(v@.take(i as int) =~= s@);
    assert(r.deep_view() =~= split_lines(s@));
    r
}

/// Joins lines into one text, a newline between each two.
pub fn join_text(lines: &Vec<String>) -> (r: String)
    ensures
        r@ == join_lines(lines.deep_view()),
{
    let mut r = String::new();
    let mut i: usize = 0;
    while i < lines.len()
        invariant
            i <= lines.len(),
            r@ == join_lines(lines.deep_view().take(i as int)),
        decreases lines.len() - i,
    {
        let ghost d = lines.deep_view().take(i as int + 1);
        assert(d.drop_last() =~= lines.deep_view().take(i as int));
        if i > 0 {
            push_char(&mut r, '\n');
        }
        r.append(lines[i].as_str());
        i = i + 1;
        assert(r@ =~= join_lines(d));
    }
    assert(lines.deep_view().take(i as int) =~= lines.deep_view());
    r
}

} // verus!
