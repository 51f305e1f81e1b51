//! One pane of the client: its directory, listing, selection, cache and
//! the four interaction states (browsing, awaiting input, viewing a file,
//! editing a file). The pane never talks to the server itself: a step that
//! needs the server hands back the request to send, and the reply comes
//! back through `apply_rows`, `apply_status` or `apply_file`.

use vstd::prelude::*;
use crate::cache::{DirectoryCache, Rows};
use crate::editor::{
    edit_state, editor_selecting, erased, fresh_state, join_lines, join_text, split_lines,
    split_text, stepped, typed, CursorStep, EditState, Editor,
};
use crate::listing::{filter_dir, filtered, AttributeMode};
use crate::menu::{menu_at, MenuOption, MENU_LEN};
use crate::protocol::{
    reports_failure, rows_from_json, rows_in_json, status_ok, Request, RequestModel,
};
use crate::server::{is_last_slash, FileReply};
use crate::text::{chars_of, copy_rows, find_last, pop_char, push_char, push_chars};

verus! {

/// What a pane is doing with the keys it receives.
#[derive(Clone, Copy, Debug, PartialEq, Eq, Structural)]
pub enum Interaction {
    Browsing,
    AwaitingInput,
    ViewingFile,
    EditingFile,
}

/// A key as the pane sees it.
#[derive(Clone, Copy, Debug, PartialEq, Eq, Structural)]
pub enum Key {
    Up,
    Down,
    Left,
    Right,
    Enter,
    Esc,
    Tab,
    Backspace,
    Char(char),
    /// The command that saves the file being edited.
    Save,
    Other,
}

/// The request a pane has sent and the use it will make of the reply.
pub enum Awaiting {
    /// A listing of this directory, which the pane then shows.
    Enter(String),
    /// A listing of the current directory in a new mode.
    Reload,
    /// A listing of the current directory after a quiet spell.
    Refresh,
    /// The status of a change to the filesystem.
    Change,
    /// A listing of the current directory after a change succeeded.
    AfterChange,
    /// The content of a file to view.
    View,
}

pub enum AwaitingModel {
    Enter(Seq<char>),
    Reload,
    Refresh,
    Change,
    AfterChange,
    View,
}

impl View for Awaiting {
    type V = AwaitingModel;

    open spec fn view(&self) -> AwaitingModel {
        match self {
            Awaiting::Enter(p) => AwaitingModel::Enter(p@),
            Awaiting::Reload => AwaitingModel::Reload,
            Awaiting::Refresh => AwaitingModel::Refresh,
            Awaiting::Change => AwaitingModel::Change,
            Awaiting::AfterChange => AwaitingModel::AfterChange,
            Awaiting::View => AwaitingModel::View,
        }
    }
}

/// The state of a pane, over sequences and maps.
pub struct PaneView {
    pub path: Seq<char>,
    pub entries: Rows,
    pub selected_row: Option<usize>,
    pub selected_menu: Option<usize>,
    pub cache: Map<Seq<char>, Rows>,
    pub mode: AttributeMode,
    pub interaction: Interaction,
    pub chosen: MenuOption,
    pub input: Seq<char>,
    pub input_rename: Seq<char>,
    pub second_field: bool,
    pub filter_active: bool,
    pub wrong_input: bool,
    pub cached: bool,
    pub terminate: bool,
    pub file_content: Seq<char>,
    pub file_lines: usize,
    pub scroll: usize,
    pub scroll_right: usize,
    pub editor: EditState,
    pub selecting: bool,
    pub awaiting: Option<AwaitingModel>,
}

impl PaneView {
    /// The editor can take keys: its cursor is on a line and nothing is
    /// selected.
    pub open spec fn wf(self) -> bool {
        self.editor.ready() && !self.selecting
    }
}

/// One browsing context.
pub struct PaneSession {
    /// The directory shown.
    pub path: String,
    /// Its listing, as shown.
    pub entries: Vec<Vec<String>>,
    /// The selected row, when the listing has the focus.
    pub selected_row: Option<usize>,
    /// The selected menu entry, when the menu has the focus.
    pub selected_menu: Option<usize>,
    pub cache: DirectoryCache,
    pub mode: AttributeMode,
    pub interaction: Interaction,
    /// The menu entry last chosen.
    pub chosen: MenuOption,
    /// The first input field.
    pub input: String,
    /// The second input field: the new name of a file being renamed.
    pub input_rename: String,
    /// Whether typing goes to the second input field.
    pub second_field: bool,
    /// Whether the listing shown is filtered by the first input field.
    pub filter_active: bool,
    /// Whether the last commit was refused.
    pub wrong_input: bool,
    /// Whether the listing shown came from the cache.
    pub cached: bool,
    /// Whether the pane asked to end the session.
    pub terminate: bool,
    /// The file being viewed.
    pub file_content: String,
    pub file_lines: usize,
    /// Vertical and horizontal scroll offsets of the file view.
    pub scroll: usize,
    pub scroll_right: usize,
    pub editor: Editor,
    /// The request in flight, if any.
    pub awaiting: Option<Awaiting>,
}

impl View for PaneSession {
    type V = PaneView;

    open spec fn view(&self) -> PaneView {
        PaneView {
            path: self.path@,
            entries: self.entries.deep_view(),
            selected_row: self.selected_row,
            selected_menu: self.selected_menu,
            cache: self.cache@,
            mode: self.mode,
            interaction: self.interaction,
            chosen: self.chosen,
            input: self.input@,
            input_rename: self.input_rename@,
            second_field: self.second_field,
            filter_active: self.filter_active,
            wrong_input: self.wrong_input,
            cached: self.cached,
            terminate: self.terminate,
            file_content: self.file_content@,
            file_lines: self.file_lines,
            scroll: self.scroll,
            scroll_right: self.scroll_right,
            editor: edit_state(self.editor),
            selecting: editor_selecting(self.editor),
            awaiting: match self.awaiting {
                Some(a) => Some(a@),
                None => None,
            },
        }
    }
}

/// The model of an optional request.
pub open spec fn sent(r: Option<Request>) -> Option<RequestModel> {
    match r {
        Some(q) => Some(q@),
        None => None,
    }
}

/// The selection after moving up in a list of `len` items: from the top it
/// wraps to the bottom; an empty list keeps the selection as it is.
pub open spec fn after_up(sel: Option<usize>, len: nat) -> Option<usize> {
    if len == 0 {
        sel
    } else {
        match sel {
            Some(i) => if i == 0 || i >= len {
                Some((len - 1) as usize)
            } else {
                Some((i - 1) as usize)
            },
            None => Some((len - 1) as usize),
        }
    }
}

/// The selection after moving down in a list of `len` items: from the
/// bottom it wraps to the top; an empty list keeps the selection as it is.
pub open spec fn after_down(sel: Option<usize>, len: nat) -> Option<usize> {
    if len == 0 {
        sel
    } else {
        match sel {
            Some(i) => if i + 1 >= len {
                Some(0)
            } else {
                Some((i + 1) as usize)
            },
            None => Some(0),
        }
    }
}

/// Moves a selection up in a list of `length` items, wrapping around.
pub fn key_up(selected: &mut Option<usize>, length: usize)
    ensures
        *final(selected) == after_up(*old(selected), length as nat),
{
    if length != 0 {
        match *selected {
            Some(i) => {
                if i == 0 || i >= length {
                    *selected = Some(length - 1);
                } else {
                    *selected = Some(i - 1);
                }
            },
            None => {
                *selected = Some(length - 1);
            },
        }
    }
}

/// Moves a selection down in a list of `length` items, wrapping around.
pub fn key_down(selected: &mut Option<usize>, length: usize)
    ensures
        *final(selected) == after_down(*old(selected), length as nat),
{
    if length != 0 {
        match *selected {
            Some(i) => {
                if i >= length - 1 {
                    *selected = Some(0);
                } else {
                    *selected = Some(i + 1);
                }
            },
            None => {
                *selected = Some(0);
            },
        }
    }
}

/// A path joined with a name below it.
pub open spec fn child_path(dir: Seq<char>, name: Seq<char>) -> Seq<char> {
    dir + seq!['/'] + name
}

/// The directory above `path`: the part before its last `/`, or `/` when
/// that part is empty. `None` when the path has no `/`.
pub open spec fn parent_path(path: Seq<char>) -> Option<Seq<char>> {
    if exists|i: int| is_last_slash(path, i) {
        let i = choose|i: int| is_last_slash(path, i);
        if i == 0 {
            Some(seq!['/'])
        } else {
            Some(path.take(i))
        }
    } else {
        None
    }
}

/// Moving to the directory `target`: shown at once when cached, else asked
/// of the server.
pub open spec fn go_to(v: PaneView, target: Seq<char>) -> (PaneView, Option<RequestModel>) {
    if v.cache.contains_key(target) {
        (
            PaneView {
                entries: v.cache[target],
                path: target,
                cached: true,
                selected_row: Some(0),
                ..v
            },
            None,
        )
    } else {
        (
            PaneView { awaiting: Some(AwaitingModel::Enter(target)), ..v },
            Some(RequestModel::GetDir { path: target, mode: v.mode }),
        )
    }
}

/// Right arrow while browsing: enter the selected directory.
pub open spec fn descend(v: PaneView) -> (PaneView, Option<RequestModel>) {
    match v.selected_row {
        Some(i) => if v.selected_menu is None && i < v.entries.len() && v.entries[i as int].len()
            > 0 {
            let name = v.entries[i as int][0];
            let base = PaneView { filter_active: false, input: Seq::empty(), ..v };
            if name.len() > 0 && name[0] == '/' {
                go_to(base, v.path + name)
            } else {
                (base, None)
            }
        } else {
            (v, None)
        },
        None => (v, None),
    }
}

/// Left arrow while browsing: go to the directory above.
pub open spec fn ascend(v: PaneView) -> (PaneView, Option<RequestModel>) {
    if v.selected_menu is None {
        let base = PaneView { filter_active: false, input: Seq::empty(), ..v };
        match parent_path(v.path) {
            Some(target) => go_to(base, target),
            None => (base, None),
        }
    } else {
        (v, None)
    }
}

/// Escape while a filter is active: back to the whole listing.
pub open spec fn unfilter(v: PaneView) -> (PaneView, Option<RequestModel>) {
    let base = PaneView {
        input: Seq::empty(),
        input_rename: Seq::empty(),
        second_field: false,
        filter_active: false,
        ..v
    };
    if v.cache.contains_key(v.path) {
        (PaneView { entries: v.cache[v.path], cached: true, ..base }, None)
    } else {
        (
            PaneView { awaiting: Some(AwaitingModel::Reload), ..base },
            Some(RequestModel::GetDir { path: v.path, mode: v.mode }),
        )
    }
}

/// The attribute mode a menu entry selects.
pub open spec fn mode_of(o: MenuOption) -> AttributeMode {
    if o == MenuOption::MoreInfo {
        AttributeMode::Extended
    } else {
        AttributeMode::Basic
    }
}

/// Enter on a menu entry while browsing.
pub open spec fn choose_option(v: PaneView, o: MenuOption) -> (PaneView, Option<RequestModel>) {
    match o {
        MenuOption::BasicInfo | MenuOption::MoreInfo => (
            PaneView {
                chosen: o,
                mode: mode_of(o),
                cache: Map::empty(),
                awaiting: Some(AwaitingModel::Reload),
                ..v
            },
            Some(RequestModel::GetDir { path: v.path, mode: mode_of(o) }),
        ),
        MenuOption::Exit => (PaneView { terminate: true, ..v }, None),
        _ => (
            PaneView {
                chosen: o,
                interaction: Interaction::AwaitingInput,
                input: Seq::empty(),
                input_rename: Seq::empty(),
                second_field: false,
                wrong_input: false,
                ..v
            },
            None,
        ),
    }
}

/// A key while browsing.
pub open spec fn browse(v: PaneView, key: Key) -> (PaneView, Option<RequestModel>) {
    match key {
        Key::Up => if v.selected_row is None {
            (PaneView { selected_menu: after_up(v.selected_menu, MENU_LEN as nat), ..v }, None)
        } else {
            (PaneView { selected_row: after_up(v.selected_row, v.entries.len()), ..v }, None)
        },
        Key::Down => if v.selected_row is None {
            (PaneView { selected_menu: after_down(v.selected_menu, MENU_LEN as nat), ..v }, None)
        } else {
            (PaneView { selected_row: after_down(v.selected_row, v.entries.len()), ..v }, None)
        },
        Key::Right => descend(v),
        Key::Left => ascend(v),
        Key::Esc => if v.filter_active {
            unfilter(v)
        } else {
            (PaneView { terminate: true, ..v }, None)
        },
        Key::Char(c) => if c == 'f' {
            if v.selected_row is None {
                (PaneView { selected_menu: None, selected_row: Some(0), ..v }, None)
            } else {
                (PaneView { selected_menu: Some(0), selected_row: None, ..v }, None)
            }
        } else {
            (v, None)
        },
        Key::Enter => match v.selected_menu {
            Some(i) => if i < MENU_LEN {
                choose_option(v, menu_at(i as int))
            } else {
                (v, None)
            },
            None => (v, None),
        },
        _ => (v, None),
    }
}

/// A pane that shows `entries` for `path`, browsing in basic mode with the
/// first row selected, the listing cached under its path.
pub open spec fn initial_view(path: Seq<char>, entries: Rows) -> PaneView {
    PaneView {
        path,
        entries,
        selected_row: Some(0),
        selected_menu: None,
        cache: Map::<Seq<char>, Rows>::empty().insert(path, entries),
        mode: AttributeMode::Basic,
        interaction: Interaction::Browsing,
        chosen: MenuOption::BasicInfo,
        input: Seq::empty(),
        input_rename: Seq::empty(),
        second_field: false,
        filter_active: false,
        wrong_input: false,
        cached: false,
        terminate: false,
        file_content: Seq::empty(),
        file_lines: 0,
        scroll: 0,
        scroll_right: 0,
        editor: fresh_state(seq![Seq::<char>::empty()]),
        selecting: false,
        awaiting: None,
    }
}

/// Enter while awaiting input: commit the text typed. An empty field is
/// refused without asking anything of the server. A filter is applied to
/// the cached listing of the directory, or to the listing shown when none is
/// cached; every other operation becomes a request. `other` is the path of
/// the other pane, where a moved file goes.
pub open spec fn commit(v: PaneView, other: Seq<char>) -> (PaneView, Option<RequestModel>) {
    let refused = (PaneView { wrong_input: true, ..v }, None);
    let target = child_path(v.path, v.input);
    let change = PaneView { awaiting: Some(AwaitingModel::Change), ..v };
    if v.input.len() == 0 {
        refused
    } else {
        match v.chosen {
            MenuOption::FilterDir => {
                let source = if v.cache.contains_key(v.path) {
                    v.cache[v.path]
                } else {
                    v.entries
                };
                (
                    PaneView {
                        entries: filtered(source, v.input),
                        interaction: Interaction::Browsing,
                        filter_active: true,
                        wrong_input: false,
                        ..v
                    },
                    None,
                )
            },
            MenuOption::ViewFile => (
                PaneView { awaiting: Some(AwaitingModel::View), ..v },
                Some(RequestModel::GetFile { path: target }),
            ),
            MenuOption::NewDir => (change, Some(RequestModel::CreateDir { path: target })),
            MenuOption::DeleteDir => (change, Some(RequestModel::RemoveDir { path: target })),
            MenuOption::NewFile => (change, Some(RequestModel::CreateFile { path: target })),
            MenuOption::DeleteFile => (change, Some(RequestModel::RemoveFile { path: target })),
            MenuOption::MoveFile => (
                change,
                Some(RequestModel::MoveFile { source: target, destination: other }),
            ),
            MenuOption::RenameFile => if v.input_rename.len() == 0 {
                refused
            } else {
                (
                    change,
                    Some(RequestModel::RenameFile { source: target, new_name: v.input_rename }),
                )
            },
            _ => (v, None),
        }
    }
}

/// A key while awaiting input.
pub open spec fn type_input(v: PaneView, key: Key, other: Seq<char>) -> (
    PaneView,
    Option<RequestModel>,
) {
    match key {
        Key::Enter => commit(v, other),
        Key::Tab => if v.chosen == MenuOption::RenameFile {
            (PaneView { second_field: !v.second_field, ..v }, None)
        } else {
            (v, None)
        },
        Key::Char(c) => if v.second_field {
            (PaneView { input_rename: v.input_rename.push(c), wrong_input: false, ..v }, None)
        } else {
            (PaneView { input: v.input.push(c), wrong_input: false, ..v }, None)
        },
        Key::Backspace => if v.second_field {
            (
                PaneView { input_rename: drop_last_char(v.input_rename), wrong_input: false, ..v },
                None,
            )
        } else {
            (PaneView { input: drop_last_char(v.input), wrong_input: false, ..v }, None)
        },
        Key::Esc => (
            PaneView {
                input: Seq::empty(),
                input_rename: Seq::empty(),
                second_field: false,
                interaction: Interaction::Browsing,
                wrong_input: false,
                ..v
            },
            None,
        ),
        _ => (PaneView { wrong_input: false, ..v }, None),
    }
}

/// A text without its last character; the empty text stays empty.
pub open spec fn drop_last_char(s: Seq<char>) -> Seq<char> {
    if s.len() == 0 {
        s
    } else {
        s.drop_last()
    }
}

/// Leaving the file view or the editor: back to browsing with the input,
/// the file and the refusal flag cleared.
pub open spec fn leave_file(v: PaneView) -> PaneView {
    PaneView {
        input: Seq::empty(),
        input_rename: Seq::empty(),
        second_field: false,
        wrong_input: false,
        file_content: Seq::empty(),
        file_lines: 0,
        scroll: 0,
        scroll_right: 0,
        interaction: Interaction::Browsing,
        ..v
    }
}

/// A key while viewing a file in a view `height` lines high. The vertical
/// offset stays within `0 ..= lines - height`, the horizontal one above 0.
pub open spec fn view_key(v: PaneView, key: Key, height: usize) -> PaneView {
    match key {
        Key::Up => if v.scroll > 0 {
            PaneView { scroll: (v.scroll - 1) as usize, ..v }
        } else {
            v
        },
        Key::Down => if v.scroll + height < v.file_lines {
            PaneView { scroll: (v.scroll + 1) as usize, ..v }
        } else {
            v
        },
        Key::Left => if v.scroll_right > 0 {
            PaneView { scroll_right: (v.scroll_right - 1) as usize, ..v }
        } else {
            v
        },
        Key::Right => if v.scroll_right < usize::MAX {
            PaneView { scroll_right: (v.scroll_right + 1) as usize, ..v }
        } else {
            v
        },
        Key::Esc => leave_file(v),
        Key::Char(c) => if c == 'i' {
            PaneView {
                interaction: Interaction::EditingFile,
                scroll: 0,
                scroll_right: 0,
                editor: fresh_state(split_lines(v.file_content)),
                selecting: false,
                ..v
            }
        } else {
            v
        },
        _ => v,
    }
}

/// Leaving the editor: the file view is left and the editor holds one
/// empty line.
pub open spec fn closed_editor(v: PaneView) -> PaneView {
    PaneView {
        editor: fresh_state(seq![Seq::<char>::empty()]),
        selecting: false,
        ..leave_file(v)
    }
}

/// A key while editing a file: the save command and escape leave the
/// editor, the other keys edit the text or move the cursor.
pub open spec fn edit_key(v: PaneView, key: Key) -> (PaneView, Option<RequestModel>) {
    match key {
        Key::Save => save_edit(v),
        Key::Esc => (closed_editor(v), None),
        Key::Char(c) => (PaneView { editor: typed(v.editor, c), ..v }, None),
        Key::Enter => (PaneView { editor: typed(v.editor, '\n'), ..v }, None),
        Key::Backspace => (PaneView { editor: erased(v.editor), ..v }, None),
        Key::Right => (PaneView { editor: stepped(v.editor, CursorStep::Forward), ..v }, None),
        Key::Left => (PaneView { editor: stepped(v.editor, CursorStep::Back), ..v }, None),
        Key::Up => (PaneView { editor: stepped(v.editor, CursorStep::Up), ..v }, None),
        Key::Down => (PaneView { editor: stepped(v.editor, CursorStep::Down), ..v }, None),
        _ => (v, None),
    }
}

/// The save command while editing: the editor's lines, joined by newlines,
/// replace the file's content, and the pane goes back to browsing.
pub open spec fn save_edit(v: PaneView) -> (PaneView, Option<RequestModel>) {
    (
        closed_editor(v),
        Some(
            RequestModel::SaveFile {
                path: child_path(v.path, v.input),
                content: join_lines(v.editor.lines),
            },
        ),
    )
}

/// A listing reply, `None` when it could not be read. A reply that cannot
/// be read leaves the pane as it was, the request done.
pub open spec fn apply_rows(v: PaneView, rows: Option<Rows>) -> PaneView {
    let done = PaneView { awaiting: None, ..v };
    match (v.awaiting, rows) {
        (Some(AwaitingModel::Enter(target)), Some(rows)) => PaneView {
            entries: rows,
            path: target,
            cache: v.cache.insert(target, rows),
            cached: false,
            selected_row: Some(0),
            ..done
        },
        (Some(AwaitingModel::Reload), Some(rows)) => PaneView {
            entries: rows,
            cache: v.cache.insert(v.path, rows),
            cached: false,
            ..done
        },
        (Some(AwaitingModel::Refresh), Some(rows)) => PaneView {
            entries: rows,
            cache: if v.cache.contains_key(v.path) {
                v.cache.insert(v.path, rows)
            } else {
                v.cache
            },
            ..done
        },
        (Some(AwaitingModel::AfterChange), Some(rows)) => PaneView {
            entries: rows,
            cache: v.cache.insert(v.path, rows),
            interaction: Interaction::Browsing,
            wrong_input: false,
            input: Seq::empty(),
            input_rename: Seq::empty(),
            second_field: false,
            filter_active: false,
            ..done
        },
        (Some(_), _) => done,
        (None, _) => v,
    }
}

/// A status reply to a change: on success the cached listings, which may
/// no longer hold, are dropped and the directory is listed again; on
/// failure the input is marked as refused.
pub open spec fn apply_status(v: PaneView, ok: bool) -> (PaneView, Option<RequestModel>) {
    if v.awaiting == Some(AwaitingModel::Change) {
        if ok {
            (
                PaneView { awaiting: Some(AwaitingModel::AfterChange), cache: Map::empty(), ..v },
                Some(RequestModel::GetDir { path: v.path, mode: v.mode }),
            )
        } else {
            (PaneView { awaiting: None, wrong_input: true, ..v }, None)
        }
    } else {
        (v, None)
    }
}

/// A file reply, `None` when it could not be read: a successful one opens
/// the file view, anything else marks the input as refused.
pub open spec fn apply_file(v: PaneView, reply: Option<FileReply>) -> PaneView {
    if v.awaiting == Some(AwaitingModel::View) {
        match reply {
            Some(f) => if f.success {
                PaneView {
                    awaiting: None,
                    file_content: f.message@,
                    file_lines: split_lines(f.message@).len() as usize,
                    interaction: Interaction::ViewingFile,
                    scroll: 0,
                    scroll_right: 0,
                    wrong_input: false,
                    ..v
                }
            } else {
                PaneView { awaiting: None, wrong_input: true, ..v }
            },
            None => PaneView { awaiting: None, wrong_input: true, ..v },
        }
    } else {
        v
    }
}

/// A quiet spell: the directory is listed again unless a filter is shown or
/// a request is in flight.
pub open spec fn idle(v: PaneView) -> (PaneView, Option<RequestModel>) {
    if !v.filter_active && v.awaiting is None {
        (
            PaneView { awaiting: Some(AwaitingModel::Refresh), ..v },
            Some(RequestModel::GetDir { path: v.path, mode: v.mode }),
        )
    } else {
        (v, None)
    }
}

/// What a key does to a pane, and the request it sends, if any. While a
/// request is in flight keys are ignored.
pub open spec fn key_step(v: PaneView, key: Key, other: Seq<char>, height: usize) -> (
    PaneView,
    Option<RequestModel>,
) {
    if v.awaiting is Some {
        (v, None)
    } else {
        match v.interaction {
            Interaction::Browsing => browse(v, key),
            Interaction::AwaitingInput => type_input(v, key, other),
            Interaction::ViewingFile => (view_key(v, key, height), None),
            Interaction::EditingFile => edit_key(v, key),
        }
    }
}

impl PaneSession {
    /// A pane on `path`, showing the listing fetched for it.
    pub fn new(path: String, entries: Vec<Vec<String>>) -> (r: PaneSession)
        ensures
            r@ == initial_view(path@, entries.deep_view()),
            r@.wf(),
    {
        let mut cache = DirectoryCache::new();
        cache.insert(path.clone(), copy_rows(&entries));
        PaneSession {
            path,
            entries,
            selected_row: Some(0),
            selected_menu: None,
            cache,
            mode: AttributeMode::Basic,
            interaction: Interaction::Browsing,
            chosen: MenuOption::BasicInfo,
            input: String::new(),
            input_rename: String::new(),
            second_field: false,
            filter_active: false,
            wrong_input: false,
            cached: false,
            terminate: false,
            file_content: String::new(),
            file_lines: 0,
            scroll: 0,
            scroll_right: 0,
            editor: Editor::empty(),
            awaiting: None,
        }
    }

    fn go_to(&mut self, target: String) -> (r: Option<Request>)
        ensures
            (final(self)@, sent(r)) == go_to(old(self)@, target@),
    {
        match self.cache.get(&target) {
            Some(rows) => {
                self.entries = rows;
                self.path = target;
                self.cached = true;
                self.selected_row = Some(0);
                None
            },
            None => {
                self.awaiting = Some(Awaiting::Enter(target.clone()));
                Some(Request::GetDir { path: target, mode: self.mode })
            },
        }
    }

    fn descend(&mut self) -> (r: Option<Request>)
        ensures
            (final(self)@, sent(r)) == descend(old(self)@),
    {
        match self.selected_row {
            Some(i) => {
                if self.selected_menu.is_none() && i < self.entries.len() && self.entries[i].len()
                    > 0 {
                    assert(self.entries.deep_view()[i as int]
                        == self.entries[i as int].deep_view());
                    let name = self.entries[i][0].clone();
                    self.filter_active = false;
                    self.input = String::new();
                    let v = chars_of(name.as_str());
                    if v.len() > 0 && v[0] == '/' {
                        let mut target = self.path.clone();
                        target.append(name.as_str());
                        self.go_to(target)
                    } else {
                        None
                    }
                } else {
                    None
                }
            },
            None => None,
        }
    }

    fn ascend(&mut self) -> (r: Option<Request>)
        ensures
            (final(self)@, sent(r)) == ascend(old(self)@),
    {
        if self.selected_menu.is_some() {
            return None;
        }
        self.filter_active = false;
        self.input = String::new();
        let v = chars_of(self.path.as_str());
        let ghost p = self.path@;
        match find_last(&v, '/', 0, v.len()) {
            Some(i) => {
                assert forall|j: int| is_last_slash(p, j) implies j == i by {
                    if j < i {
                        assert(p[i as int] == '/');
                    } else if j > i {
                        assert(p[j] == '/');
                    }
                }
                assert(is_last_slash(p, i as int));
                let mut target = String::new();
                if i == 0 {
                    push_char(&mut target, '/');
                    assert(target@ =~= seq!['/']);
                } else {
                    push_chars(&mut target, &v, 0, i);
                    assert(target@ =~= p.take(i as int));
                }
                self.go_to(target)
            },
            None => {
                assert forall|j: int| !is_last_slash(p, j) by {
                    if 0 <= j < p.len() {
                        assert(v@[j] != '/');
                    }
                }
                None
            },
        }
    }

    fn unfilter(&mut self) -> (r: Option<Request>)
        ensures
            (final(self)@, sent(r)) == unfilter(old(self)@),
    {
        self.input = String::new();
        self.input_rename = String::new();
        self.second_field = false;
        self.filter_active = false;
        match self.cache.get(&self.path) {
            Some(rows) => {
                self.entries = rows;
                self.cached = true;
                None
            },
            None => {
                self.awaiting = Some(Awaiting::Reload);
                Some(Request::GetDir { path: self.path.clone(), mode: self.mode })
            },
        }
    }

    fn choose_option(&mut self, o: MenuOption) -> (r: Option<Request>)
        ensures
            (final(self)@, sent(r)) == choose_option(old(self)@, o),
    {
        match o {
            MenuOption::BasicInfo | MenuOption::MoreInfo => {
                let mode = if o == MenuOption::MoreInfo {
                    AttributeMode::Extended
                } else {
                    AttributeMode::Basic
                };
                self.chosen = o;
                self.mode = mode;
                self.cache = DirectoryCache::new();
                self.awaiting = Some(Awaiting::Reload);
                Some(Request::GetDir { path: self.path.clone(), mode })
            },
            MenuOption::Exit => {
                self.terminate = true;
                None
            },
            _ => {
                self.chosen = o;
                self.interaction = Interaction::AwaitingInput;
                self.input = String::new();
                self.input_rename = String::new();
                self.second_field = false;
                self.wrong_input = false;
                None
            },
        }
    }

    fn browse(&mut self, key: Key) -> (r: Option<Request>)
        ensures
            (final(self)@, sent(r)) == browse(old(self)@, key),
    {
        match key {
            Key::Up => {
                if self.selected_row.is_none() {
                    key_up(&mut self.selected_menu, MENU_LEN);
                } else {
                    key_up(&mut self.selected_row, self.entries.len());
                }
                None
            },
            Key::Down => {
                if self.selected_row.is_none() {
                    key_down(&mut self.selected_menu, MENU_LEN);
                } else {
                    key_down(&mut self.selected_row, self.entries.len());
                }
                None
            },
            Key::Right => self.descend(),
            Key::Left => self.ascend(),
            Key::Esc => {
                if self.filter_active {
                    self.unfilter()
                } else {
                    self.terminate = true;
                    None
                }
            },
            Key::Char(c) => {
                if c == 'f' {
                    if self.selected_row.is_none() {
                        self.selected_menu = None;
                        self.selected_row = Some(0);
                    } else {
                        self.selected_menu = Some(0);
                        self.selected_row = None;
                    }
                }
                None
            },
            Key::Enter => match self.selected_menu {
                Some(i) => {
                    if i < MENU_LEN {
                        self.choose_option(MenuOption::at(i))
                    } else {
                        None
                    }
                },
                None => None,
            },
            _ => None,
        }
    }

    fn commit(&mut self, other: &String) -> (r: Option<Request>)
        ensures
            (final(self)@, sent(r)) == commit(old(self)@, other@),
    {
        if self.input.as_str().is_empty() {
            self.wrong_input = true;
            return None;
        }
        let mut target = self.path.clone();
        push_char(&mut target, '/');
        target.append(self.input.as_str());
        assert(target@ =~= child_path(self.path@, self.input@));
        match self.chosen {
            MenuOption::FilterDir => {
                let source = match self.cache.get(&self.path) {
                    Some(rows) => rows,
                    None => copy_rows(&self.entries),
                };
                self.entries = filter_dir(&source, self.input.as_str());
                self.interaction = Interaction::Browsing;
                self.filter_active = true;
                self.wrong_input = false;
                None
            },
            MenuOption::ViewFile => {
                self.awaiting = Some(Awaiting::View);
                Some(Request::GetFile { path: target })
            },
            MenuOption::NewDir => {
                self.awaiting = Some(Awaiting::Change);
                Some(Request::CreateDir { path: target })
            },
            MenuOption::DeleteDir => {
                self.awaiting = Some(Awaiting::Change);
                Some(Request::RemoveDir { path: target })
            },
            MenuOption::NewFile => {
                self.awaiting = Some(Awaiting::Change);
                Some(Request::CreateFile { path: target })
            },
            MenuOption::DeleteFile => {
                self.awaiting = Some(Awaiting::Change);
                Some(Request::RemoveFile { path: target })
            },
            MenuOption::MoveFile => {
                self.awaiting = Some(Awaiting::Change);
                Some(Request::MoveFile { source: target, destination: other.clone() })
            },
            MenuOption::RenameFile => {
                if self.input_rename.as_str().is_empty() {
                    self.wrong_input = true;
                    None
                } else {
                    self.awaiting = Some(Awaiting::Change);
                    let new_name = self.input_rename.clone();
                    Some(Request::RenameFile { source: target, new_name })
                }
            },
            _ => None,
        }
    }

    fn type_input(&mut self, key: Key, other: &String) -> (r: Option<Request>)
        ensures
            (final(self)@, sent(r)) == type_input(old(self)@, key, other@),
    {
        match key {
            Key::Enter => self.commit(other),
            Key::Tab => {
                if self.chosen == MenuOption::RenameFile {
                    self.second_field = !self.second_field;
                }
                None
            },
            Key::Char(c) => {
                if self.second_field {
                    push_char(&mut self.input_rename, c);
                } else {
                    push_char(&mut self.input, c);
                }
                self.wrong_input = false;
                None
            },
            Key::Backspace => {
                if self.second_field {
                    pop_char(&mut self.input_rename);
                } else {
                    pop_char(&mut self.input);
                }
                self.wrong_input = false;
                None
            },
            Key::Esc => {
                self.input = String::new();
                self.input_rename = String::new();
                self.second_field = false;
                self.interaction = Interaction::Browsing;
                self.wrong_input = false;
                None
            },
            _ => {
                self.wrong_input = false;
                None
            },
        }
    }

    fn leave_file(&mut self)
        ensures
            final(self)@ == leave_file(old(self)@),
    {
        self.input = String::new();
        self.input_rename = String::new();
        self.second_field = false;
        self.wrong_input = false;
        self.file_content = String::new();
        self.file_lines = 0;
        self.scroll = 0;
        self.scroll_right = 0;
        self.interaction = Interaction::Browsing;
    }

    fn view_key(&mut self, key: Key, height: usize)
        ensures
            final(self)@ == view_key(old(self)@, key, height),
    {
        match key {
            Key::Up => {
                if self.scroll > 0 {
                    self.scroll = self.scroll - 1;
                }
            },
            Key::Down => {
                if self.scroll < self.file_lines && height < self.file_lines - self.scroll {
                    self.scroll = self.scroll + 1;
                }
            },
            Key::Left => {
                if self.scroll_right > 0 {
                    self.scroll_right = self.scroll_right - 1;
                }
            },
            Key::Right => {
                if self.scroll_right < usize::MAX {
                    self.scroll_right = self.scroll_right + 1;
                }
            },
            Key::Esc => self.leave_file(),
            Key::Char(c) => {
                if c == 'i' {
                    self.interaction = Interaction::EditingFile;
                    self.scroll = 0;
                    self.scroll_right = 0;
                    self.editor = Editor::new(split_text(&self.file_content));
                }
            },
            _ => {},
        }
    }

    fn edit_key(&mut self, key: Key) -> (r: Option<Request>)
        requires
            old(self)@.wf(),
        ensures
            (final(self)@, sent(r)) == edit_key(old(self)@, key),
    {
        match key {
            Key::Save => {
                let mut target = self.path.clone();
                push_char(&mut target, '/');
                target.append(self.input.as_str());
                assert(target@ =~= child_path(self.path@, self.input@));
                let content = join_text(&self.editor.lines());
                self.leave_file();
                self.editor = Editor::empty();
                Some(Request::SaveFile { path: target, content })
            },
            Key::Esc => {
                self.leave_file();
                self.editor = Editor::empty();
                None
            },
            Key::Char(c) => {
                self.editor.insert(c);
                None
            },
            Key::Backspace => {
                self.editor.delete();
                None
            },
            Key::Enter => {
                self.editor.insert('\n');
                None
            },
            Key::Right => {
                self.editor.step(CursorStep::Forward);
                None
            },
            Key::Left => {
                self.editor.step(CursorStep::Back);
                None
            },
            Key::Up => {
                self.editor.step(CursorStep::Up);
                None
            },
            Key::Down => {
                self.editor.step(CursorStep::Down);
                None
            },
            _ => None,
        }
    }

    /// Handles a key. `other` is the path of the other pane and `height`
    /// the number of lines the file view shows. While a request is in
    /// flight keys are ignored. Returns the request to send, if any.
    pub fn handle_key(&mut self, key: Key, other: &String, height: usize) -> (r: Option<Request>)
        requires
            old(self)@.wf(),
        ensures
            (final(self)@, sent(r)) == key_step(old(self)@, key, other@, height),
            final(self)@.wf(),
    {
        if self.awaiting.is_some() {
            return None;
        }
        match self.interaction {
            Interaction::Browsing => self.browse(key),
            Interaction::AwaitingInput => self.type_input(key, other),
            Interaction::ViewingFile => {
                self.view_key(key, height);
                None
            },
            Interaction::EditingFile => self.edit_key(key),
        }
    }

    /// Takes in a listing reply, `None` when it could not be read.
    pub fn apply_rows(&mut self, rows: Option<Vec<Vec<String>>>)
        ensures
            final(self)@ == apply_rows(old(self)@, rows.deep_view()),
    {
        let awaiting = self.awaiting.take();
        match (awaiting, rows) {
            (Some(Awaiting::Enter(target)), Some(rows)) => {
                self.cache.insert(target.clone(), copy_rows(&rows));
                self.entries = rows;
                self.path = target;
                self.cached = false;
                self.selected_row = Some(0);
            },
            (Some(Awaiting::Reload), Some(rows)) => {
                self.cache.insert(self.path.clone(), copy_rows(&rows));
                self.entries = rows;
                self.cached = false;
            },
            (Some(Awaiting::Refresh), Some(rows)) => {
                if self.cache.contains(&self.path) {
                    self.cache.insert(self.path.clone(), copy_rows(&rows));
                }
                self.entries = rows;
            },
            (Some(Awaiting::AfterChange), Some(rows)) => {
                self.cache.insert(self.path.clone(), copy_rows(&rows));
                self.entries = rows;
                self.interaction = Interaction::Browsing;
                self.wrong_input = false;
                self.input = String::new();
                self.input_rename = String::new();
                self.second_field = false;
                self.filter_active = false;
            },
            (Some(_), _) => {},
            (None, _) => {},
        }
    }

    /// The lines in the editor.
    pub fn editor_lines(&self) -> (r: Vec<String>)
        ensures
            r.deep_view() == self@.editor.lines,
    {
        self.editor.lines()
    }

    /// Where the cursor of the editor stands: row and column.
    pub fn editor_cursor(&self) -> (r: (usize, usize))
        ensures
            r.0 as nat == self@.editor.row,
            r.1 as nat == self@.editor.col,
    {
        self.editor.cursor()
    }

    /// Takes in the text of a listing reply.
    pub fn receive_listing(&mut self, text: &str)
        ensures
            final(self)@ == apply_rows(old(self)@, rows_in_json(text@)),
    {
        let rows = rows_from_json(text);
        self.apply_rows(rows);
    }

    /// Takes in the text of a status reply, which reports failure when it
    /// begins with `Error`.
    pub fn receive_status(&mut self, text: &str) -> (r: Option<Request>)
        ensures
            (final(self)@, sent(r)) == apply_status(old(self)@, !reports_failure(text@)),
    {
        let ok = status_ok(text);
        self.apply_status(ok)
    }

    /// Takes in a status reply.
    pub fn apply_status(&mut self, ok: bool) -> (r: Option<Request>)
        ensures
            (final(self)@, sent(r)) == apply_status(old(self)@, ok),
    {
        match self.awaiting {
            Some(Awaiting::Change) => {
                if ok {
                    self.awaiting = Some(Awaiting::AfterChange);
                    self.cache = DirectoryCache::new();
                    Some(Request::GetDir { path: self.path.clone(), mode: self.mode })
                } else {
                    self.awaiting = None;
                    self.wrong_input = true;
                    None
                }
            },
            _ => None,
        }
    }

    /// Takes in a file reply, `None` when it could not be read.
    pub fn apply_file(&mut self, reply: Option<FileReply>)
        ensures
            final(self)@ == apply_file(old(self)@, reply),
    {
        match self.awaiting {
            Some(Awaiting::View) => {
                self.awaiting = None;
                match reply {
                    Some(f) => {
                        if f.success {
                            self.file_lines = split_text(&f.message).len();
                            self.file_content = f.message;
                            self.interaction = Interaction::ViewingFile;
                            self.scroll = 0;
                            self.scroll_right = 0;
                            self.wrong_input = false;
                        } else {
                            self.wrong_input = true;
                        }
                    },
                    None => {
                        self.wrong_input = true;
                    },
                }
            },
            _ => {},
        }
    }

    /// A quiet spell: returns the request that lists the directory again,
    /// if one is due.
    pub fn on_idle(&mut self) -> (r: Option<Request>)
        ensures
            (final(self)@, sent(r)) == idle(old(self)@),
    {
        if !self.filter_active && self.awaiting.is_none() {
            self.awaiting = Some(Awaiting::Refresh);
            Some(Request::GetDir { path: self.path.clone(), mode: self.mode })
        } else {
            None
        }
    }
}

/// Moving the selection wraps around: up from the first item selects the
/// last, down from the last selects the first, and in an empty list the
/// selection stays where it was. In a non-empty list every move ends on an
/// item of the list.
pub proof fn selection_wraps_around(sel: Option<usize>, len: nat)
    requires
        len <= usize::MAX,
    ensures
        len > 0 ==> after_up(Some(0), len) == Some((len - 1) as usize),
        len > 0 ==> after_down(Some((len - 1) as usize), len) == Some(0usize),
        len == 0 ==> after_up(sel, len) == sel && after_down(sel, len) == sel,
        len > 0 ==> (after_up(sel, len) matches Some(i) && i < len),
        len > 0 ==> (after_down(sel, len) matches Some(i) && i < len),
{
}

/// Choosing basic or extended information while browsing empties the
/// cache: right after a mode switch every path is a cache miss, and the
/// only request sent lists the current directory in the new mode.
pub proof fn mode_switch_empties_cache(
    v: PaneView,
    other: Seq<char>,
    height: usize,
    path: Seq<char>,
)
    requires
        v.awaiting is None,
        v.interaction == Interaction::Browsing,
        v.selected_menu matches Some(i) && i < 2,
    ensures
        !key_step(v, Key::Enter, other, height).0.cache.contains_key(path),
        key_step(v, Key::Enter, other, height).1 matches Some(
            RequestModel::GetDir { path: p, mode: m },
        ) && p == v.path && m == key_step(v, Key::Enter, other, height).0.mode,
{
}

} // verus!
