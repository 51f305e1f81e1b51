//! The side menu of a pane.

use vstd::prelude::*;
use crate::server::is_last_slash;
use crate::text::{chars_of, find_last, push_char, push_chars};

verus! {

/// The entries of the side menu, in the order shown.
#[derive(Clone, Copy, Debug, PartialEq, Eq, Structural)]
pub enum MenuOption {
    BasicInfo,
    MoreInfo,
    FilterDir,
    NewDir,
    DeleteDir,
    NewFile,
    DeleteFile,
    ViewFile,
    MoveFile,
    RenameFile,
    Exit,
}

/// Number of entries in the menu.
pub const MENU_LEN: usize = 11;

/// The menu entry at position `i`.
pub open spec fn menu_at(i: int) -> MenuOption {
    if i == 0 {
        MenuOption::BasicInfo
    } else if i == 1 {
        MenuOption::MoreInfo
    } else if i == 2 {
        MenuOption::FilterDir
    } else if i == 3 {
        MenuOption::NewDir
    } else if i == 4 {
        MenuOption::DeleteDir
    } else if i == 5 {
        MenuOption::NewFile
    } else if i == 6 {
        MenuOption::DeleteFile
    } else if i == 7 {
        MenuOption::ViewFile
    } else if i == 8 {
        MenuOption::MoveFile
    } else if i == 9 {
        MenuOption::RenameFile
    } else {
        MenuOption::Exit
    }
}

/// The part of `s` after its last `/`; all of `s` when it has none.
pub open spec fn last_segment(s: Seq<char>) -> Seq<char> {
    if exists|i: int| is_last_slash(s, i) {
        let i = choose|i: int| is_last_slash(s, i);
        s.skip(i + 1)
    } else {
        s
    }
}

/// The label shown for each menu entry.
pub open spec fn menu_label(o: MenuOption) -> Seq<char> {
    match o {
        MenuOption::BasicInfo => "Basic information"@,
        MenuOption::MoreInfo => "Extended information"@,
        MenuOption::FilterDir => "Filter entries"@,
        MenuOption::NewDir => "Create directory"@,
        MenuOption::DeleteDir => "Delete directory"@,
        MenuOption::NewFile => "Create file"@,
        MenuOption::DeleteFile => "Delete file"@,
        MenuOption::ViewFile => "View file"@,
        MenuOption::MoveFile => "Move file"@,
        MenuOption::RenameFile => "Rename file"@,
        MenuOption::Exit => "Exit"@,
    }
}

/// The column titles of a listing shown in the mode that `o` selects: the
/// current directory's name after a `/`, then one title per attribute.
/// Entries that select no mode have none.
pub open spec fn visual_titles(o: MenuOption, title: Seq<char>) -> Seq<Seq<char>> {
    let first = seq!['/'] + last_segment(title);
    match o {
        MenuOption::BasicInfo => seq![first, "Last Modified"@],
        MenuOption::MoreInfo => seq![
            first,
            "Last Modified"@,
            "Size"@,
            "Owner"@,
            "Group"@,
            "Permissions"@,
        ],
        _ => seq![],
    }
}

impl MenuOption {
    /// The label shown for this entry.
    pub fn get_string_equivalent(&self) -> (r: String)
        ensures
            r@ == menu_label(*self),
    {
        match self {
            MenuOption::BasicInfo => String::from_str("Basic information"),
            MenuOption::MoreInfo => String::from_str("Extended information"),
            MenuOption::FilterDir => String::from_str("Filter entries"),
            MenuOption::NewDir => String::from_str("Create directory"),
            MenuOption::DeleteDir => String::from_str("Delete directory"),
            MenuOption::NewFile => String::from_str("Create file"),
            MenuOption::DeleteFile => String::from_str("Delete file"),
            MenuOption::ViewFile => String::from_str("View file"),
            MenuOption::MoveFile => String::from_str("Move file"),
            MenuOption::RenameFile => String::from_str("Rename file"),
            MenuOption::Exit => String::from_str("Exit"),
        }
    }

    /// The column titles of a listing in the mode this entry selects, for a
    /// pane whose title is `title`.
    pub fn get_visual_titles(&self, title: String) -> (r: Vec<String>)
        ensures
            r.deep_view() == visual_titles(*self, title@),
    {
        match self {
            MenuOption::BasicInfo | MenuOption::MoreInfo => {},
            _ => {
                let r: Vec<String> = Vec::new();
                assert(r.deep_view() =~= visual_titles(*self, title@));
                return r;
            },
        }
        let v = chars_of(title.as_str());
        let mut first = String::new();
        push_char(&mut first, '/');
        match find_last(&v, '/', 0, v.len()) {
            Some(i) => {
                push_chars(&mut first, &v, i + 1, v.len());
                assert forall|j: int| is_last_slash(title@, j) implies j == i by {
                    if j < i {
                        assert(title@[i as int] == '/');
                    } else if j > i {
                        assert(title@[j] == '/');
                    }
                }
                assert(is_last_slash(title@, i as int));
                assert(first@ =~= seq!['/'] + last_segment(title@));
            },
            None => {
                push_chars(&mut first, &v, 0, v.len());
                assert forall|j: int| !is_last_slash(title@, j) by {
                    if 0 <= j < title@.len() {
                        assert(v@[j] != '/');
                    }
                }
                assert(first@ =~= seq!['/'] + last_segment(title@));
            },
        }
        let mut r: Vec<String> = Vec::new();
        r.push(first);
        r.push(String::from_str("Last Modified"));
        if let MenuOption::MoreInfo = self {
            r.push(String::from_str("Size"));
            r.push(String::from_str("Owner"));
            r.push(String::from_str("Group"));
            r.push(String::from_str("Permissions"));
        }
        assert(r.deep_view() =~= visual_titles(*self, title@));
        r
    }

    /// Every menu entry, in the order shown.
    pub fn all() -> (r: Vec<MenuOption>)
        ensures
            r@.len() == MENU_LEN,
            forall|i: int| 0 <= i < MENU_LEN ==> r@[i] == menu_at(i),
    {
        vec![
            MenuOption::BasicInfo,
            MenuOption::MoreInfo,
            MenuOption::FilterDir,
            MenuOption::NewDir,
            MenuOption::DeleteDir,
            MenuOption::NewFile,
            MenuOption::DeleteFile,
            MenuOption::ViewFile,
            MenuOption::MoveFile,
            MenuOption::RenameFile,
            MenuOption::Exit,
        ]
    }

    /// The entry at position `i` of the menu.
    pub fn at(i: usize) -> (r: MenuOption)
        requires
            i < MENU_LEN,
        ensures
            r == menu_at(i as int),
    {
        if i == 0 {
            MenuOption::BasicInfo
        } else if i == 1 {
            MenuOption::MoreInfo
        } else if i == 2 {
            MenuOption::FilterDir
        } else if i == 3 {
            MenuOption::NewDir
        } else if i == 4 {
            MenuOption::DeleteDir
        } else if i == 5 {
            MenuOption::NewFile
        } else if i == 6 {
            MenuOption::DeleteFile
        } else if i == 7 {
            MenuOption::ViewFile
        } else if i == 8 {
            MenuOption::MoveFile
        } else if i == 9 {
            MenuOption::RenameFile
        } else {
            MenuOption::Exit
        }
    }
}

} // verus!
