use twinpane::listing::AttributeMode;
use twinpane::menu::{MenuOption, MENU_LEN};
use twinpane::pane::{key_down, key_up, Interaction, Key, PaneSession};
use twinpane::panes::DualPane;
use twinpane::protocol::{encode_request, Request};
use twinpane::server::FileReply;

fn rows(names: &[&str]) -> Vec<Vec<String>> {
    names.iter().map(|n| vec![n.to_string(), "01/01/2024 10:00".to_string()]).collect()
}

fn pane(path: &str, names: &[&str]) -> PaneSession {
    PaneSession::new(path.to_string(), rows(names))
}

fn text(req: Option<Request>) -> String {
    encode_request(&req.expect("a request"))
}

fn other() -> String {
    "/other".to_string()
}

#[test]
fn up_from_top_wraps_to_bottom() {
    let mut s = Some(0);
    key_up(&mut s, 4);
    assert_eq!(s, Some(3));
    key_up(&mut s, 4);
    assert_eq!(s, Some(2));
}

#[test]
fn down_from_bottom_wraps_to_top() {
    let mut s = Some(3);
    key_down(&mut s, 4);
    assert_eq!(s, Some(0));
    key_down(&mut s, 4);
    assert_eq!(s, Some(1));
}

#[test]
fn moves_in_empty_list_do_nothing() {
    let mut s = Some(0);
    key_up(&mut s, 0);
    assert_eq!(s, Some(0));
    key_down(&mut s, 0);
    assert_eq!(s, Some(0));
}

#[test]
fn pane_selection_wraps_in_listing_and_menu() {
    let mut p = pane("/tmp", &["a", "b", "c"]);
    p.handle_key(Key::Up, &other(), 10);
    assert_eq!(p.selected_row, Some(2));
    p.handle_key(Key::Down, &other(), 10);
    assert_eq!(p.selected_row, Some(0));
    p.handle_key(Key::Char('f'), &other(), 10);
    assert_eq!(p.selected_row, None);
    assert_eq!(p.selected_menu, Some(0));
    p.handle_key(Key::Up, &other(), 10);
    assert_eq!(p.selected_menu, Some(MENU_LEN - 1));
}

#[test]
fn mode_switch_empties_the_cache() {
    let mut p = pane("/tmp", &["/sub", "a"]);
    assert!(p.cache.contains(&"/tmp".to_string()));
    p.handle_key(Key::Char('f'), &other(), 10);
    p.handle_key(Key::Down, &other(), 10);
    let req = p.handle_key(Key::Enter, &other(), 10);
    assert_eq!(text(req), "GetDir /tmp|1");
    assert_eq!(p.mode, AttributeMode::Extended);
    assert_eq!(p.chosen, MenuOption::MoreInfo);
    assert!(!p.cache.contains(&"/tmp".to_string()));
    p.receive_listing(r#"[["/sub","d","0","root","root","rwxr-xr-x"]]"#);
    assert_eq!(p.entries.len(), 1);
    assert_eq!(p.entries[0].len(), 6);
    assert!(p.cache.contains(&"/tmp".to_string()));
}

#[test]
fn entering_a_directory_fetches_then_caches() {
    let mut p = pane("/tmp", &["/sub", "a"]);
    let req = p.handle_key(Key::Right, &other(), 10);
    assert_eq!(text(req), "GetDir /tmp/sub|0");
    assert_eq!(p.path, "/tmp");
    assert!(p.handle_key(Key::Down, &other(), 10).is_none());
    p.receive_listing(r#"[["x","01/01/2024 10:00"]]"#);
    assert_eq!(p.path, "/tmp/sub");
    assert_eq!(p.entries, rows(&["x"]));
    assert!(!p.cached);
    assert!(p.handle_key(Key::Left, &other(), 10).is_none());
    assert_eq!(p.path, "/tmp");
    assert!(p.cached);
    assert!(p.handle_key(Key::Right, &other(), 10).is_none());
    assert_eq!(p.path, "/tmp/sub");
    assert!(p.cached);
}

#[test]
fn entering_a_file_does_nothing() {
    let mut p = pane("/tmp", &["/sub", "a"]);
    p.handle_key(Key::Down, &other(), 10);
    assert!(p.handle_key(Key::Right, &other(), 10).is_none());
    assert_eq!(p.path, "/tmp");
}

#[test]
fn unreadable_listing_leaves_the_pane() {
    let mut p = pane("/tmp", &["/sub"]);
    p.handle_key(Key::Right, &other(), 10);
    p.receive_listing("not json");
    assert_eq!(p.path, "/tmp");
    assert_eq!(p.entries, rows(&["/sub"]));
    assert!(p.awaiting.is_none());
}

#[test]
fn ascending_from_top_level_directory_goes_to_root() {
    let mut p = pane("/tmp", &[]);
    let req = p.handle_key(Key::Left, &other(), 10);
    assert_eq!(text(req), "GetDir /|0");
}

fn pick_menu(p: &mut PaneSession, index: usize) {
    p.handle_key(Key::Char('f'), &other(), 10);
    for _ in 0..index {
        p.handle_key(Key::Down, &other(), 10);
    }
    p.handle_key(Key::Enter, &other(), 10);
}

fn type_text(p: &mut PaneSession, t: &str) {
    for c in t.chars() {
        p.handle_key(Key::Char(c), &other(), 10);
    }
}

#[test]
fn empty_input_is_refused_locally() {
    let mut p = pane("/tmp", &["a"]);
    pick_menu(&mut p, 3);
    assert_eq!(p.interaction, Interaction::AwaitingInput);
    assert!(p.handle_key(Key::Enter, &other(), 10).is_none());
    assert!(p.wrong_input);
    type_text(&mut p, "x");
    assert!(!p.wrong_input);
}

#[test]
fn creating_a_directory_lists_again_on_success() {
    let mut p = pane("/tmp", &["a"]);
    pick_menu(&mut p, 3);
    type_text(&mut p, "newdir");
    let req = p.handle_key(Key::Enter, &other(), 10);
    assert_eq!(text(req), "CreateDir /tmp/newdir");
    let again = p.receive_status("Ok");
    assert_eq!(text(again), "GetDir /tmp|0");
    assert!(!p.cache.contains(&"/tmp".to_string()));
    p.receive_listing(r#"[["/newdir","01/01/2024 10:00"],["a","01/01/2024 10:00"]]"#);
    assert_eq!(p.interaction, Interaction::Browsing);
    assert_eq!(p.entries.len(), 2);
    assert_eq!(p.input, "");
    assert!(p.cache.contains(&"/tmp".to_string()));
}

#[test]
fn failed_change_marks_the_input() {
    let mut p = pane("/tmp", &["a"]);
    pick_menu(&mut p, 6);
    type_text(&mut p, "a");
    assert_eq!(text(p.handle_key(Key::Enter, &other(), 10)), "RemoveFile /tmp/a");
    assert!(p.receive_status("Error").is_none());
    assert!(p.wrong_input);
    assert_eq!(p.interaction, Interaction::AwaitingInput);
}

#[test]
fn rename_needs_both_fields() {
    let mut p = pane("/tmp", &["a.txt"]);
    pick_menu(&mut p, 9);
    type_text(&mut p, "a.txt");
    assert!(p.handle_key(Key::Enter, &other(), 10).is_none());
    assert!(p.wrong_input);
    p.handle_key(Key::Tab, &other(), 10);
    type_text(&mut p, "b.tx");
    p.handle_key(Key::Backspace, &other(), 10);
    type_text(&mut p, "xt");
    assert_eq!(p.input_rename, "b.txt");
    assert_eq!(text(p.handle_key(Key::Enter, &other(), 10)), "RenameFile /tmp/a.txt|b.txt");
}

#[test]
fn filter_applies_to_cached_listing() {
    let mut p = pane("/tmp", &["alpha.txt", "beta.md", "ALPHA.md"]);
    pick_menu(&mut p, 2);
    type_text(&mut p, "alpha");
    assert!(p.handle_key(Key::Enter, &other(), 10).is_none());
    assert!(p.filter_active);
    assert_eq!(p.interaction, Interaction::Browsing);
    assert_eq!(p.entries, rows(&["alpha.txt", "ALPHA.md"]));
    assert!(p.on_idle().is_none());
    assert!(p.handle_key(Key::Esc, &other(), 10).is_none());
    assert!(!p.filter_active);
    assert_eq!(p.entries.len(), 3);
    assert!(!p.terminate);
    p.handle_key(Key::Esc, &other(), 10);
    assert!(p.terminate);
}

#[test]
fn viewing_then_editing_then_saving() {
    let mut p = pane("/tmp", &["a.txt"]);
    pick_menu(&mut p, 7);
    type_text(&mut p, "a.txt");
    assert_eq!(text(p.handle_key(Key::Enter, &other(), 10)), "GetFile /tmp/a.txt");
    p.apply_file(Some(FileReply { success: true, message: "one\ntwo\nthree".to_string() }));
    assert_eq!(p.interaction, Interaction::ViewingFile);
    assert_eq!(p.file_lines, 3);
    p.handle_key(Key::Down, &other(), 2);
    assert_eq!(p.scroll, 1);
    p.handle_key(Key::Down, &other(), 2);
    assert_eq!(p.scroll, 1);
    p.handle_key(Key::Up, &other(), 2);
    p.handle_key(Key::Up, &other(), 2);
    assert_eq!(p.scroll, 0);
    p.handle_key(Key::Char('i'), &other(), 2);
    assert_eq!(p.interaction, Interaction::EditingFile);
    assert_eq!(p.editor_lines(), vec!["one".to_string(), "two".to_string(), "three".to_string()]);
    p.handle_key(Key::Char('X'), &other(), 2);
    p.handle_key(Key::Enter, &other(), 2);
    let req = p.handle_key(Key::Save, &other(), 2);
    assert_eq!(text(req), "SaveFile /tmp/a.txt;X\none\ntwo\nthree");
    assert_eq!(p.interaction, Interaction::Browsing);
    assert_eq!(p.file_content, "");
}

#[test]
fn failed_file_read_marks_the_input() {
    let mut p = pane("/tmp", &["a.txt"]);
    pick_menu(&mut p, 7);
    type_text(&mut p, "zz");
    p.handle_key(Key::Enter, &other(), 10);
    p.apply_file(Some(FileReply { success: false, message: "Unable to open file.".to_string() }));
    assert!(p.wrong_input);
    assert_eq!(p.interaction, Interaction::AwaitingInput);
}

#[test]
fn idle_refresh_updates_cached_listing() {
    let mut p = pane("/tmp", &["a"]);
    assert_eq!(text(p.on_idle()), "GetDir /tmp|0");
    assert!(p.on_idle().is_none());
    p.receive_listing(r#"[["a","x"],["b","y"]]"#);
    assert_eq!(p.entries.len(), 2);
    assert_eq!(p.cache.get(&"/tmp".to_string()).unwrap().len(), 2);
}

#[test]
fn sides_swap_and_move_targets_the_other_side() {
    let mut d = DualPane::new(pane("/left", &["a.txt"]), pane("/right", &[]));
    assert!(d.handle_key(Key::Char('x'), 10).is_none());
    assert_eq!(d.active, 1);
    assert!(d.handle_key(Key::Char('x'), 10).is_none());
    assert_eq!(d.active, 0);
    d.handle_key(Key::Char('f'), 10);
    for _ in 0..8 {
        d.handle_key(Key::Down, 10);
    }
    d.handle_key(Key::Enter, 10);
    assert_eq!(d.left.chosen, MenuOption::MoveFile);
    for c in "a.txt".chars() {
        d.handle_key(Key::Char(c), 10);
    }
    assert_eq!(d.left.input, "a.txt");
    let req = d.handle_key(Key::Enter, 10);
    assert_eq!(text(req), "MoveFile /left/a.txt|/right");
    assert_eq!(text(d.receive_status("Ok")), "GetDir /left|0");
    d.receive_listing("[]");
    assert!(d.left.entries.is_empty());
    assert_eq!(d.right.path, "/right");
    assert!(!d.terminated());
}

#[test]
fn menu_labels_and_titles() {
    assert_eq!(MenuOption::all().len(), MENU_LEN);
    assert_eq!(MenuOption::RenameFile.get_string_equivalent(), "Rename file");
    assert_eq!(MenuOption::all()[0].get_string_equivalent(), "Basic information");
    assert_eq!(
        MenuOption::BasicInfo.get_visual_titles("/home/user (Cached)".to_string()),
        vec!["/user (Cached)".to_string(), "Last Modified".to_string()]
    );
    assert_eq!(MenuOption::MoreInfo.get_visual_titles("/tmp".to_string()).len(), 6);
    assert!(MenuOption::Exit.get_visual_titles("/tmp".to_string()).is_empty());
}

#[test]
fn editing_moves_the_cursor_and_joins_lines() {
    let mut p = pane("/tmp", &["f"]);
    pick_menu(&mut p, 7);
    type_text(&mut p, "f");
    p.handle_key(Key::Enter, &other(), 10);
    p.apply_file(Some(FileReply { success: true, message: "ab\ncd".to_string() }));
    p.handle_key(Key::Char('i'), &other(), 10);
    assert_eq!(p.editor_cursor(), (0, 0));
    p.handle_key(Key::Right, &other(), 10);
    p.handle_key(Key::Right, &other(), 10);
    assert_eq!(p.editor_cursor(), (0, 2));
    p.handle_key(Key::Right, &other(), 10);
    assert_eq!(p.editor_cursor(), (1, 0));
    p.handle_key(Key::Backspace, &other(), 10);
    assert_eq!(p.editor_lines(), vec!["abcd".to_string()]);
    assert_eq!(p.editor_cursor(), (0, 2));
    p.handle_key(Key::Up, &other(), 10);
    assert_eq!(p.editor_cursor(), (0, 2));
    p.handle_key(Key::Left, &other(), 10);
    p.handle_key(Key::Backspace, &other(), 10);
    assert_eq!(p.editor_lines(), vec!["bcd".to_string()]);
    assert_eq!(text(p.handle_key(Key::Save, &other(), 10)), "SaveFile /tmp/f;bcd");
    assert_eq!(p.editor_lines(), vec![String::new()]);
}

#[test]
fn leaving_the_editor_discards_changes() {
    let mut p = pane("/tmp", &["f"]);
    pick_menu(&mut p, 7);
    type_text(&mut p, "f");
    p.handle_key(Key::Enter, &other(), 10);
    p.apply_file(Some(FileReply { success: true, message: "x".to_string() }));
    p.handle_key(Key::Char('i'), &other(), 10);
    p.handle_key(Key::Char('y'), &other(), 10);
    assert_eq!(p.editor_lines(), vec!["yx".to_string()]);
    assert!(p.handle_key(Key::Esc, &other(), 10).is_none());
    assert_eq!(p.interaction, Interaction::Browsing);
    assert_eq!(p.editor_lines(), vec![String::new()]);
    assert_eq!(p.input, "");
}
