use editor::document::Document;
use editor::manager::DocumentManager;
use iced::widget::text_editor::{Action, Edit, Motion};
use std::sync::Arc;

fn insert(character: char) -> Action {
    Action::Edit(Edit::Insert(character))
}

#[test]
fn new_document_is_empty_idle_and_clean() {
    let document = Document::new();
    assert!(document.path.is_none());
    assert!(!document.is_loading);
    assert!(!document.is_dirty);
    assert_eq!(document.text(), "\n");
    assert_eq!(document.cursor_position(), (0, 0));
    assert_eq!(document.label(), "New");
    assert_eq!(document.status(), "New file");
}

#[test]
fn edit_changes_the_text_and_dirties() {
    let mut document = Document::new();
    assert!(document.apply_edit(insert('h')).is_none());
    assert!(document.apply_edit(insert('i')).is_none());
    assert!(document.is_dirty);
    assert!(!document.is_loading);
    assert!(document.path.is_none());
    assert_eq!(document.text(), "hi\n");
    assert_eq!(document.cursor_position(), (0, 2));
}

#[test]
fn every_kind_of_edit_is_carried_out() {
    let mut document = Document::new();
    assert!(document
        .apply_edit(Action::Edit(Edit::Paste(Arc::new(String::from("one\ntwo")))))
        .is_none());
    assert_eq!(document.text(), "one\ntwo\n");
    assert_eq!(document.cursor_position(), (1, 3));
    assert!(document.apply_edit(Action::Edit(Edit::Enter)).is_none());
    assert!(document.apply_edit(insert('!')).is_none());
    assert_eq!(document.text(), "one\ntwo\n!\n");
    assert_eq!(document.cursor_position(), (2, 1));
    assert!(document.apply_edit(Action::Edit(Edit::Backspace)).is_none());
    assert!(document.apply_edit(Action::Edit(Edit::Backspace)).is_none());
    assert_eq!(document.text(), "one\ntwo\n");
    assert_eq!(document.cursor_position(), (1, 3));
    assert!(document.apply_edit(Action::Edit(Edit::Backspace)).is_none());
    assert_eq!(document.text(), "one\ntw\n");
    assert!(document.apply_edit(Action::Edit(Edit::Delete)).is_none());
    assert_eq!(document.text(), "one\ntw\n");
    assert!(document.is_dirty);
}

#[test]
fn edit_that_changes_nothing_still_dirties() {
    let mut document = Document::new();
    assert!(document.apply_edit(Action::Edit(Edit::Backspace)).is_none());
    assert_eq!(document.text(), "\n");
    assert!(document.is_dirty);
}

#[test]
fn other_actions_are_handed_back_and_change_nothing() {
    let mut document = Document::new();
    document.complete_load(String::from("/tmp/a"), "one\ntwo\n");
    let actions = vec![
        Action::Move(Motion::Left),
        Action::Move(Motion::Down),
        Action::Move(Motion::End),
        Action::Select(Motion::Up),
        Action::SelectWord,
        Action::SelectLine,
        Action::Click(iced::Point::new(3.0, 4.0)),
        Action::Drag(iced::Point::new(3.0, 4.0)),
        Action::Scroll { lines: 2 },
    ];
    for action in actions {
        let handed_back = document.apply_edit(action.clone());
        assert_eq!(handed_back, Some(action));
        assert!(!document.is_dirty);
        assert!(!document.is_loading);
        assert_eq!(document.text(), "one\ntwo\n");
        assert_eq!(document.cursor_position(), (0, 0));
        assert_eq!(document.path.as_deref(), Some("/tmp/a"));
    }
}

#[test]
fn actions_are_dropped_while_loading() {
    let mut document = Document::new();
    document.begin_load();
    assert!(document.apply_edit(insert('x')).is_none());
    assert!(document.apply_edit(Action::Move(Motion::Right)).is_none());
    assert!(document.is_loading);
    assert!(!document.is_dirty);
    assert_eq!(document.text(), "\n");
}

#[test]
fn begin_load_and_begin_save_only_mark_busy() {
    let mut document = Document::new();
    let _ = document.apply_edit(insert('x'));
    document.begin_load();
    assert!(document.is_loading);
    assert!(document.is_dirty);
    assert_eq!(document.text(), "x\n");
    document.complete_load_failure();
    document.begin_save();
    assert!(document.is_loading);
    assert!(document.is_dirty);
    assert!(document.path.is_none());
    assert_eq!(document.text(), "x\n");
}

#[test]
fn complete_load_replaces_text_and_path() {
    let mut document = Document::new();
    let _ = document.apply_edit(insert('x'));
    document.begin_load();
    document.complete_load(String::from("/tmp/notes.txt"), "first\nsecond\n");
    assert_eq!(document.path.as_deref(), Some("/tmp/notes.txt"));
    assert_eq!(document.text(), "first\nsecond\n");
    assert!(!document.is_dirty);
    assert!(!document.is_loading);
    assert_eq!(document.label(), "/tmp/notes.txt");
}

#[test]
fn loaded_text_is_held_line_by_line() {
    let mut document = Document::new();
    document.complete_load(String::from("/tmp/a"), "no newline at the end");
    assert_eq!(document.text(), "no newline at the end\n");
    document.complete_load(String::from("/tmp/a"), "two\nlines");
    assert_eq!(document.text(), "two\nlines\n");
    document.complete_load(String::from("/tmp/a"), "");
    assert_eq!(document.text(), "\n");
}

#[test]
fn complete_load_failure_keeps_everything_but_busy() {
    let mut document = Document::new();
    document.complete_load(String::from("/tmp/a"), "abc\n");
    let _ = document.apply_edit(insert('x'));
    document.begin_load();
    document.complete_load_failure();
    assert!(!document.is_loading);
    assert!(document.is_dirty);
    assert_eq!(document.path.as_deref(), Some("/tmp/a"));
    assert_eq!(document.text(), "xabc\n");
}

#[test]
fn complete_save_sets_path_and_cleans() {
    let mut document = Document::new();
    let _ = document.apply_edit(insert('x'));
    document.begin_save();
    document.complete_save(String::from("/tmp/out.txt"));
    assert_eq!(document.path.as_deref(), Some("/tmp/out.txt"));
    assert!(!document.is_dirty);
    assert!(!document.is_loading);
    assert_eq!(document.text(), "x\n");
    assert_eq!(document.cursor_position(), (0, 1));
}

#[test]
fn complete_save_failure_leaves_the_document_dirty() {
    let mut document = Document::new();
    let _ = document.apply_edit(insert('x'));
    document.begin_save();
    document.complete_save_failure();
    assert!(!document.is_loading);
    assert!(document.is_dirty);
    assert!(document.path.is_none());
    assert_eq!(document.text(), "x\n");
}

#[test]
fn reset_new_forgets_path_text_and_edits() {
    let mut document = Document::new();
    document.complete_load(String::from("/tmp/a"), "abc\n");
    let _ = document.apply_edit(insert('x'));
    document.reset_new();
    assert!(document.path.is_none());
    assert!(!document.is_dirty);
    assert!(!document.is_loading);
    assert_eq!(document.text(), "\n");
    assert_eq!(document.cursor_position(), (0, 0));
}

#[test]
fn status_shows_short_paths_whole() {
    let mut document = Document::new();
    let sixty = "/".repeat(60);
    document.complete_load(sixty.clone(), "");
    assert!(document.has_status());
    assert_eq!(document.status(), sixty);
}

#[test]
fn status_cuts_long_paths_to_their_last_forty_bytes() {
    let mut document = Document::new();
    let path = format!("/home/someone/{}src/main.rs", "deep/".repeat(12));
    assert_eq!(path.len(), 85);
    document.complete_load(path.clone(), "");
    assert!(document.has_status());
    let status = document.status();
    assert_eq!(status, "...eep/deep/deep/deep/deep/deep/src/main.rs");
    assert_eq!(status.len(), 43);
    assert_eq!(&status[3..], &path[45..]);
}

#[test]
fn status_counts_bytes_not_characters() {
    let mut document = Document::new();
    let path = "é".repeat(31);
    assert_eq!(path.len(), 62);
    document.complete_load(path, "");
    assert!(document.has_status());
    assert_eq!(document.status(), format!("...{}", "é".repeat(20)));
}

#[test]
fn status_is_refused_where_the_cut_splits_a_character() {
    let mut document = Document::new();
    let path = format!("{}a", "é".repeat(31));
    assert_eq!(path.len(), 63);
    document.complete_load(path, "");
    assert!(!document.has_status());
}

#[test]
fn new_manager_has_one_empty_document() {
    let manager = DocumentManager::new();
    assert_eq!(manager.len(), 1);
    assert_eq!(manager.active_index(), 0);
    assert!(manager.active().path.is_none());
    assert!(!manager.active().is_loading);
    assert!(!manager.active().is_dirty);
    assert_eq!(manager.active().text(), "\n");
    assert!(manager.get(0).is_some());
    assert!(manager.get(1).is_none());
}

fn manager_with(paths: &[&str]) -> DocumentManager {
    let mut manager = DocumentManager::new();
    for (index, path) in paths.iter().enumerate() {
        if index > 0 {
            manager.open_new_tab();
        }
        manager
            .active_mut()
            .complete_load(String::from(*path), &format!("text of {}\n", path));
    }
    manager
}

#[test]
fn select_switches_tabs_and_ignores_missing_ones() {
    let mut manager = manager_with(&["a", "b", "c"]);
    assert_eq!(manager.active_index(), 2);
    manager.select(0);
    assert_eq!(manager.active_index(), 0);
    assert_eq!(manager.active().text(), "text of a\n");
    manager.select(3);
    assert_eq!(manager.active_index(), 0);
    manager.select(usize::MAX);
    assert_eq!(manager.active_index(), 0);
    manager.select(2);
    assert_eq!(manager.active_index(), 2);
    assert_eq!(manager.len(), 3);
}

#[test]
fn open_new_tab_appends_and_activates() {
    let mut manager = manager_with(&["a", "b"]);
    manager.select(0);
    manager.open_new_tab();
    assert_eq!(manager.len(), 3);
    assert_eq!(manager.active_index(), 2);
    assert_eq!(manager.labels(), vec!["a", "b", "New"]);
    assert_eq!(manager.active().text(), "\n");
    assert!(!manager.active().is_loading);
    assert!(!manager.active().is_dirty);
}

#[test]
fn closing_a_tab_before_the_active_one_keeps_the_index() {
    let mut manager = manager_with(&["a", "b", "c"]);
    manager.select(1);
    assert!(manager.close_tab(0));
    assert_eq!(manager.labels(), vec!["b", "c"]);
    assert_eq!(manager.active_index(), 1);
    assert_eq!(manager.active().text(), "text of c\n");
}

#[test]
fn closing_the_last_tab_while_active_moves_to_the_new_last() {
    let mut manager = manager_with(&["a", "b", "c"]);
    assert_eq!(manager.active_index(), 2);
    assert!(manager.close_tab(2));
    assert_eq!(manager.labels(), vec!["a", "b"]);
    assert_eq!(manager.active_index(), 1);
}

#[test]
fn closing_a_tab_behind_the_active_one_changes_no_index() {
    let mut manager = manager_with(&["a", "b", "c"]);
    manager.select(0);
    assert!(manager.close_tab(1));
    assert_eq!(manager.labels(), vec!["a", "c"]);
    assert_eq!(manager.active_index(), 0);
}

#[test]
fn closing_the_active_middle_tab_activates_its_successor() {
    let mut manager = manager_with(&["a", "b", "c"]);
    manager.select(1);
    assert!(manager.close_tab(1));
    assert_eq!(manager.labels(), vec!["a", "c"]);
    assert_eq!(manager.active_index(), 1);
    assert_eq!(manager.active().text(), "text of c\n");
}

#[test]
fn close_refuses_a_missing_tab_and_the_only_tab() {
    let mut manager = manager_with(&["a", "b"]);
    assert!(!manager.can_close(2));
    assert!(!manager.close_tab(2));
    assert_eq!(manager.len(), 2);
    assert!(manager.close_tab(0));
    assert!(!manager.can_close(0));
    assert!(!manager.close_tab(0));
    assert_eq!(manager.len(), 1);
    assert_eq!(manager.active_index(), 0);
    assert_eq!(manager.labels(), vec!["b"]);
}

#[test]
fn close_refuses_a_busy_tab_and_the_tabs_before_it() {
    let mut manager = manager_with(&["a", "b", "c"]);
    manager.document_mut(1).begin_save();
    assert!(!manager.can_close(0));
    assert!(!manager.can_close(1));
    assert!(manager.can_close(2));
    assert!(!manager.close_tab(0));
    assert!(!manager.close_tab(1));
    assert_eq!(manager.labels(), vec!["a", "b", "c"]);
    assert!(manager.close_tab(2));
    assert_eq!(manager.labels(), vec!["a", "b"]);
    assert!(manager.get(1).unwrap().is_loading);
    manager.document_mut(1).complete_save(String::from("b"));
    assert!(manager.can_close(0));
    assert!(manager.can_close(1));
}

#[test]
fn labels_name_each_tab() {
    let mut manager = manager_with(&["/tmp/a.rs", "/tmp/b.rs"]);
    manager.open_new_tab();
    assert_eq!(manager.label_for(0), "/tmp/a.rs");
    assert_eq!(manager.label_for(1), "/tmp/b.rs");
    assert_eq!(manager.label_for(2), "New");
    assert_eq!(manager.labels(), vec!["/tmp/a.rs", "/tmp/b.rs", "New"]);
}

#[test]
fn active_mut_changes_the_active_document_only() {
    let mut manager = manager_with(&["a", "b"]);
    manager.select(0);
    let _ = manager.active_mut().apply_edit(insert('x'));
    assert!(manager.get(0).unwrap().is_dirty);
    assert_eq!(manager.get(0).unwrap().text(), "xtext of a\n");
    assert!(!manager.get(1).unwrap().is_dirty);
    assert_eq!(manager.get(1).unwrap().text(), "text of b\n");
}
