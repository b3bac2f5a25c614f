use zeropad::editor::Editor;

#[test]
fn fresh_editor_is_empty() {
    let e = Editor::new();
    assert_eq!(e.text, "");
    assert_eq!(e.path, "");
}

#[test]
fn new_document_clears_everything() {
    let mut e = Editor::new();
    e.text = String::from("some unsaved work");
    e.path = String::from("/home/user/notes.txt");
    e.new_document();
    assert_eq!(e.text, "");
    assert_eq!(e.path, "");
}

#[test]
fn new_document_on_fresh_editor_stays_empty() {
    let mut e = Editor::new();
    e.new_document();
    assert_eq!(e.text, "");
    assert_eq!(e.path, "");
}

#[test]
fn open_with_successful_read_replaces_buffer_and_path() {
    let mut e = Editor::new();
    e.text = String::from("old contents");
    e.open_document(
        String::from("/tmp/a.txt"),
        Ok(String::from("file contents")),
    );
    assert_eq!(e.text, "file contents");
    assert_eq!(e.path, "/tmp/a.txt");
}

#[test]
fn open_with_failed_read_shows_message_and_keeps_path() {
    let mut e = Editor::new();
    e.text = String::from("old contents");
    e.open_document(
        String::from("/tmp/missing.txt"),
        Err(String::from("No such file or directory (os error 2)")),
    );
    assert_eq!(
        e.text,
        "Failed to open file: No such file or directory (os error 2)"
    );
    assert_eq!(e.path, "/tmp/missing.txt");
}

#[test]
fn save_needs_dialog_only_without_path() {
    let mut e = Editor::new();
    assert!(e.save_needs_dialog());
    e.path = String::from("/tmp/a.txt");
    assert!(!e.save_needs_dialog());
}

#[test]
fn cancelled_save_without_path_changes_nothing_and_writes_nowhere() {
    let mut e = Editor::new();
    e.text = String::from("unsaved");
    let target = e.prepare_save(None);
    assert_eq!(target, None);
    assert_eq!(e.text, "unsaved");
    assert_eq!(e.path, "");
}

#[test]
fn confirmed_save_dialog_stores_path_and_targets_it() {
    let mut e = Editor::new();
    e.text = String::from("body");
    let target = e.prepare_save(Some(String::from("/tmp/new.txt")));
    assert_eq!(target, Some(String::from("/tmp/new.txt")));
    assert_eq!(e.path, "/tmp/new.txt");
    assert_eq!(e.text, "body");
}

#[test]
fn save_with_stored_path_targets_it_without_dialog() {
    let mut e = Editor::new();
    e.text = String::from("body");
    e.path = String::from("/tmp/kept.txt");
    let target = e.prepare_save(None);
    assert_eq!(target, Some(String::from("/tmp/kept.txt")));
    assert_eq!(e.path, "/tmp/kept.txt");
    assert_eq!(e.text, "body");
}

#[test]
fn confirmed_dialog_replaces_stored_path() {
    let mut e = Editor::new();
    e.path = String::from("/tmp/old.txt");
    let target = e.prepare_save(Some(String::from("/tmp/new.txt")));
    assert_eq!(target, Some(String::from("/tmp/new.txt")));
    assert_eq!(e.path, "/tmp/new.txt");
}
