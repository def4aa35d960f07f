use person_registry::keys::{keystroke, printable};
use person_registry::text_input::apply_key;
use person_registry::{ActiveTab, FocusField, Keystroke, Registration};

fn type_all(registration: &mut Registration, keys: &[&str]) {
    for key in keys {
        registration.handle_text_input(key);
    }
}

#[test]
fn backspace_on_empty_buffer_leaves_it_empty() {
    let mut buffer = String::new();
    let stroke = apply_key(&mut buffer, "backspace");
    assert_eq!(stroke, Keystroke::Backspace);
    assert_eq!(buffer, "");
}

#[test]
fn backspace_removes_exactly_the_last_character() {
    let mut buffer = String::from("abc");
    apply_key(&mut buffer, "backspace");
    assert_eq!(buffer, "ab");
    apply_key(&mut buffer, "backspace");
    apply_key(&mut buffer, "backspace");
    assert_eq!(buffer, "");
    apply_key(&mut buffer, "backspace");
    assert_eq!(buffer, "");
}

#[test]
fn backspace_removes_a_whole_character_of_several_bytes() {
    let mut buffer = String::from("né");
    apply_key(&mut buffer, "backspace");
    assert_eq!(buffer, "n");
}

#[test]
fn typed_characters_are_undone_by_as_many_backspaces() {
    let mut buffer = String::from("face");
    for key in ["_", "d", "b", "1"] {
        apply_key(&mut buffer, key);
    }
    assert_eq!(buffer, "face_db1");
    for _ in 0..4 {
        apply_key(&mut buffer, "backspace");
    }
    assert_eq!(buffer, "face");
}

#[test]
fn space_appends_a_literal_space() {
    let mut buffer = String::from("Ada");
    assert_eq!(apply_key(&mut buffer, "space"), Keystroke::Space);
    assert_eq!(buffer, "Ada ");
    assert_eq!(apply_key(&mut buffer, " "), Keystroke::Character(' '));
    assert_eq!(buffer, "Ada  ");
}

#[test]
fn enter_leaves_the_buffer_alone() {
    let mut buffer = String::from("Ada");
    assert_eq!(apply_key(&mut buffer, "enter"), Keystroke::Enter);
    assert_eq!(buffer, "Ada");
}

#[test]
fn named_keys_are_read_before_characters() {
    assert_eq!(keystroke("backspace"), Keystroke::Backspace);
    assert_eq!(keystroke("space"), Keystroke::Space);
    assert_eq!(keystroke("enter"), Keystroke::Enter);
    assert_eq!(keystroke("a"), Keystroke::Character('a'));
    assert_eq!(keystroke("Z"), Keystroke::Character('Z'));
    assert_eq!(keystroke("0"), Keystroke::Character('0'));
    assert_eq!(keystroke(" "), Keystroke::Character(' '));
    assert_eq!(keystroke("~"), Keystroke::Character('~'));
}

#[test]
fn keys_of_several_characters_are_dropped() {
    for key in ["tab", "escape", "shift", "left", "f1", "ab", "", "Enter", "BACKSPACE"] {
        assert_eq!(keystroke(key), Keystroke::Ignored, "{:?}", key);
        let mut buffer = String::from("x");
        apply_key(&mut buffer, key);
        assert_eq!(buffer, "x", "{:?}", key);
    }
}

#[test]
fn single_characters_that_are_not_printable_are_dropped() {
    for key in ["\u{7}", "\n", "\t", "\u{1b}", "\u{7f}", "é", "ü", "日"] {
        assert_eq!(keystroke(key), Keystroke::Ignored, "{:?}", key);
        let mut buffer = String::from("x");
        apply_key(&mut buffer, key);
        assert_eq!(buffer, "x", "{:?}", key);
    }
}

#[test]
fn printable_is_the_range_from_space_to_tilde() {
    assert!(printable(' '));
    assert!(printable('~'));
    assert!(printable('a'));
    assert!(!printable('\u{1f}'));
    assert!(!printable('\u{7f}'));
    assert!(!printable('é'));
}

#[test]
fn without_focus_a_key_changes_nothing() {
    let mut registration = Registration::new();
    assert_eq!(registration.focused_field(), FocusField::Unfocused);
    type_all(&mut registration, &["a", "backspace", "space", "enter"]);
    assert_eq!(registration.db_name(), "face_identity_db");
    assert_eq!(registration.db_password(), "");
    assert_eq!(registration.draft().full_name, "");
    assert_eq!(registration.focused_field(), FocusField::Unfocused);
}

#[test]
fn keys_go_to_the_database_name_when_it_has_the_focus() {
    let mut registration = Registration::new();
    registration.focus(FocusField::DbName);
    type_all(&mut registration, &["backspace", "backspace", "x", "space", "1"]);
    assert_eq!(registration.db_name(), "face_identity_x 1");
    assert_eq!(registration.db_password(), "");
    assert_eq!(registration.draft().full_name, "");
    assert_eq!(registration.focused_field(), FocusField::DbName);
}

#[test]
fn keys_go_to_the_password_when_it_has_the_focus() {
    let mut registration = Registration::new();
    registration.focus(FocusField::DbPassword);
    type_all(&mut registration, &["s", "e", "c", "r", "e", "t", "t", "backspace"]);
    assert_eq!(registration.db_password(), "secret");
    assert_eq!(registration.db_name(), "face_identity_db");
    assert_eq!(registration.draft().full_name, "");
}

#[test]
fn keys_go_to_the_name_of_the_draft_when_it_has_the_focus() {
    let mut registration = Registration::new();
    registration.set_tab(ActiveTab::Manage);
    assert_eq!(registration.focused_field(), FocusField::PersonName);
    type_all(&mut registration, &["A", "d", "a", "space", "L", "tab", "shift"]);
    assert_eq!(registration.draft().full_name, "Ada L");
    assert_eq!(registration.db_name(), "face_identity_db");
    assert_eq!(registration.db_password(), "");
}

#[test]
fn enter_gives_the_focus_up_and_keeps_the_text() {
    let mut registration = Registration::new();
    registration.focus(FocusField::DbPassword);
    type_all(&mut registration, &["p", "w", "enter"]);
    assert_eq!(registration.focused_field(), FocusField::Unfocused);
    assert_eq!(registration.db_password(), "pw");
    type_all(&mut registration, &["x"]);
    assert_eq!(registration.db_password(), "pw");
}

#[test]
fn a_run_of_characters_and_as_many_backspaces_restores_the_state() {
    for field in [FocusField::DbName, FocusField::DbPassword, FocusField::PersonName] {
        let mut registration = Registration::new();
        registration.focus(field);
        type_all(&mut registration, &["q", " ", "7", "~", "A"]);
        type_all(&mut registration, &["backspace"; 5]);
        assert_eq!(registration.db_name(), "face_identity_db");
        assert_eq!(registration.db_password(), "");
        assert_eq!(registration.draft().full_name, "");
        assert_eq!(registration.focused_field(), field);
    }
}

#[test]
fn a_click_on_a_field_gives_it_the_focus_and_keeps_the_tab() {
    let mut registration = Registration::new();
    registration.focus(FocusField::DbName);
    assert_eq!(registration.focused_field(), FocusField::DbName);
    registration.focus(FocusField::DbPassword);
    assert_eq!(registration.focused_field(), FocusField::DbPassword);
    assert_eq!(registration.active_tab(), ActiveTab::Settings);
}
