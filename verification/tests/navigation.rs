use person_registry::navigation::entry_focus;
use person_registry::{ActiveTab, FocusField, Registration};

const TABS: [ActiveTab; 3] = [ActiveTab::Settings, ActiveTab::Manage, ActiveTab::Employees];

const FIELDS: [FocusField; 4] =
    [FocusField::DbName, FocusField::DbPassword, FocusField::PersonName, FocusField::Unfocused];

fn on_tab(tab: ActiveTab, focus: FocusField) -> Registration {
    let mut registration = Registration::new();
    registration.set_tab(tab);
    registration.focus(focus);
    assert_eq!(registration.active_tab(), tab);
    assert_eq!(registration.focused_field(), focus);
    registration
}

#[test]
fn the_controller_starts_on_settings_without_focus() {
    let registration = Registration::new();
    assert_eq!(registration.active_tab(), ActiveTab::Settings);
    assert_eq!(registration.focused_field(), FocusField::Unfocused);
    assert_eq!(registration.db_name(), "face_identity_db");
    assert_eq!(registration.db_password(), "");
    assert!(!registration.db_connected());
    assert!(registration.connection_error().is_none());
    assert!(registration.persons().is_empty());
    assert!(registration.selected_person_id().is_none());
    assert!(!registration.is_loading());
}

#[test]
fn a_switch_to_another_tab_clears_the_focus() {
    for from in TABS {
        for to in [ActiveTab::Settings, ActiveTab::Employees] {
            if from == to {
                continue;
            }
            for focus in FIELDS {
                let mut registration = on_tab(from, focus);
                registration.set_tab(to);
                assert_eq!(registration.active_tab(), to);
                assert_eq!(registration.focused_field(), FocusField::Unfocused);
            }
        }
    }
}

#[test]
fn a_switch_to_the_manage_tab_focuses_the_person_name() {
    for from in [ActiveTab::Settings, ActiveTab::Employees] {
        for focus in FIELDS {
            let mut registration = on_tab(from, focus);
            registration.set_tab(ActiveTab::Manage);
            assert_eq!(registration.active_tab(), ActiveTab::Manage);
            assert_eq!(registration.focused_field(), FocusField::PersonName);
        }
    }
}

#[test]
fn a_switch_to_the_tab_that_is_shown_changes_nothing() {
    for tab in TABS {
        for focus in FIELDS {
            let mut registration = on_tab(tab, focus);
            registration.set_tab(tab);
            assert_eq!(registration.active_tab(), tab);
            assert_eq!(registration.focused_field(), focus);
        }
    }
}

#[test]
fn entry_focus_is_the_person_name_on_manage_only() {
    assert_eq!(entry_focus(ActiveTab::Settings), FocusField::Unfocused);
    assert_eq!(entry_focus(ActiveTab::Manage), FocusField::PersonName);
    assert_eq!(entry_focus(ActiveTab::Employees), FocusField::Unfocused);
}

#[test]
fn a_switch_of_tab_keeps_the_texts() {
    let mut registration = Registration::new();
    registration.focus(FocusField::DbPassword);
    registration.handle_text_input("x");
    registration.set_tab(ActiveTab::Employees);
    registration.set_tab(ActiveTab::Settings);
    assert_eq!(registration.db_password(), "x");
    assert_eq!(registration.db_name(), "face_identity_db");
}
