use person_registry::keys::{same_text, shortcut};
use person_registry::{
    AccessLevel, ActiveTab, ButtonType, Command, ConnectOptions, ConnectionHandle,
    ConnectionState, FocusField, Logic, PersonDraft, PersonRecord, PersonType, Registration,
    RegistrationEvent, Shortcut,
};

const HANDLE: ConnectionHandle = ConnectionHandle { id: 5 };

#[test]
fn enter_and_small_numbers_open_the_registration_form() {
    for key in ["enter", "0", "7", "42", "255", "+5", "007", "000255", "+0"] {
        assert_eq!(shortcut(key), Some(Shortcut::Register), "{:?}", key);
    }
}

#[test]
fn s_opens_the_settings() {
    assert_eq!(shortcut("s"), Some(Shortcut::Settings));
}

#[test]
fn other_keys_are_no_shortcut() {
    let keys = [
        "", "S", "x", "space", "backspace", "Enter", "256", "1000", "-1", "-0", "+", "++1", "1 ",
        " 1", "1_0", "0x10", "1.0", "1e2", "٣", "9999999999999999999999",
    ];
    for key in keys {
        assert_eq!(shortcut(key), None, "{:?}", key);
    }
}

#[test]
fn same_text_compares_character_by_character() {
    assert!(same_text("", ""));
    assert!(same_text("enter", "enter"));
    assert!(!same_text("enter", "Enter"));
    assert!(!same_text("enter", "ente"));
    assert!(!same_text("é", "e"));
}

type Snapshot = (
    ActiveTab,
    FocusField,
    String,
    String,
    ConnectionState,
    Vec<PersonRecord>,
    PersonDraft,
    Option<i64>,
    bool,
);

fn snapshot(registration: &Registration) -> Snapshot {
    (
        registration.active_tab(),
        registration.focused_field(),
        registration.db_name().to_string(),
        registration.db_password().to_string(),
        registration.connection().clone(),
        registration.persons().clone(),
        registration.draft().clone(),
        registration.selected_person_id(),
        registration.is_loading(),
    )
}

fn busy() -> Registration {
    let ada = PersonRecord {
        id: 4,
        full_name: "Ada".to_string(),
        person_type: PersonType::Customer,
        access_level: AccessLevel::Guest,
    };
    let mut registration = Registration::new();
    registration.connect_finished(Ok(HANDLE));
    registration.list_finished(Ok(vec![ada.clone()]));
    registration.select_person(&ada);
    registration.list();
    registration.set_tab(ActiveTab::Employees);
    registration
}

#[test]
fn the_key_255_announces_the_registration_form_and_changes_nothing() {
    let mut registration = Registration::new();
    let before = snapshot(&registration);
    assert_eq!(
        registration.handle_key_input("255"),
        Command::Emit(RegistrationEvent::OpenRegister)
    );
    assert_eq!(snapshot(&registration), before);
    assert_eq!(registration.active_tab(), ActiveTab::Settings);
    assert_eq!(registration.focused_field(), FocusField::Unfocused);
}

#[test]
fn the_settings_shortcut_announces_the_settings_and_changes_nothing() {
    for mut registration in [Registration::new(), busy()] {
        let before = snapshot(&registration);
        assert_eq!(
            registration.handle_key_input("s"),
            Command::Emit(RegistrationEvent::OpenSettings)
        );
        assert_eq!(snapshot(&registration), before);
    }
}

#[test]
fn the_register_shortcut_announces_the_form_and_changes_nothing() {
    for key in ["enter", "0", "3", "+5", "255"] {
        for mut registration in [Registration::new(), busy()] {
            let before = snapshot(&registration);
            assert_eq!(
                registration.handle_key_input(key),
                Command::Emit(RegistrationEvent::OpenRegister)
            );
            assert_eq!(snapshot(&registration), before);
        }
    }
}

#[test]
fn a_key_that_is_no_shortcut_does_nothing() {
    for key in ["x", "256", "", "S", "space", "backspace"] {
        for mut registration in [Registration::new(), busy()] {
            let before = snapshot(&registration);
            assert_eq!(registration.handle_key_input(key), Command::Idle);
            assert_eq!(snapshot(&registration), before);
        }
    }
}

#[test]
fn a_key_goes_to_the_focused_field_before_it_is_a_shortcut() {
    let mut registration = Registration::new();
    registration.focus(FocusField::DbName);
    assert_eq!(registration.handle_key_down("s"), Command::Idle);
    assert_eq!(registration.db_name(), "face_identity_dbs");
    assert_eq!(registration.active_tab(), ActiveTab::Settings);
    assert_eq!(registration.handle_key_down("enter"), Command::Idle);
    assert_eq!(registration.focused_field(), FocusField::Unfocused);
    assert_eq!(registration.active_tab(), ActiveTab::Settings);

    let before = snapshot(&registration);
    assert_eq!(
        registration.handle_key_down("enter"),
        Command::Emit(RegistrationEvent::OpenRegister)
    );
    assert_eq!(
        registration.handle_key_down("s"),
        Command::Emit(RegistrationEvent::OpenSettings)
    );
    assert_eq!(registration.handle_key_down("x"), Command::Idle);
    assert_eq!(snapshot(&registration), before);

    registration.set_tab(ActiveTab::Manage);
    assert_eq!(registration.focused_field(), FocusField::PersonName);
    assert_eq!(registration.handle_key_down("s"), Command::Idle);
    assert_eq!(registration.draft().full_name, "s");
    assert_eq!(registration.active_tab(), ActiveTab::Manage);
}

#[test]
fn the_tab_buttons_change_nothing() {
    for from in [ActiveTab::Settings, ActiveTab::Manage, ActiveTab::Employees] {
        let mut registration = busy();
        registration.set_tab(from);
        let before = snapshot(&registration);
        assert_eq!(
            registration.on_button_pressed(ButtonType::Persons),
            Command::Emit(RegistrationEvent::OpenRegister)
        );
        assert_eq!(snapshot(&registration), before);
        assert_eq!(registration.on_button_pressed(ButtonType::Employees), Command::Idle);
        assert_eq!(snapshot(&registration), before);
        assert_eq!(
            registration.on_button_pressed(ButtonType::Settings),
            Command::Emit(RegistrationEvent::OpenSettings)
        );
        assert_eq!(snapshot(&registration), before);
    }
}

#[test]
fn the_connect_button_uses_the_two_texts_of_the_form() {
    let mut registration = Registration::new();
    registration.focus(FocusField::DbPassword);
    for key in ["p", "w"] {
        registration.handle_text_input(key);
    }
    assert_eq!(
        registration.on_button_pressed(ButtonType::Connect),
        Command::Connect(ConnectOptions {
            url: "postgres://postgres:pw@localhost/face_identity_db".to_string(),
            max_connections: 5,
            acquire_timeout_secs: 3,
        })
    );
    assert_eq!(registration.db_name(), "face_identity_db");
    assert_eq!(registration.db_password(), "pw");
    assert!(!registration.db_connected());
}

#[test]
fn the_crud_buttons_store_and_delete() {
    let mut registration = Registration::new();
    assert_eq!(registration.on_button_pressed(ButtonType::Insert), Command::Idle);
    assert_eq!(registration.on_button_pressed(ButtonType::Edit), Command::Idle);
    assert_eq!(registration.on_button_pressed(ButtonType::Delete), Command::Idle);

    registration.connect_finished(Ok(HANDLE));
    let blank = PersonDraft::default();
    assert_eq!(
        registration.on_button_pressed(ButtonType::Insert),
        Command::InsertPerson(HANDLE, blank.clone())
    );
    assert_eq!(registration.on_button_pressed(ButtonType::Delete), Command::Idle);

    let ada = PersonRecord {
        id: 4,
        full_name: "Ada".to_string(),
        person_type: PersonType::Customer,
        access_level: AccessLevel::Guest,
    };
    registration.list_finished(Ok(vec![ada.clone()]));
    registration.select_person(&ada);
    assert_eq!(
        registration.on_button_pressed(ButtonType::Edit),
        Command::UpdatePerson(HANDLE, 4, PersonDraft::from_record(&ada))
    );
    assert_eq!(
        registration.on_button_pressed(ButtonType::Insert),
        Command::UpdatePerson(HANDLE, 4, PersonDraft::from_record(&ada))
    );
    assert_eq!(
        registration.on_button_pressed(ButtonType::Delete),
        Command::DeletePerson(HANDLE, 4)
    );
}

#[test]
fn the_plain_controller_is_never_changed() {
    let mut logic = Logic::new();
    let fresh = Logic::new();
    for key in ["enter", "s", "7", "x", ""] {
        logic.handle_key_input(key);
        assert_eq!(logic, fresh);
    }
    logic.on_button_pressed(ButtonType::Persons);
    logic.on_button_pressed(ButtonType::Settings);
    logic.on_button_pressed(ButtonType::Connect);
    assert_eq!(logic, fresh);
    assert_eq!(logic.get_list_value(), "placeholder for list");
}

#[test]
fn the_plain_controller_names_the_dialog_of_a_shortcut() {
    let mut logic = Logic::new();
    for key in ["enter", "0", "7", "255", "+5", "007"] {
        assert_eq!(logic.handle_key_input(key), Some(RegistrationEvent::OpenRegister), "{:?}", key);
    }
    assert_eq!(logic.handle_key_input("s"), Some(RegistrationEvent::OpenSettings));
    for key in ["", "S", "x", "256", "-1", "space", "backspace", "Enter"] {
        assert_eq!(logic.handle_key_input(key), None, "{:?}", key);
    }
}

#[test]
fn the_plain_controller_names_the_dialog_of_a_button() {
    let mut logic = Logic::new();
    assert_eq!(
        logic.on_button_pressed(ButtonType::Persons),
        Some(RegistrationEvent::OpenRegister)
    );
    assert_eq!(
        logic.on_button_pressed(ButtonType::Settings),
        Some(RegistrationEvent::OpenSettings)
    );
    let others = [
        ButtonType::Employees,
        ButtonType::Insert,
        ButtonType::Edit,
        ButtonType::Delete,
        ButtonType::Connect,
    ];
    for button_type in others {
        assert_eq!(logic.on_button_pressed(button_type), None);
    }
}
