use person_registry::text_input::display_value;
use person_registry::{
    Button, ButtonStyle, ButtonType, ButtonVariant, List, Operation, PaletteColor, TextInput,
};

#[test]
fn a_password_is_shown_as_one_asterisk_for_each_byte() {
    assert_eq!(display_value("secret", true), "******");
    assert_eq!(display_value("", true), "");
    assert_eq!(display_value("é", true), "**");
    assert_eq!(display_value("a b", true), "***");
}

#[test]
fn an_empty_value_is_shown_as_one_space() {
    assert_eq!(display_value("", false), " ");
}

#[test]
fn any_other_value_is_shown_as_it_is() {
    assert_eq!(display_value("face_identity_db", false), "face_identity_db");
    assert_eq!(display_value(" ", false), " ");
    assert_eq!(display_value("é", false), "é");
}

#[test]
fn a_text_input_starts_plain_and_unfocused() {
    let input = TextInput::new("Database Name", "face_identity_db");
    assert_eq!(input.label(), "Database Name");
    assert!(!input.is_focused());
    assert_eq!(input.display_value(), "face_identity_db");
}

#[test]
fn a_text_input_is_built_step_by_step() {
    let input = TextInput::new("Password", "pw").focused(true).password(true);
    assert_eq!(input.label(), "Password");
    assert!(input.is_focused());
    assert_eq!(input.display_value(), "**");
    let shown = input.password(false).focused(false);
    assert!(!shown.is_focused());
    assert_eq!(shown.display_value(), "pw");
    assert_eq!(TextInput::new("Password", "").display_value(), " ");
    assert_eq!(TextInput::new("Password", "").password(true).display_value(), "");
}

#[test]
fn every_button_has_its_label() {
    let labels = [
        (ButtonType::Settings, "Settings"),
        (ButtonType::Persons, "Persons"),
        (ButtonType::Employees, "List"),
        (ButtonType::Insert, "Save"),
        (ButtonType::Edit, "Edit"),
        (ButtonType::Delete, "Delete"),
        (ButtonType::Connect, "Connect to Postgres DB"),
    ];
    for (button_type, label) in labels {
        assert_eq!(button_type.label(), label);
        assert_eq!(Button::get_label(&button_type), label);
        assert_eq!(Button::new(button_type, ButtonVariant::Neutral).text(), label);
    }
}

#[test]
fn every_variant_has_its_colours() {
    let neutral = Button::new(ButtonType::Edit, ButtonVariant::Neutral);
    assert_eq!(
        neutral.get_variant_style(),
        ButtonStyle {
            bg: PaletteColor::ButtonPanel,
            text_color: PaletteColor::White,
            hover_color: PaletteColor::ButtonHover,
        }
    );
    let primary = Button::new(ButtonType::Insert, ButtonVariant::Primary);
    assert_eq!(
        primary.get_variant_style(),
        ButtonStyle {
            bg: PaletteColor::Primary,
            text_color: PaletteColor::White,
            hover_color: PaletteColor::PrimaryDark,
        }
    );
    let secondary = Button::new(ButtonType::Delete, ButtonVariant::Secondary);
    assert_eq!(
        secondary.get_variant_style(),
        ButtonStyle {
            bg: PaletteColor::Button,
            text_color: PaletteColor::Primary,
            hover_color: PaletteColor::ButtonHover,
        }
    );
}

#[test]
fn a_list_shows_the_text_it_was_made_with() {
    assert_eq!(List::new("three persons".to_string()).value(), "three persons");
    assert_eq!(List::new(String::new()).value(), "");
}

#[test]
fn there_are_four_operations() {
    let all = [Operation::Division, Operation::Times, Operation::Minus, Operation::Plus];
    for (i, a) in all.iter().enumerate() {
        for (j, b) in all.iter().enumerate() {
            assert_eq!(a == b, i == j);
        }
    }
}
