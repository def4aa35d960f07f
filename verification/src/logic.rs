//! A controller without a form: it reads shortcuts and names the dialog to open.

use crate::command::RegistrationEvent;
use crate::keys::{read_shortcut, shortcut, Shortcut};
use vstd::prelude::*;

pub use crate::command::ButtonType;

verus! {

/// The four operations of arithmetic.
#[derive(Clone, Copy, Debug, PartialEq, Eq, Structural)]
pub enum Operation {
    Division,
    Times,
    Minus,
    Plus,
}

/// A controller that only reads shortcuts. It says which dialog is to be
/// opened and leaves the opening to its caller, so none of its operations
/// changes it.
#[derive(Clone, Copy, Debug, PartialEq, Eq, Structural)]
pub struct Logic {
    operation: Option<Operation>,
    use_comma: bool,
}

impl Logic {
    /// The operation that is pending.
    pub closed spec fn pending(&self) -> Option<Operation> {
        self.operation
    }

    /// Whether a decimal comma was typed.
    pub closed spec fn comma(&self) -> bool {
        self.use_comma
    }

    /// A controller with no pending operation and no decimal comma.
    pub fn new() -> (logic: Self)
        ensures
            logic.pending().is_none(),
            !logic.comma(),
    {
        Logic { operation: None, use_comma: false }
    }

    /// Reads a key event as a shortcut, presses the button that it stands
    /// for and names the dialog that this opens, if it opens one.
    pub fn handle_key_input(&mut self, key_input: &str) -> (opened: Option<RegistrationEvent>)
        ensures
            *final(self) == *old(self),
            opened == dialog_for_key(key_input@),
    {
        match shortcut(key_input) {
            Some(Shortcut::Register) => self.on_button_pressed(ButtonType::Persons),
            Some(Shortcut::Settings) => self.on_button_pressed(ButtonType::Settings),
            None => None,
        }
    }

    /// The text that the list shows.
    pub fn get_list_value(&self) -> (text: String)
        ensures
            text@ == "placeholder for list"@,
    {
        "placeholder for list".to_owned()
    }

    /// Names the dialog that a button opens, if it opens one.
    pub fn on_button_pressed(&mut self, button_type: ButtonType) -> (opened: Option<RegistrationEvent>)
        ensures
            *final(self) == *old(self),
            opened == dialog_of(button_type),
    {
        match button_type {
            ButtonType::Persons => Some(self.open_register_dialog()),
            ButtonType::Settings => Some(self.open_settings_dialog()),
            _ => None,
        }
    }

    fn open_register_dialog(&mut self) -> (opened: RegistrationEvent)
        ensures
            *final(self) == *old(self),
            opened == RegistrationEvent::OpenRegister,
    {
        RegistrationEvent::OpenRegister
    }

    fn open_settings_dialog(&mut self) -> (opened: RegistrationEvent)
        ensures
            *final(self) == *old(self),
            opened == RegistrationEvent::OpenSettings,
    {
        RegistrationEvent::OpenSettings
    }
}

/// The dialog that a button opens: the registration form for `Persons`, the
/// settings for `Settings`, and none for any other button.
pub open spec fn dialog_of(button_type: ButtonType) -> Option<RegistrationEvent> {
    match button_type {
        ButtonType::Persons => Some(RegistrationEvent::OpenRegister),
        ButtonType::Settings => Some(RegistrationEvent::OpenSettings),
        _ => None,
    }
}

/// The dialog that a key event opens: that of the button which the key
/// stands for as a shortcut, and none for a key that is no shortcut.
pub open spec fn dialog_for_key(key: Seq<char>) -> Option<RegistrationEvent> {
    match read_shortcut(key) {
        Some(Shortcut::Register) => dialog_of(ButtonType::Persons),
        Some(Shortcut::Settings) => dialog_of(ButtonType::Settings),
        None => None,
    }
}

} // verus!
