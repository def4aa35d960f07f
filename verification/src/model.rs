//! The controller as a state machine over mathematical values: what every
//! operation does to the state and which command it hands out.

use crate::command::{ButtonType, CommandView, OutcomeView, RegistrationEvent};
use crate::connection::{ConnectOptionsView, ConnectionHandle, ConnectionView};
use crate::keys::{read_keystroke, read_shortcut, Keystroke, Shortcut};
use crate::navigation::{focus_on_entry, ActiveTab, FocusField};
use crate::person::{holds_id, DraftField, DraftView, PersonView};
use crate::text_input::edit_text;
use vstd::prelude::*;

verus! {

/// The whole state of the controller as a mathematical value.
pub struct RegistrationView {
    pub active_tab: ActiveTab,
    pub connection: ConnectionView,
    pub db_name: Seq<char>,
    pub db_password: Seq<char>,
    pub focused_field: FocusField,
    /// The persons as the server last listed them, in its order.
    pub persons: Seq<PersonView>,
    pub draft: DraftView,
    /// The record that the draft edits; nothing while it describes a new person.
    pub selected_person_id: Option<i64>,
    pub is_loading: bool,
}

impl RegistrationView {
    /// The state at start: the settings tab, no focus, no connection, the
    /// usual database name, no password, no persons and a blank draft.
    pub open spec fn initial() -> RegistrationView {
        RegistrationView {
            active_tab: ActiveTab::Settings,
            connection: ConnectionView::Disconnected,
            db_name: "face_identity_db"@,
            db_password: Seq::empty(),
            focused_field: FocusField::Unfocused,
            persons: Seq::empty(),
            draft: DraftView::blank(),
            selected_person_id: None,
            is_loading: false,
        }
    }

    /// A draft that edits a record edits one that is in the list.
    pub open spec fn wf(self) -> bool {
        self.selected_person_id is Some ==> holds_id(self.persons, self.selected_person_id->0)
    }

    /// Shows `tab`. Nothing happens if it is shown already; otherwise the
    /// focus goes where [`focus_on_entry`] says.
    pub open spec fn set_tab(self, tab: ActiveTab) -> RegistrationView {
        if self.active_tab == tab {
            self
        } else {
            RegistrationView { active_tab: tab, focused_field: focus_on_entry(tab), ..self }
        }
    }

    /// Gives the focus to `field`.
    pub open spec fn focus(self, field: FocusField) -> RegistrationView {
        RegistrationView { focused_field: field, ..self }
    }

    /// The text behind a field; the empty text behind no field.
    pub open spec fn buffer(self, field: FocusField) -> Seq<char> {
        match field {
            FocusField::DbName => self.db_name,
            FocusField::DbPassword => self.db_password,
            FocusField::PersonName => self.draft.full_name,
            FocusField::Unfocused => Seq::empty(),
        }
    }

    /// The state with `text` behind `field`, and the state itself for no field.
    pub open spec fn with_buffer(self, field: FocusField, text: Seq<char>) -> RegistrationView {
        match field {
            FocusField::DbName => RegistrationView { db_name: text, ..self },
            FocusField::DbPassword => RegistrationView { db_password: text, ..self },
            FocusField::PersonName => RegistrationView {
                draft: DraftView { full_name: text, ..self.draft },
                ..self
            },
            FocusField::Unfocused => self,
        }
    }

    /// Routes one key event to the field that has the focus: the event
    /// edits the text behind that field, and `enter` gives the focus up.
    /// Without a focus nothing happens.
    pub open spec fn type_key(self, key: Seq<char>) -> RegistrationView {
        let stroke = read_keystroke(key);
        let field = self.focused_field;
        let edited = self.with_buffer(field, edit_text(self.buffer(field), stroke));
        if field == FocusField::Unfocused {
            self
        } else if stroke == Keystroke::Enter {
            RegistrationView { focused_field: FocusField::Unfocused, ..edited }
        } else {
            edited
        }
    }

    /// Starts a connection attempt for this database name and password.
    pub open spec fn connect(self, db_name: Seq<char>, password: Seq<char>) -> (
        RegistrationView,
        CommandView,
    ) {
        (
            RegistrationView { connection: ConnectionView::Connecting, ..self },
            CommandView::Connect(ConnectOptionsView::for_database(db_name, password)),
        )
    }

    /// Takes in the outcome of a connection attempt. The outcome that
    /// arrives last stands, whatever the state was.
    pub open spec fn connect_finished(
        self,
        outcome: Result<ConnectionHandle, Seq<char>>,
    ) -> RegistrationView {
        match outcome {
            Ok(handle) => RegistrationView { connection: ConnectionView::Connected(handle), ..self },
            Err(reason) => RegistrationView { connection: ConnectionView::Failed(reason), ..self },
        }
    }

    /// Asks for the list of persons, if a connection is open.
    pub open spec fn list(self) -> (RegistrationView, CommandView) {
        match self.connection.handle() {
            Some(handle) => (
                RegistrationView { is_loading: true, ..self },
                CommandView::ListPersons(handle),
            ),
            None => (self, CommandView::Idle),
        }
    }

    /// Takes in the outcome of a list query: the persons that it found, or
    /// nothing if it failed. A failure keeps the list. A new list that no
    /// longer holds the selected record turns the draft blank.
    pub open spec fn list_finished(self, fetched: Option<Seq<PersonView>>) -> RegistrationView {
        match fetched {
            Some(persons) => {
                let listed = RegistrationView { persons, is_loading: false, ..self };
                if listed.wf() {
                    listed
                } else {
                    listed.clear_draft()
                }
            },
            None => RegistrationView { is_loading: false, ..self },
        }
    }

    /// Asks to store the draft, if a connection is open: as a change to the
    /// selected record, or as a new person if none is selected.
    pub open spec fn save(self) -> (RegistrationView, CommandView) {
        match self.connection.handle() {
            Some(handle) => match self.selected_person_id {
                Some(id) => (self, CommandView::UpdatePerson(handle, id, self.draft)),
                None => (self, CommandView::InsertPerson(handle, self.draft)),
            },
            None => (self, CommandView::Idle),
        }
    }

    /// Asks to delete the selected record, if a connection is open and a
    /// record is selected.
    pub open spec fn delete(self) -> (RegistrationView, CommandView) {
        match (self.connection.handle(), self.selected_person_id) {
            (Some(handle), Some(id)) => (self, CommandView::DeletePerson(handle, id)),
            _ => (self, CommandView::Idle),
        }
    }

    /// Takes in the outcome of a statement that stored the draft or deleted
    /// a record. Success turns the draft blank and asks for the list; a
    /// failure changes nothing.
    pub open spec fn write_finished(self, succeeded: bool) -> (RegistrationView, CommandView) {
        if succeeded {
            self.clear_draft().list()
        } else {
            (self, CommandView::Idle)
        }
    }

    /// Makes the draft mirror `record` and selects it, if the list holds a
    /// record with its id; otherwise nothing happens.
    pub open spec fn select_person(self, record: PersonView) -> RegistrationView {
        if holds_id(self.persons, record.id) {
            RegistrationView {
                draft: DraftView::of_record(record),
                selected_person_id: Some(record.id),
                ..self
            }
        } else {
            self
        }
    }

    /// Turns the draft blank and selects nothing.
    pub open spec fn clear_draft(self) -> RegistrationView {
        RegistrationView { draft: DraftView::blank(), selected_person_id: None, ..self }
    }

    /// Stores `value` in one field of the draft, if the field accepts it.
    pub open spec fn update_field(self, field: DraftField, value: Seq<char>) -> RegistrationView {
        RegistrationView { draft: self.draft.with_field(field, value), ..self }
    }

    /// Does what a button stands for. `Settings` and `Persons` announce
    /// that the settings or the registration form is to be opened, and
    /// `Employees` asks for nothing: none of the three changes the state,
    /// since a tab is shown by [`RegistrationView::set_tab`] alone. `Insert`
    /// and `Edit` store the draft, `Delete` deletes the selected record, and
    /// `Connect` starts a connection attempt with the two texts of the
    /// settings form.
    pub open spec fn press(self, button: ButtonType) -> (RegistrationView, CommandView) {
        match button {
            ButtonType::Settings => (self, CommandView::Emit(RegistrationEvent::OpenSettings)),
            ButtonType::Persons => (self, CommandView::Emit(RegistrationEvent::OpenRegister)),
            ButtonType::Employees => (self, CommandView::Idle),
            ButtonType::Insert => self.save(),
            ButtonType::Edit => self.save(),
            ButtonType::Delete => self.delete(),
            ButtonType::Connect => self.connect(self.db_name, self.db_password),
        }
    }

    /// Reads a key event as a shortcut and presses the button that it
    /// stands for. No key changes the state.
    pub open spec fn key_input(self, key: Seq<char>) -> (RegistrationView, CommandView) {
        match read_shortcut(key) {
            Some(Shortcut::Register) => self.press(ButtonType::Persons),
            Some(Shortcut::Settings) => self.press(ButtonType::Settings),
            None => (self, CommandView::Idle),
        }
    }

    /// Takes in a raw key event: it goes to the field that has the focus,
    /// and is read as a shortcut only when none has.
    pub open spec fn key_down(self, key: Seq<char>) -> (RegistrationView, CommandView) {
        if self.focused_field != FocusField::Unfocused {
            (self.type_key(key), CommandView::Idle)
        } else {
            self.key_input(key)
        }
    }

    /// Takes in the outcome of the work that a command asked for.
    pub open spec fn complete(self, outcome: OutcomeView) -> (RegistrationView, CommandView) {
        match outcome {
            OutcomeView::Nothing => (self, CommandView::Idle),
            OutcomeView::Connected(result) => (self.connect_finished(result), CommandView::Idle),
            OutcomeView::Listed(fetched) => (self.list_finished(fetched), CommandView::Idle),
            OutcomeView::Written(succeeded) => self.write_finished(succeeded),
        }
    }
}

} // verus!
