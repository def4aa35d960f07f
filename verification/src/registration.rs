//! The registration controller: the one object that owns the state of the
//! form and through which every change goes.

use crate::command::{Command, Outcome};
use crate::connection::{ConnectOptions, ConnectionHandle, ConnectionState};
use crate::keys::{shortcut, Keystroke, Shortcut};
use crate::model::RegistrationView;
use crate::navigation::entry_focus;
use crate::person::{holds_id, views_of, DraftField, DraftView, PersonDraft, PersonRecord};
use crate::roster::Roster;
use crate::text_input::apply_key;
use vstd::prelude::*;

pub use crate::command::{ButtonType, RegistrationEvent};
pub use crate::navigation::{ActiveTab, FocusField};

verus! {

/// The state of the form. It is made once, with [`Registration::new`], and
/// changes only through the operations below. Each operation that needs
/// outside work hands out one [`Command`]; the outcome of that work comes
/// back through [`Registration::complete`] or the matching `..._finished`
/// operation. Outcomes are taken in as they arrive: of two overlapping
/// attempts the one that finishes last stands, and nothing is cancelled.
/// After every operation the caller shows the new state.
pub struct Registration {
    active_tab: ActiveTab,
    connection: ConnectionState,
    db_name: String,
    db_password: String,
    focused_field: FocusField,
    roster: Roster,
    draft: PersonDraft,
    is_loading: bool,
}

impl View for Registration {
    type V = RegistrationView;

    closed spec fn view(&self) -> RegistrationView {
        RegistrationView {
            active_tab: self.active_tab,
            connection: self.connection@,
            db_name: self.db_name@,
            db_password: self.db_password@,
            focused_field: self.focused_field,
            persons: self.roster@.persons,
            draft: self.draft@,
            selected_person_id: self.roster@.selected_person_id,
            is_loading: self.is_loading,
        }
    }
}

impl Registration {
    /// The controller at start.
    pub fn new() -> (registration: Self)
        ensures
            registration@ == RegistrationView::initial(),
            registration@.wf(),
    {
        Registration {
            active_tab: ActiveTab::Settings,
            connection: ConnectionState::Disconnected,
            db_name: "face_identity_db".to_owned(),
            db_password: String::new(),
            focused_field: FocusField::Unfocused,
            roster: Roster::new(),
            draft: PersonDraft::default(),
            is_loading: false,
        }
    }

    /// Shows `tab`. Nothing happens if it is shown already. Otherwise the
    /// focus is cleared, except that the manage tab gives it to the
    /// person-name field.
    pub fn set_tab(&mut self, tab: ActiveTab)
        ensures
            final(self)@ == old(self)@.set_tab(tab),
            final(self)@.wf(),
    {
        proof {
            use_type_invariant(&self.roster);
        }
        if self.active_tab != tab {
            self.active_tab = tab;
            self.focused_field = entry_focus(tab);
        }
    }

    /// Gives the focus to `field`, as a click on it does.
    pub fn focus(&mut self, field: FocusField)
        ensures
            final(self)@ == old(self)@.focus(field),
            final(self)@.wf(),
    {
        proof {
            use_type_invariant(&self.roster);
        }
        self.focused_field = field;
    }

    /// Routes one key event to the field that has the focus. `backspace`
    /// removes the last character, `space` appends a space, `enter` gives
    /// the focus up, one printable character is appended, and anything else
    /// is dropped. Without a focus nothing happens.
    pub fn handle_text_input(&mut self, key: &str)
        ensures
            final(self)@ == old(self)@.type_key(key@),
            final(self)@.wf(),
    {
        proof {
            use_type_invariant(&self.roster);
        }
        let stroke = match self.focused_field {
            FocusField::DbName => apply_key(&mut self.db_name, key),
            FocusField::DbPassword => apply_key(&mut self.db_password, key),
            FocusField::PersonName => apply_key(&mut self.draft.full_name, key),
            FocusField::Unfocused => {
                return ;
            },
        };
        if stroke == Keystroke::Enter {
            self.focused_field = FocusField::Unfocused;
        }
    }

    /// Starts a connection attempt: the state becomes `Connecting`, and the
    /// command carries the descriptor made of the two texts.
    pub fn connect_to_db(&mut self, db_name: String, password: String) -> (command: Command)
        ensures
            (final(self)@, command@) == old(self)@.connect(db_name@, password@),
            final(self)@.wf(),
    {
        proof {
            use_type_invariant(&self.roster);
        }
        self.connection = ConnectionState::Connecting;
        Command::Connect(ConnectOptions::new(db_name.as_str(), password.as_str()))
    }

    /// Takes in the outcome of a connection attempt: the handle of the open
    /// connection, or the reason for the failure as text.
    pub fn connect_finished(&mut self, outcome: Result<ConnectionHandle, String>)
        ensures
            final(self)@ == old(self)@.connect_finished(
                match outcome {
                    Ok(handle) => Ok(handle),
                    Err(reason) => Err(reason@),
                },
            ),
            final(self)@.wf(),
    {
        proof {
            use_type_invariant(&self.roster);
        }
        match outcome {
            Ok(handle) => {
                self.connection = ConnectionState::Connected(handle);
            },
            Err(reason) => {
                self.connection = ConnectionState::Failed(reason);
            },
        }
    }

    /// Asks for the list of persons and raises the loading flag. Without an
    /// open connection nothing happens.
    pub fn list(&mut self) -> (command: Command)
        ensures
            (final(self)@, command@) == old(self)@.list(),
            final(self)@.wf(),
    {
        proof {
            use_type_invariant(&self.roster);
        }
        match self.connection.handle() {
            Some(handle) => {
                self.is_loading = true;
                Command::ListPersons(handle)
            },
            None => Command::Idle,
        }
    }

    /// Takes in the outcome of a list query and lowers the loading flag.
    /// The persons found replace the list; a failure keeps it. If the new
    /// list no longer holds the selected record, the draft turns blank.
    pub fn list_finished(&mut self, outcome: Result<Vec<PersonRecord>, String>)
        ensures
            final(self)@ == old(self)@.list_finished(
                match outcome {
                    Ok(persons) => Some(views_of(persons@)),
                    Err(_) => None,
                },
            ),
            final(self)@.wf(),
    {
        proof {
            use_type_invariant(&self.roster);
        }
        match outcome {
            Ok(persons) => {
                let kept = self.roster.replace(persons);
                if !kept {
                    self.draft = PersonDraft::default();
                }
                self.is_loading = false;
            },
            Err(_) => {
                self.is_loading = false;
            },
        }
    }

    /// Asks to store the draft: as a change to the selected record, or as a
    /// new person if none is selected. The state stays as it is. Without an
    /// open connection nothing is asked.
    pub fn save(&mut self) -> (command: Command)
        ensures
            (final(self)@, command@) == old(self)@.save(),
            final(self)@.wf(),
    {
        proof {
            use_type_invariant(&self.roster);
        }
        match self.connection.handle() {
            Some(handle) => match self.roster.selected_person_id() {
                Some(id) => Command::UpdatePerson(handle, id, self.draft.clone()),
                None => Command::InsertPerson(handle, self.draft.clone()),
            },
            None => Command::Idle,
        }
    }

    /// Takes in the outcome of storing the draft. Success turns the draft
    /// blank and asks for the list once; a failure changes nothing and asks
    /// for nothing.
    pub fn save_finished(&mut self, outcome: Result<(), String>) -> (command: Command)
        ensures
            (final(self)@, command@) == old(self)@.write_finished(outcome is Ok),
            final(self)@.wf(),
    {
        self.write_finished(outcome.is_ok())
    }

    /// Asks to delete the selected record. The state stays as it is.
    /// Without an open connection or a selected record nothing is asked.
    pub fn delete(&mut self) -> (command: Command)
        ensures
            (final(self)@, command@) == old(self)@.delete(),
            final(self)@.wf(),
    {
        proof {
            use_type_invariant(&self.roster);
        }
        match (self.connection.handle(), self.roster.selected_person_id()) {
            (Some(handle), Some(id)) => Command::DeletePerson(handle, id),
            _ => Command::Idle,
        }
    }

    /// Takes in the outcome of deleting a record. Success turns the draft
    /// blank and asks for the list once; a failure changes nothing and asks
    /// for nothing.
    pub fn delete_finished(&mut self, outcome: Result<(), String>) -> (command: Command)
        ensures
            (final(self)@, command@) == old(self)@.write_finished(outcome is Ok),
            final(self)@.wf(),
    {
        self.write_finished(outcome.is_ok())
    }

    /// Takes in the outcome of the work that a command asked for, and hands
    /// out the command that follows from it, if one does.
    pub fn complete(&mut self, outcome: Outcome) -> (command: Command)
        ensures
            (final(self)@, command@) == old(self)@.complete(outcome@),
            final(self)@.wf(),
    {
        match outcome {
            Outcome::Nothing => {
                proof {
                    use_type_invariant(&self.roster);
                }
                Command::Idle
            },
            Outcome::Connected(result) => {
                self.connect_finished(result);
                Command::Idle
            },
            Outcome::Listed(result) => {
                self.list_finished(result);
                Command::Idle
            },
            Outcome::Written(result) => self.write_finished(result.is_ok()),
        }
    }

    fn write_finished(&mut self, succeeded: bool) -> (command: Command)
        ensures
            (final(self)@, command@) == old(self)@.write_finished(succeeded),
            final(self)@.wf(),
    {
        proof {
            use_type_invariant(&self.roster);
        }
        if succeeded {
            self.clear_draft();
            self.list()
        } else {
            Command::Idle
        }
    }

    /// Makes the draft mirror `record` and selects it, and says whether it
    /// did. A record whose id the list does not hold is not selected, and
    /// nothing changes.
    pub fn select_person(&mut self, record: &PersonRecord) -> (selected: bool)
        ensures
            selected == holds_id(old(self)@.persons, record.id),
            final(self)@ == old(self)@.select_person(record@),
            final(self)@.wf(),
    {
        proof {
            use_type_invariant(&self.roster);
        }
        let selected = self.roster.select(record.id);
        if selected {
            self.draft = PersonDraft::from_record(record);
        }
        selected
    }

    /// Turns the draft blank and selects nothing.
    pub fn clear_draft(&mut self)
        ensures
            final(self)@ == old(self)@.clear_draft(),
            final(self)@.wf(),
    {
        self.roster.deselect();
        self.draft = PersonDraft::default();
    }

    /// Stores `value` in one field of the draft if the field accepts it,
    /// and says whether it did.
    pub fn update_field(&mut self, field: DraftField, value: &str) -> (accepted: bool)
        ensures
            accepted == DraftView::accepts(field, value@),
            final(self)@ == old(self)@.update_field(field, value@),
            final(self)@.wf(),
    {
        proof {
            use_type_invariant(&self.roster);
        }
        self.draft.update_field(field, value)
    }

    /// Does what a button stands for. `Settings` and `Persons` announce
    /// that the settings or the registration form is to be opened, and
    /// `Employees` asks for nothing; none of the three changes the state.
    /// `Insert` and `Edit` store the draft; `Delete` deletes the selected
    /// record; `Connect` starts a connection attempt with the two texts of
    /// the settings form.
    pub fn on_button_pressed(&mut self, button_type: ButtonType) -> (command: Command)
        ensures
            (final(self)@, command@) == old(self)@.press(button_type),
            final(self)@.wf(),
    {
        proof {
            use_type_invariant(&self.roster);
        }
        match button_type {
            ButtonType::Settings => Command::Emit(RegistrationEvent::OpenSettings),
            ButtonType::Persons => Command::Emit(RegistrationEvent::OpenRegister),
            ButtonType::Employees => Command::Idle,
            ButtonType::Insert => self.save(),
            ButtonType::Edit => self.save(),
            ButtonType::Delete => self.delete(),
            ButtonType::Connect => {
                let db_name = self.db_name.clone();
                let password = self.db_password.clone();
                self.connect_to_db(db_name, password)
            },
        }
    }

    /// Reads a key event as a shortcut: `enter` and a number from 0 to 255
    /// press `Persons`, `s` presses `Settings`, and any other key does
    /// nothing. No key changes the state.
    pub fn handle_key_input(&mut self, key_input: &str) -> (command: Command)
        ensures
            (final(self)@, command@) == old(self)@.key_input(key_input@),
            final(self)@.wf(),
    {
        proof {
            use_type_invariant(&self.roster);
        }
        match shortcut(key_input) {
            Some(Shortcut::Register) => self.on_button_pressed(ButtonType::Persons),
            Some(Shortcut::Settings) => self.on_button_pressed(ButtonType::Settings),
            None => Command::Idle,
        }
    }

    /// Takes in a raw key event: it goes to the field that has the focus,
    /// and is read as a shortcut only when none has.
    pub fn handle_key_down(&mut self, key: &str) -> (command: Command)
        ensures
            (final(self)@, command@) == old(self)@.key_down(key@),
            final(self)@.wf(),
    {
        if self.focused_field != FocusField::Unfocused {
            self.handle_text_input(key);
            Command::Idle
        } else {
            self.handle_key_input(key)
        }
    }

    /// The tab that is shown.
    pub fn active_tab(&self) -> (tab: ActiveTab)
        ensures
            tab == self@.active_tab,
    {
        self.active_tab
    }

    /// The field that has the focus.
    pub fn focused_field(&self) -> (field: FocusField)
        ensures
            field == self@.focused_field,
    {
        self.focused_field
    }

    /// Where the connection stands.
    pub fn connection(&self) -> (state: &ConnectionState)
        ensures
            state@ == self@.connection,
    {
        &self.connection
    }

    /// Whether a connection is open.
    pub fn db_connected(&self) -> (open: bool)
        ensures
            open == (self@.connection is Connected),
    {
        self.connection.is_connected()
    }

    /// Why the last connection attempt failed, if it did.
    pub fn connection_error(&self) -> (reason: Option<&str>)
        ensures
            reason is Some <==> self@.connection is Failed,
            reason is Some ==> Some(reason->0@) == self@.connection.reason(),
    {
        self.connection.error()
    }

    /// The database name as typed.
    pub fn db_name(&self) -> (text: &str)
        ensures
            text@ == self@.db_name,
    {
        self.db_name.as_str()
    }

    /// The password as typed.
    pub fn db_password(&self) -> (text: &str)
        ensures
            text@ == self@.db_password,
    {
        self.db_password.as_str()
    }

    /// The persons as the server last listed them, in its order.
    pub fn persons(&self) -> (persons: &Vec<PersonRecord>)
        ensures
            views_of(persons@) == self@.persons,
    {
        self.roster.persons()
    }

    /// The draft.
    pub fn draft(&self) -> (draft: &PersonDraft)
        ensures
            draft@ == self@.draft,
    {
        &self.draft
    }

    /// The id of the record that the draft edits, if it edits one. It is
    /// the id of a listed person.
    pub fn selected_person_id(&self) -> (id: Option<i64>)
        ensures
            id == self@.selected_person_id,
            self@.wf(),
    {
        self.roster.selected_person_id()
    }

    /// Whether a list query is under way.
    pub fn is_loading(&self) -> (loading: bool)
        ensures
            loading == self@.is_loading,
    {
        self.is_loading
    }
}

} // verus!
