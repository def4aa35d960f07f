//! What a button asks for, and the work that the controller hands out.

use crate::connection::{ConnectOptions, ConnectOptionsView, ConnectionHandle};
use crate::person::{views_of, DraftView, PersonDraft, PersonRecord, PersonView};
use vstd::prelude::*;

verus! {

/// The buttons of the form. This is the whole set: the controller decides
/// what each one does.
#[derive(Clone, Copy, Debug, PartialEq, Eq, Structural)]
pub enum ButtonType {
    Settings,
    Persons,
    Employees,
    Insert,
    Edit,
    Delete,
    Connect,
}

impl ButtonType {
    /// The text on the button.
    pub open spec fn label_text(self) -> Seq<char> {
        match self {
            ButtonType::Settings => "Settings"@,
            ButtonType::Persons => "Persons"@,
            ButtonType::Employees => "List"@,
            ButtonType::Insert => "Save"@,
            ButtonType::Edit => "Edit"@,
            ButtonType::Delete => "Delete"@,
            ButtonType::Connect => "Connect to Postgres DB"@,
        }
    }

    /// Computes [`ButtonType::label_text`].
    pub fn label(self) -> (text: &'static str)
        ensures
            text@ == self.label_text(),
    {
        match self {
            ButtonType::Settings => "Settings",
            ButtonType::Persons => "Persons",
            ButtonType::Employees => "List",
            ButtonType::Insert => "Save",
            ButtonType::Edit => "Edit",
            ButtonType::Delete => "Delete",
            ButtonType::Connect => "Connect to Postgres DB",
        }
    }
}

/// What the controller announces to whoever listens.
#[derive(Clone, Copy, Debug, PartialEq, Eq, Structural)]
pub enum RegistrationEvent {
    OpenSettings,
    OpenRegister,
}

/// A command as a mathematical value.
pub enum CommandView {
    Idle,
    Emit(RegistrationEvent),
    Connect(ConnectOptionsView),
    ListPersons(ConnectionHandle),
    InsertPerson(ConnectionHandle, DraftView),
    UpdatePerson(ConnectionHandle, i64, DraftView),
    DeletePerson(ConnectionHandle, i64),
}

impl CommandView {
    /// How many list queries this command asks for.
    pub open spec fn list_queries(self) -> nat {
        if self is ListPersons {
            1
        } else {
            0
        }
    }
}

/// The one piece of outside work that an operation of the controller asks
/// for. Whoever runs the controller carries it out and reports the outcome
/// of a connection attempt, a query or a statement back to the controller.
#[derive(Debug, PartialEq, Eq)]
pub enum Command {
    /// Nothing to do.
    Idle,
    /// Announce the event.
    Emit(RegistrationEvent),
    /// Open a connection with this descriptor.
    Connect(ConnectOptions),
    /// Select all persons, the most recent first.
    ListPersons(ConnectionHandle),
    /// Insert a person with the fields of the draft.
    InsertPerson(ConnectionHandle, PersonDraft),
    /// Overwrite the person with this id by the fields of the draft.
    UpdatePerson(ConnectionHandle, i64, PersonDraft),
    /// Delete the person with this id.
    DeletePerson(ConnectionHandle, i64),
}

impl View for Command {
    type V = CommandView;

    open spec fn view(&self) -> CommandView {
        match self {
            Command::Idle => CommandView::Idle,
            Command::Emit(event) => CommandView::Emit(*event),
            Command::Connect(options) => CommandView::Connect(options@),
            Command::ListPersons(handle) => CommandView::ListPersons(*handle),
            Command::InsertPerson(handle, draft) => CommandView::InsertPerson(*handle, draft@),
            Command::UpdatePerson(handle, id, draft) => CommandView::UpdatePerson(
                *handle,
                *id,
                draft@,
            ),
            Command::DeletePerson(handle, id) => CommandView::DeletePerson(*handle, *id),
        }
    }
}

/// An outcome as a mathematical value: of a failure only that it is one,
/// but for a connection attempt, whose reason is kept.
pub enum OutcomeView {
    Nothing,
    Connected(Result<ConnectionHandle, Seq<char>>),
    Listed(Option<Seq<PersonView>>),
    Written(bool),
}

/// What came of the work that a [`Command`] asked for. A failure carries
/// its reason as text.
#[derive(Debug, PartialEq, Eq)]
pub enum Outcome {
    /// The command asked for nothing that has an outcome.
    Nothing,
    /// A connection attempt gave a handle or failed.
    Connected(Result<ConnectionHandle, String>),
    /// A list query gave the persons, in the order of the server, or failed.
    Listed(Result<Vec<PersonRecord>, String>),
    /// An insert, update or delete statement went through or failed.
    Written(Result<(), String>),
}

impl View for Outcome {
    type V = OutcomeView;

    open spec fn view(&self) -> OutcomeView {
        match self {
            Outcome::Nothing => OutcomeView::Nothing,
            Outcome::Connected(Ok(handle)) => OutcomeView::Connected(Ok(*handle)),
            Outcome::Connected(Err(reason)) => OutcomeView::Connected(Err(reason@)),
            Outcome::Listed(Ok(persons)) => OutcomeView::Listed(Some(views_of(persons@))),
            Outcome::Listed(Err(_)) => OutcomeView::Listed(None),
            Outcome::Written(result) => OutcomeView::Written(result is Ok),
        }
    }
}

} // verus!
