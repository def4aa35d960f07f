//! Controller logic for a person-registration desktop form.
//!
//! The controller owns the state of the form: the active tab, the keyboard
//! focus, the connection to the database, the listed persons and the draft
//! that is being edited. It does no outside work itself. An operation that
//! needs some hands out a [`command::Command`], and the outcome is reported
//! back to the controller when the work is done.

pub mod button;
pub mod command;
pub mod connection;
pub mod keys;
pub mod laws;
pub mod list;
pub mod logic;
pub mod model;
pub mod navigation;
pub mod person;
pub mod registration;
pub mod roster;
pub mod text_input;

pub use crate::button::{Button, ButtonStyle, ButtonVariant, PaletteColor};
pub use crate::command::{ButtonType, Command, Outcome, RegistrationEvent};
pub use crate::connection::{ConnectOptions, ConnectionHandle, ConnectionState};
pub use crate::keys::{Keystroke, Shortcut};
pub use crate::list::List;
pub use crate::logic::{Logic, Operation};
pub use crate::navigation::{ActiveTab, FocusField};
pub use crate::person::{AccessLevel, DraftField, PersonDraft, PersonRecord, PersonType};
pub use crate::registration::Registration;
pub use crate::roster::Roster;
pub use crate::text_input::TextInput;
