//! Top-level views and the logical keyboard focus.

use vstd::prelude::*;

verus! {

/// The top-level view that is currently shown.
#[derive(Clone, Copy, Debug, PartialEq, Eq, Structural)]
pub enum ActiveTab {
    Settings,
    Manage,
    Employees,
}

/// The form field that receives keystrokes, if any.
#[derive(Clone, Copy, Debug, PartialEq, Eq, Structural)]
pub enum FocusField {
    DbName,
    DbPassword,
    PersonName,
    Unfocused,
}

/// The focus that a switch to `tab` leaves behind: the person-name field on
/// the manage tab, nothing on every other tab.
pub open spec fn focus_on_entry(tab: ActiveTab) -> FocusField {
    if tab == ActiveTab::Manage {
        FocusField::PersonName
    } else {
        FocusField::Unfocused
    }
}

/// Computes [`focus_on_entry`].
pub fn entry_focus(tab: ActiveTab) -> (focus: FocusField)
    ensures
        focus == focus_on_entry(tab),
{
    match tab {
        ActiveTab::Manage => FocusField::PersonName,
        _ => FocusField::Unfocused,
    }
}

} // verus!
