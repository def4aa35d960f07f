//! The persons as the server last listed them, and which of them is selected.

use crate::person::{contains_id, holds_id, views_of, PersonRecord, PersonView};
use vstd::prelude::*;

verus! {

/// A roster as a mathematical value.
pub struct RosterView {
    pub persons: Seq<PersonView>,
    pub selected_person_id: Option<i64>,
}

impl RosterView {
    /// A selected id is the id of a listed person.
    pub open spec fn wf(self) -> bool {
        self.selected_person_id is Some ==> holds_id(self.persons, self.selected_person_id->0)
    }

    /// The roster after a new list has come in: the selection stays if the
    /// new list still holds it, and is dropped otherwise.
    pub open spec fn replaced(self, persons: Seq<PersonView>) -> RosterView {
        let listed = RosterView { persons, ..self };
        if listed.wf() {
            listed
        } else {
            RosterView { persons, selected_person_id: None }
        }
    }

    /// The roster with the person of this id selected, if it is listed;
    /// otherwise the roster itself.
    pub open spec fn selected(self, id: i64) -> RosterView {
        if holds_id(self.persons, id) {
            RosterView { selected_person_id: Some(id), ..self }
        } else {
            self
        }
    }
}

/// The list of persons, in the order in which the server gave them, with at
/// most one of them selected. Whatever is selected is in the list.
pub struct Roster {
    persons: Vec<PersonRecord>,
    selected_person_id: Option<i64>,
}

impl View for Roster {
    type V = RosterView;

    closed spec fn view(&self) -> RosterView {
        RosterView {
            persons: views_of(self.persons@),
            selected_person_id: self.selected_person_id,
        }
    }
}

impl Roster {
    #[verifier::type_invariant]
    pub open spec fn well_formed(&self) -> bool {
        self@.wf()
    }

    /// The empty roster.
    pub fn new() -> (roster: Self)
        ensures
            roster@ == (RosterView { persons: Seq::empty(), selected_person_id: None }),
    {
        let roster = Roster { persons: Vec::new(), selected_person_id: None };
        assert(roster@.persons =~= Seq::empty());
        roster
    }

    /// The listed persons.
    pub fn persons(&self) -> (persons: &Vec<PersonRecord>)
        ensures
            views_of(persons@) == self@.persons,
    {
        &self.persons
    }

    /// The id of the selected person, if one is selected.
    pub fn selected_person_id(&self) -> (id: Option<i64>)
        ensures
            id == self@.selected_person_id,
            self@.wf(),
    {
        proof {
            use_type_invariant(self);
        }
        self.selected_person_id
    }

    /// Puts a new list in place of the old one and says whether the
    /// selection survived: it does if nothing was selected or the new list
    /// still holds the selected id.
    pub fn replace(&mut self, persons: Vec<PersonRecord>) -> (kept: bool)
        ensures
            final(self)@ == old(self)@.replaced(views_of(persons@)),
            kept == (final(self)@.selected_person_id == old(self)@.selected_person_id),
    {
        let kept = match self.selected_person_id {
            Some(id) => contains_id(&persons, id),
            None => true,
        };
        if !kept {
            self.selected_person_id = None;
        }
        self.persons = persons;
        kept
    }

    /// Selects the person of this id, if it is listed, and says whether it
    /// is.
    pub fn select(&mut self, id: i64) -> (listed: bool)
        ensures
            listed == holds_id(old(self)@.persons, id),
            final(self)@ == old(self)@.selected(id),
    {
        if contains_id(&self.persons, id) {
            self.selected_person_id = Some(id);
            true
        } else {
            false
        }
    }

    /// Selects nothing.
    pub fn deselect(&mut self)
        ensures
            final(self)@ == (RosterView { selected_person_id: None, ..old(self)@ }),
    {
        self.selected_person_id = None;
    }
}

} // verus!
