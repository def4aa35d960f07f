//! Person records as the server returns them, and the draft that the form edits.

use crate::keys::same_text;
use vstd::prelude::*;

verus! {

/// The kind of person that a record describes.
#[derive(Clone, Copy, Debug, PartialEq, Eq, Structural)]
pub enum PersonType {
    Employee,
    Customer,
    Visitor,
    Other,
}

/// What a person is allowed to enter.
#[derive(Clone, Copy, Debug, PartialEq, Eq, Structural)]
pub enum AccessLevel {
    Employee,
    Guest,
}

impl PersonType {
    /// The text under which this kind is stored.
    pub open spec fn label_text(self) -> Seq<char> {
        match self {
            PersonType::Employee => "employee"@,
            PersonType::Customer => "customer"@,
            PersonType::Visitor => "visitor"@,
            PersonType::Other => "other"@,
        }
    }

    /// The kind that `text` names, if it names one.
    pub open spec fn named_by(text: Seq<char>) -> Option<PersonType> {
        if text == "employee"@ {
            Some(PersonType::Employee)
        } else if text == "customer"@ {
            Some(PersonType::Customer)
        } else if text == "visitor"@ {
            Some(PersonType::Visitor)
        } else if text == "other"@ {
            Some(PersonType::Other)
        } else {
            None
        }
    }

    /// Computes [`PersonType::label_text`].
    pub fn label(self) -> (text: &'static str)
        ensures
            text@ == self.label_text(),
    {
        match self {
            PersonType::Employee => "employee",
            PersonType::Customer => "customer",
            PersonType::Visitor => "visitor",
            PersonType::Other => "other",
        }
    }

    /// Computes [`PersonType::named_by`].
    pub fn from_label(text: &str) -> (kind: Option<PersonType>)
        ensures
            kind == PersonType::named_by(text@),
    {
        if same_text(text, "employee") {
            Some(PersonType::Employee)
        } else if same_text(text, "customer") {
            Some(PersonType::Customer)
        } else if same_text(text, "visitor") {
            Some(PersonType::Visitor)
        } else if same_text(text, "other") {
            Some(PersonType::Other)
        } else {
            None
        }
    }

    /// Every kind is named by its own label, and by no other text.
    pub proof fn label_round_trip(self, text: Seq<char>)
        ensures
            PersonType::named_by(self.label_text()) == Some(self),
            PersonType::named_by(text) == Some(self) <==> text == self.label_text(),
    {
        reveal_strlit("employee");
        reveal_strlit("customer");
        reveal_strlit("visitor");
        reveal_strlit("other");
        assert("employee"@[0] == 'e');
        assert("customer"@[0] == 'c');
        assert("visitor"@[0] == 'v');
        assert("other"@[0] == 'o');
    }
}

impl AccessLevel {
    /// The text under which this level is stored.
    pub open spec fn label_text(self) -> Seq<char> {
        match self {
            AccessLevel::Employee => "employee"@,
            AccessLevel::Guest => "guest"@,
        }
    }

    /// The level that `text` names, if it names one.
    pub open spec fn named_by(text: Seq<char>) -> Option<AccessLevel> {
        if text == "employee"@ {
            Some(AccessLevel::Employee)
        } else if text == "guest"@ {
            Some(AccessLevel::Guest)
        } else {
            None
        }
    }

    /// Computes [`AccessLevel::label_text`].
    pub fn label(self) -> (text: &'static str)
        ensures
            text@ == self.label_text(),
    {
        match self {
            AccessLevel::Employee => "employee",
            AccessLevel::Guest => "guest",
        }
    }

    /// Computes [`AccessLevel::named_by`].
    pub fn from_label(text: &str) -> (level: Option<AccessLevel>)
        ensures
            level == AccessLevel::named_by(text@),
    {
        if same_text(text, "employee") {
            Some(AccessLevel::Employee)
        } else if same_text(text, "guest") {
            Some(AccessLevel::Guest)
        } else {
            None
        }
    }

    /// Every level is named by its own label, and by no other text.
    pub proof fn label_round_trip(self, text: Seq<char>)
        ensures
            AccessLevel::named_by(self.label_text()) == Some(self),
            AccessLevel::named_by(text) == Some(self) <==> text == self.label_text(),
    {
        reveal_strlit("employee");
        reveal_strlit("guest");
        assert("employee"@[0] == 'e');
        assert("guest"@[0] == 'g');
    }
}

/// A person record as a mathematical value.
pub struct PersonView {
    pub id: i64,
    pub full_name: Seq<char>,
    pub person_type: PersonType,
    pub access_level: AccessLevel,
}

/// A person as the server holds it. The server assigns `id`; a record is
/// never changed in place.
#[derive(Debug, PartialEq, Eq)]
pub struct PersonRecord {
    pub id: i64,
    pub full_name: String,
    pub person_type: PersonType,
    pub access_level: AccessLevel,
}

impl View for PersonRecord {
    type V = PersonView;

    open spec fn view(&self) -> PersonView {
        PersonView {
            id: self.id,
            full_name: self.full_name@,
            person_type: self.person_type,
            access_level: self.access_level,
        }
    }
}

impl Clone for PersonRecord {
    fn clone(&self) -> (copy: Self)
        ensures
            copy@ == self@,
    {
        PersonRecord {
            id: self.id,
            full_name: self.full_name.clone(),
            person_type: self.person_type,
            access_level: self.access_level,
        }
    }
}

/// The row that the two stored labels and the other columns stand for, if
/// both labels are known.
pub open spec fn row_view(
    id: i64,
    full_name: Seq<char>,
    person_type: Seq<char>,
    access_level: Seq<char>,
) -> Option<PersonView> {
    if PersonType::named_by(person_type) is Some && AccessLevel::named_by(access_level) is Some {
        Some(
            PersonView {
                id,
                full_name,
                person_type: PersonType::named_by(person_type)->0,
                access_level: AccessLevel::named_by(access_level)->0,
            },
        )
    } else {
        None
    }
}

impl PersonRecord {
    /// Builds a record from the columns of one stored row. A row whose kind
    /// or level is not one of the known labels gives no record.
    pub fn from_row(id: i64, full_name: String, person_type: &str, access_level: &str) -> (record:
        Option<PersonRecord>)
        ensures
            record is Some <==> row_view(id, full_name@, person_type@, access_level@) is Some,
            record is Some ==> Some(record->0@) == row_view(
                id,
                full_name@,
                person_type@,
                access_level@,
            ),
    {
        match (PersonType::from_label(person_type), AccessLevel::from_label(access_level)) {
            (Some(kind), Some(level)) => Some(
                PersonRecord { id, full_name, person_type: kind, access_level: level },
            ),
            _ => None,
        }
    }
}

/// The views of a list of records, in the same order.
pub open spec fn views_of(records: Seq<PersonRecord>) -> Seq<PersonView> {
    records.map_values(|r: PersonRecord| r@)
}

/// Whether some record of the list has this id.
pub open spec fn holds_id(records: Seq<PersonView>, id: i64) -> bool {
    exists|i: int| 0 <= i < records.len() && #[trigger] records[i].id == id
}

/// Tells whether some record of the list has this id.
pub fn contains_id(records: &Vec<PersonRecord>, id: i64) -> (found: bool)
    ensures
        found == holds_id(views_of(records@), id),
{
    let mut i: usize = 0;
    while i < records.len()
        invariant
            i <= records.len(),
            forall|j: int| 0 <= j < i ==> #[trigger] views_of(records@)[j].id != id,
        decreases records.len() - i,
    {
        if records[i].id == id {
            assert(views_of(records@)[i as int].id == id);
            return true;
        }
        i += 1;
    }
    false
}

/// One of the three fields of a draft.
#[derive(Clone, Copy, Debug, PartialEq, Eq, Structural)]
pub enum DraftField {
    FullName,
    PersonType,
    AccessLevel,
}

/// A draft as a mathematical value.
pub struct DraftView {
    pub full_name: Seq<char>,
    pub person_type: PersonType,
    pub access_level: AccessLevel,
}

impl DraftView {
    /// The draft that an untouched form holds: no name, an employee with an
    /// employee's access.
    pub open spec fn blank() -> DraftView {
        DraftView {
            full_name: Seq::empty(),
            person_type: PersonType::Employee,
            access_level: AccessLevel::Employee,
        }
    }

    /// The draft that mirrors a record: its three editable fields.
    pub open spec fn of_record(record: PersonView) -> DraftView {
        DraftView {
            full_name: record.full_name,
            person_type: record.person_type,
            access_level: record.access_level,
        }
    }

    /// Whether `value` may be stored in `field`: any text is a name, and the
    /// two selectors take the labels of their own set only.
    pub open spec fn accepts(field: DraftField, value: Seq<char>) -> bool {
        match field {
            DraftField::FullName => true,
            DraftField::PersonType => PersonType::named_by(value) is Some,
            DraftField::AccessLevel => AccessLevel::named_by(value) is Some,
        }
    }

    /// The draft with `value` stored in `field`, the other two fields kept;
    /// the draft itself where the field does not accept the value.
    pub open spec fn with_field(self, field: DraftField, value: Seq<char>) -> DraftView {
        if !DraftView::accepts(field, value) {
            self
        } else {
            match field {
                DraftField::FullName => DraftView { full_name: value, ..self },
                DraftField::PersonType => DraftView {
                    person_type: PersonType::named_by(value)->0,
                    ..self
                },
                DraftField::AccessLevel => DraftView {
                    access_level: AccessLevel::named_by(value)->0,
                    ..self
                },
            }
        }
    }
}

/// The unsaved values of the form. One draft serves both for a new person
/// and for changes to an existing one.
#[derive(Debug, PartialEq, Eq)]
pub struct PersonDraft {
    pub full_name: String,
    pub person_type: PersonType,
    pub access_level: AccessLevel,
}

impl View for PersonDraft {
    type V = DraftView;

    open spec fn view(&self) -> DraftView {
        DraftView {
            full_name: self.full_name@,
            person_type: self.person_type,
            access_level: self.access_level,
        }
    }
}

impl Clone for PersonDraft {
    fn clone(&self) -> (copy: Self)
        ensures
            copy@ == self@,
    {
        PersonDraft {
            full_name: self.full_name.clone(),
            person_type: self.person_type,
            access_level: self.access_level,
        }
    }
}

impl Default for PersonDraft {
    fn default() -> (draft: Self)
        ensures
            draft@ == DraftView::blank(),
    {
        PersonDraft {
            full_name: String::new(),
            person_type: PersonType::Employee,
            access_level: AccessLevel::Employee,
        }
    }
}

impl PersonDraft {
    /// The draft that mirrors `record`.
    pub fn from_record(record: &PersonRecord) -> (draft: Self)
        ensures
            draft@ == DraftView::of_record(record@),
    {
        PersonDraft {
            full_name: record.full_name.clone(),
            person_type: record.person_type,
            access_level: record.access_level,
        }
    }

    /// Stores `value` in `field` if the field accepts it, and says whether
    /// it did. The other two fields are never touched.
    pub fn update_field(&mut self, field: DraftField, value: &str) -> (accepted: bool)
        ensures
            accepted == DraftView::accepts(field, value@),
            final(self)@ == old(self)@.with_field(field, value@),
    {
        match field {
            DraftField::FullName => {
                self.full_name = value.to_owned();
                true
            },
            DraftField::PersonType => match PersonType::from_label(value) {
                Some(kind) => {
                    self.person_type = kind;
                    true
                },
                None => false,
            },
            DraftField::AccessLevel => match AccessLevel::from_label(value) {
                Some(level) => {
                    self.access_level = level;
                    true
                },
                None => false,
            },
        }
    }
}

} // verus!
