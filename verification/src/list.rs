//! The panel that shows one line of text.

use vstd::prelude::*;

verus! {

/// The text panel of the employee list.
#[derive(Clone, Debug, PartialEq, Eq)]
pub struct List {
    value: String,
}

impl View for List {
    type V = Seq<char>;

    closed spec fn view(&self) -> Seq<char> {
        self.value@
    }
}

impl List {
    /// A panel that shows `value`.
    pub fn new(value: String) -> (list: Self)
        ensures
            list@ == value@,
    {
        List { value }
    }

    /// The text that the panel shows.
    pub fn value(&self) -> (text: &str)
        ensures
            text@ == self@,
    {
        self.value.as_str()
    }
}

} // verus!
