//! Single-keystroke editing of a text buffer, and how a field shows its value.

use crate::keys::{keystroke, read_keystroke, Keystroke};
use vstd::prelude::*;
use vstd::utf8::encode_utf8;

verus! {

/// The text that a buffer holds after one keystroke. Backspace on an empty
/// buffer, a confirmation and a dropped key leave it as it is.
pub open spec fn edit_text(text: Seq<char>, stroke: Keystroke) -> Seq<char> {
    match stroke {
        Keystroke::Backspace => if text.len() > 0 {
            text.drop_last()
        } else {
            text
        },
        Keystroke::Space => text.push(' '),
        Keystroke::Character(c) => text.push(c),
        Keystroke::Enter => text,
        Keystroke::Ignored => text,
    }
}

/// `String::pop` from the standard library: removes the last character and
/// returns it, or returns nothing and leaves an empty string empty.
#[verifier::external_body]
fn pop_char(text: &mut String) -> (popped: Option<char>)
    ensures
        old(text)@.len() == 0 ==> popped is None && final(text)@ == old(text)@,
        old(text)@.len() > 0 ==> popped == Some(old(text)@.last()) && final(text)@ == old(
            text,
        )@.drop_last(),
{
    text.pop()
}

/// Applies one raw key event to `buffer` and reports how the event was read.
pub fn apply_key(buffer: &mut String, key: &str) -> (stroke: Keystroke)
    ensures
        stroke == read_keystroke(key@),
        final(buffer)@ == edit_text(old(buffer)@, stroke),
{
    let stroke = keystroke(key);
    match stroke {
        Keystroke::Backspace => {
            let _ = pop_char(buffer);
        },
        Keystroke::Space => {
            proof {
                reveal_strlit(" ");
            }
            buffer.append(" ");
            assert(buffer@ =~= old(buffer)@.push(' '));
        },
        Keystroke::Character(c) => {
            buffer.append(key);
            assert(buffer@ =~= old(buffer)@.push(c));
        },
        Keystroke::Enter => {},
        Keystroke::Ignored => {},
    }
    stroke
}

/// A run of `n` asterisks.
pub open spec fn mask(n: nat) -> Seq<char> {
    Seq::new(n, |i: int| '*')
}

/// What a field shows for `value`: a password as one asterisk for each byte
/// of its UTF-8 encoding, an empty value as a single space so that the field
/// keeps its height, and any other value as it is.
pub open spec fn shown_text(value: Seq<char>, is_password: bool) -> Seq<char> {
    if is_password {
        mask(encode_utf8(value).len())
    } else if value.len() == 0 {
        seq![' ']
    } else {
        value
    }
}

/// Computes [`shown_text`].
pub fn display_value(value: &str, is_password: bool) -> (shown: String)
    ensures
        shown@ == shown_text(value@, is_password),
{
    if is_password {
        let n: usize = value.as_bytes().len();
        let mut stars = String::new();
        assert(stars@ =~= mask(0));
        let mut i: usize = 0;
        while i < n
            invariant
                i <= n,
                stars@ == mask(i as nat),
            decreases n - i,
        {
            proof {
                reveal_strlit("*");
            }
            stars.append("*");
            i += 1;
            assert(stars@ =~= mask(i as nat));
        }
        stars
    } else if value.is_empty() {
        proof {
            reveal_strlit(" ");
        }
        let shown = " ".to_owned();
        assert(shown@ =~= seq![' ']);
        shown
    } else {
        value.to_owned()
    }
}

/// A text field as a mathematical value.
pub struct TextInputView {
    pub label: Seq<char>,
    pub value: Seq<char>,
    pub is_focused: bool,
    pub is_password: bool,
}

/// What a text field of the form holds: its label, its value, and whether
/// it has the focus and hides what is typed.
#[derive(Clone, Debug, PartialEq, Eq)]
pub struct TextInput {
    label: String,
    value: String,
    is_focused: bool,
    is_password: bool,
}

impl View for TextInput {
    type V = TextInputView;

    closed spec fn view(&self) -> TextInputView {
        TextInputView {
            label: self.label@,
            value: self.value@,
            is_focused: self.is_focused,
            is_password: self.is_password,
        }
    }
}

impl TextInput {
    /// A field with this label and value, without the focus, that shows
    /// what is typed.
    pub fn new(label: &str, value: &str) -> (input: Self)
        ensures
            input@ == (TextInputView {
                label: label@,
                value: value@,
                is_focused: false,
                is_password: false,
            }),
    {
        TextInput {
            label: label.to_owned(),
            value: value.to_owned(),
            is_focused: false,
            is_password: false,
        }
    }

    /// The field with the focus set as given.
    pub fn focused(self, focused: bool) -> (input: Self)
        ensures
            input@ == (TextInputView { is_focused: focused, ..self@ }),
    {
        let mut input = self;
        input.is_focused = focused;
        input
    }

    /// The field hiding what is typed, or showing it, as given.
    pub fn password(self, is_password: bool) -> (input: Self)
        ensures
            input@ == (TextInputView { is_password, ..self@ }),
    {
        let mut input = self;
        input.is_password = is_password;
        input
    }

    /// The label above the field.
    pub fn label(&self) -> (text: &str)
        ensures
            text@ == self@.label,
    {
        self.label.as_str()
    }

    /// Whether the field has the focus.
    pub fn is_focused(&self) -> (focused: bool)
        ensures
            focused == self@.is_focused,
    {
        self.is_focused
    }

    /// What the field shows for its value.
    pub fn display_value(&self) -> (shown: String)
        ensures
            shown@ == shown_text(self@.value, self@.is_password),
    {
        display_value(self.value.as_str(), self.is_password)
    }
}

} // verus!
