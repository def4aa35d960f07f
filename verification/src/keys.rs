//! Symbolic key names and how a raw key event is read.

use vstd::prelude::*;

verus! {

/// What one raw key event means to a text field.
#[derive(Clone, Copy, Debug, PartialEq, Eq, Structural)]
pub enum Keystroke {
    /// Remove the last character.
    Backspace,
    /// Append a literal space.
    Space,
    /// Confirm the field and give up the focus.
    Enter,
    /// Append this character.
    Character(char),
    /// Anything else: a named key or a composed sequence, which is dropped.
    Ignored,
}

/// A character that may be typed into a field: the printable part of ASCII,
/// from the space up to the tilde.
pub open spec fn is_printable(c: char) -> bool {
    ' ' <= c <= '~'
}

/// A key event that stands for exactly one printable character.
pub open spec fn is_character_key(key: Seq<char>) -> bool {
    key.len() == 1 && is_printable(key[0])
}

/// The meaning of a raw key event. The three named keys are looked at
/// first, in this order; only then may the event count as a character.
pub open spec fn read_keystroke(key: Seq<char>) -> Keystroke {
    if key == "backspace"@ {
        Keystroke::Backspace
    } else if key == "space"@ {
        Keystroke::Space
    } else if key == "enter"@ {
        Keystroke::Enter
    } else if is_character_key(key) {
        Keystroke::Character(key[0])
    } else {
        Keystroke::Ignored
    }
}

/// Tells whether two string slices hold the same characters.
pub fn same_text(a: &str, b: &str) -> (same: bool)
    ensures
        same == (a@ == b@),
{
    a.to_owned() == b.to_owned()
}

/// Tells whether `c` is printable.
pub fn printable(c: char) -> (yes: bool)
    ensures
        yes == is_printable(c),
{
    ' ' <= c && c <= '~'
}

/// Reads a raw key event.
pub fn keystroke(key: &str) -> (stroke: Keystroke)
    ensures
        stroke == read_keystroke(key@),
{
    if same_text(key, "backspace") {
        Keystroke::Backspace
    } else if same_text(key, "space") {
        Keystroke::Space
    } else if same_text(key, "enter") {
        Keystroke::Enter
    } else if key.unicode_len() == 1 {
        let c = key.get_char(0);
        if printable(c) {
            Keystroke::Character(c)
        } else {
            Keystroke::Ignored
        }
    } else {
        Keystroke::Ignored
    }
}

/// A decimal digit.
pub open spec fn is_digit(c: char) -> bool {
    '0' <= c <= '9'
}

/// The number that a run of decimal digits writes.
pub open spec fn decimal_value(digits: Seq<char>) -> nat
    decreases digits.len(),
{
    if digits.len() == 0 {
        0
    } else {
        (decimal_value(digits.drop_last()) * 10 + (digits.last() as nat - '0' as nat)) as nat
    }
}

/// A key event that writes a number from 0 to 255: an optional plus sign,
/// then one or more decimal digits and nothing else.
pub open spec fn is_small_number(key: Seq<char>) -> bool {
    let digits = if key.len() > 0 && key[0] == '+' {
        key.drop_first()
    } else {
        key
    };
    &&& digits.len() > 0
    &&& forall|i: int| 0 <= i < digits.len() ==> is_digit(#[trigger] digits[i])
    &&& decimal_value(digits) <= 255
}

/// `str::parse::<u8>` from the standard library, asked only whether it
/// succeeds. It does so exactly on an optional plus sign followed by one or
/// more decimal digits whose value fits in a `u8`; an empty text, any other
/// character and a larger value are errors.
#[verifier::external_body]
fn parses_as_u8(key: &str) -> (parsed: bool)
    ensures
        parsed == is_small_number(key@),
{
    key.parse::<u8>().is_ok()
}

/// What a key event asks for when no field has the focus.
#[derive(Clone, Copy, Debug, PartialEq, Eq, Structural)]
pub enum Shortcut {
    /// Open the form that registers a person.
    Register,
    /// Open the settings.
    Settings,
}

/// The shortcut that a key event stands for: `enter` and any small number
/// open the registration form, `s` opens the settings.
pub open spec fn read_shortcut(key: Seq<char>) -> Option<Shortcut> {
    if key == "enter"@ {
        Some(Shortcut::Register)
    } else if key == "s"@ {
        Some(Shortcut::Settings)
    } else if is_small_number(key) {
        Some(Shortcut::Register)
    } else {
        None
    }
}

/// Computes [`read_shortcut`].
pub fn shortcut(key: &str) -> (found: Option<Shortcut>)
    ensures
        found == read_shortcut(key@),
{
    if same_text(key, "enter") {
        Some(Shortcut::Register)
    } else if same_text(key, "s") {
        Some(Shortcut::Settings)
    } else if parses_as_u8(key) {
        Some(Shortcut::Register)
    } else {
        None
    }
}

} // verus!
