//! What a button of the form shows.

use crate::command::ButtonType;
use vstd::prelude::*;

verus! {

/// How much a button stands out.
#[derive(Clone, Copy, Debug, PartialEq, Eq, Structural)]
pub enum ButtonVariant {
    Primary,
    Secondary,
    Neutral,
}

/// The colours of the palette that buttons use, by name.
#[derive(Clone, Copy, Debug, PartialEq, Eq, Structural)]
pub enum PaletteColor {
    ButtonPanel,
    Button,
    ButtonHover,
    Primary,
    PrimaryDark,
    White,
}

/// The three colours of a button.
#[derive(Clone, Copy, Debug, PartialEq, Eq, Structural)]
pub struct ButtonStyle {
    pub bg: PaletteColor,
    pub text_color: PaletteColor,
    pub hover_color: PaletteColor,
}

impl ButtonVariant {
    /// The colours in which a button of this variant is drawn.
    pub open spec fn style(self) -> ButtonStyle {
        match self {
            ButtonVariant::Neutral => ButtonStyle {
                bg: PaletteColor::ButtonPanel,
                text_color: PaletteColor::White,
                hover_color: PaletteColor::ButtonHover,
            },
            ButtonVariant::Primary => ButtonStyle {
                bg: PaletteColor::Primary,
                text_color: PaletteColor::White,
                hover_color: PaletteColor::PrimaryDark,
            },
            ButtonVariant::Secondary => ButtonStyle {
                bg: PaletteColor::Button,
                text_color: PaletteColor::Primary,
                hover_color: PaletteColor::ButtonHover,
            },
        }
    }
}

/// A button as a mathematical value.
pub struct ButtonView {
    pub text: Seq<char>,
    pub variant: ButtonVariant,
}

/// What a button of the form holds: its text and its variant.
#[derive(Clone, Debug, PartialEq, Eq)]
pub struct Button {
    text: String,
    variant: ButtonVariant,
}

impl View for Button {
    type V = ButtonView;

    closed spec fn view(&self) -> ButtonView {
        ButtonView { text: self.text@, variant: self.variant }
    }
}

impl Button {
    /// The button for `button_type`, labelled with its text.
    pub fn new(button_type: ButtonType, variant: ButtonVariant) -> (button: Self)
        ensures
            button@ == (ButtonView { text: button_type.label_text(), variant }),
    {
        Button { text: Button::get_label(&button_type), variant }
    }

    /// The text on the button for `button_type`.
    pub fn get_label(button_type: &ButtonType) -> (text: String)
        ensures
            text@ == button_type.label_text(),
    {
        button_type.label().to_owned()
    }

    /// The colours in which this button is drawn.
    pub fn get_variant_style(&self) -> (style: ButtonStyle)
        ensures
            style == self@.variant.style(),
    {
        match self.variant {
            ButtonVariant::Neutral => ButtonStyle {
                bg: PaletteColor::ButtonPanel,
                text_color: PaletteColor::White,
                hover_color: PaletteColor::ButtonHover,
            },
            ButtonVariant::Primary => ButtonStyle {
                bg: PaletteColor::Primary,
                text_color: PaletteColor::White,
                hover_color: PaletteColor::PrimaryDark,
            },
            ButtonVariant::Secondary => ButtonStyle {
                bg: PaletteColor::Button,
                text_color: PaletteColor::Primary,
                hover_color: PaletteColor::ButtonHover,
            },
        }
    }

    /// The text on this button.
    pub fn text(&self) -> (text: &str)
        ensures
            text@ == self@.text,
    {
        self.text.as_str()
    }
}

} // verus!
