//! A text value bundled with the verdict of a validation predicate, and the
//! description of how such an input is to be painted.

use vstd::prelude::*;

verus! {

/// A text together with the verdict a predicate gave on it.
#[derive(Debug, Clone)]
pub enum Input {
    Valid(String),
    Invalid(String),
}

impl Input {
    /// The text that was entered, whatever the verdict on it.
    pub open spec fn text(self) -> Seq<char> {
        match self {
            Input::Valid(v) => v@,
            Input::Invalid(v) => v@,
        }
    }

    /// Whether the predicate accepted the text.
    pub open spec fn valid(self) -> bool {
        self is Valid
    }

    /// Runs `validation` on `input` once and files the text under its verdict.
    pub fn new(input: String, validation: impl Fn(&str) -> bool) -> (r: Self)
        requires
            forall|s: &str| s@ == input@ ==> call_requires(validation, (s,)),
        ensures
            r.text() == input@,
            exists|s: &str| s@ == input@ && call_ensures(validation, (s,), r.valid()),
    {
        if validation(input.as_str()) {
            Input::Valid(input)
        } else {
            Input::Invalid(input)
        }
    }

    /// The text of an input that is known to be valid.
    pub fn unwrap_valid(&self) -> (r: &str)
        requires
            self.valid(),
        ensures
            r@ == self.text(),
    {
        match self {
            Input::Valid(v) => v.as_str(),
            Input::Invalid(_) => unreached(),
        }
    }

    /// The text, whatever the verdict on it.
    pub fn as_str(&self) -> (r: &str)
        ensures
            r@ == self.text(),
    {
        match self {
            Input::Valid(v) => v.as_str(),
            Input::Invalid(v) => v.as_str(),
        }
    }

    /// Whether the predicate accepted the text.
    pub fn is_valid(&self) -> (r: bool)
        ensures
            r == self.valid(),
    {
        match self {
            Input::Valid(_) => true,
            Input::Invalid(_) => false,
        }
    }

    /// The style that paints this input according to its verdict.
    pub fn style(&self) -> (r: TextInputValidation)
        ensures
            r.0 == self.valid(),
    {
        TextInputValidation(self.is_valid())
    }
}

/// A colour named by its role in the theme's palette; the front end looks
/// the actual colour up.
#[derive(Debug, Clone, Copy, PartialEq, Eq, Structural)]
pub enum PaletteColor {
    BackgroundBase,
    BackgroundBaseText,
    BackgroundStrong,
    DangerBase,
    PrimaryStrong,
    PrimaryWeak,
}

/// How a text input is painted in one of its states. Lengths are in whole
/// pixels.
#[derive(Debug, Clone, Copy, PartialEq, Eq, Structural)]
pub struct Appearance {
    pub background: PaletteColor,
    pub border_radius: u8,
    pub border_width: u8,
    pub border_color: PaletteColor,
}

/// The style of a text input, chosen by whether its content is valid.
#[derive(Debug, Clone, Copy)]
pub struct TextInputValidation(pub bool);

impl TextInputValidation {
    /// The fill: the base colour behind a valid input, the danger colour
    /// behind an invalid one.
    pub open spec fn background(self) -> PaletteColor {
        if self.0 {
            PaletteColor::BackgroundBase
        } else {
            PaletteColor::DangerBase
        }
    }

    /// The frame shared by all states: rounded by two pixels, one pixel
    /// wide, filled according to the verdict, and edged in `border_color`.
    pub open spec fn framed(self, border_color: PaletteColor) -> Appearance {
        Appearance {
            background: self.background(),
            border_radius: 2,
            border_width: 1,
            border_color,
        }
    }

    /// The input at rest.
    pub fn active(&self) -> (r: Appearance)
        ensures
            r == self.framed(PaletteColor::BackgroundStrong),
    {
        Appearance {
            background: if self.0 {
                PaletteColor::BackgroundBase
            } else {
                PaletteColor::DangerBase
            },
            border_radius: 2,
            border_width: 1,
            border_color: PaletteColor::BackgroundStrong,
        }
    }

    /// The input under the pointer.
    pub fn hovered(&self) -> (r: Appearance)
        ensures
            r == self.framed(PaletteColor::BackgroundBaseText),
    {
        Appearance {
            background: if self.0 {
                PaletteColor::BackgroundBase
            } else {
                PaletteColor::DangerBase
            },
            border_radius: 2,
            border_width: 1,
            border_color: PaletteColor::BackgroundBaseText,
        }
    }

    /// The input that holds the keyboard focus.
    pub fn focused(&self) -> (r: Appearance)
        ensures
            r == self.framed(PaletteColor::PrimaryStrong),
    {
        Appearance {
            background: if self.0 {
                PaletteColor::BackgroundBase
            } else {
                PaletteColor::DangerBase
            },
            border_radius: 2,
            border_width: 1,
            border_color: PaletteColor::PrimaryStrong,
        }
    }

    /// The colour of the hint shown in an empty input.
    pub fn placeholder_color(&self) -> (r: PaletteColor)
        ensures
            r == PaletteColor::BackgroundStrong,
    {
        PaletteColor::BackgroundStrong
    }

    /// The colour of the text.
    pub fn value_color(&self) -> (r: PaletteColor)
        ensures
            r == PaletteColor::BackgroundBaseText,
    {
        PaletteColor::BackgroundBaseText
    }

    /// The colour behind selected text.
    pub fn selection_color(&self) -> (r: PaletteColor)
        ensures
            r == PaletteColor::PrimaryWeak,
    {
        PaletteColor::PrimaryWeak
    }
}

} // verus!
