//! The temperature converter: two text fields, one per scale. An edit of
//! either field that leaves a number there calls for the other field to be
//! recomputed. The arithmetic on the numbers is the front end's; which
//! field changes, when, and what counts as valid is decided here.

use crate::number_text::{is_number, is_number_text};
use crate::text_input::Input;
use vstd::prelude::*;

verus! {

/// An edit of one of the two fields.
#[derive(Debug, Clone)]
pub enum Message {
    Celsius(String),
    Fahrenheit(String),
}

/// A conversion that an edit calls for.
#[derive(Debug, Clone, Copy, PartialEq, Eq, Structural)]
pub enum Conversion {
    CelsiusToFahrenheit,
    FahrenheitToCelsius,
}

/// What a field may hold without complaint: nothing, or a real number.
pub open spec fn is_degree_text(s: Seq<char>) -> bool {
    s.len() == 0 || is_number_text(s)
}

/// Whether `degree` is empty or the text of a real number.
pub fn validate_input(degree: &str) -> (r: bool)
    ensures
        r == is_degree_text(degree@),
{
    degree.is_empty() || is_number(degree)
}

/// The conversion that `message` calls for: from the edited scale to the
/// other, if the text is a real number.
pub open spec fn conversion_due(message: Message) -> Option<Conversion> {
    match message {
        Message::Celsius(v) => if is_number_text(v@) {
            Some(Conversion::CelsiusToFahrenheit)
        } else {
            None
        },
        Message::Fahrenheit(v) => if is_number_text(v@) {
            Some(Conversion::FahrenheitToCelsius)
        } else {
            None
        },
    }
}

/// The two fields, each with the verdict on its own text.
#[derive(Debug, Clone)]
pub struct TempConv {
    pub celsius: Input,
    pub fahrenheit: Input,
}

impl TempConv {
    /// Each field is marked valid exactly when it is empty or a real
    /// number.
    pub open spec fn wf(self) -> bool {
        &&& self.celsius.valid() == is_degree_text(self.celsius.text())
        &&& self.fahrenheit.valid() == is_degree_text(self.fahrenheit.text())
    }

    /// Whether `after` is what the edit `message` leaves behind: the edited
    /// field holds the new text, judged anew, and the other field is
    /// untouched.
    pub open spec fn steps_to(self, message: Message, after: TempConv) -> bool {
        match message {
            Message::Celsius(v) => {
                &&& after.celsius.text() == v@
                &&& after.celsius.valid() == is_degree_text(v@)
                &&& after.fahrenheit == self.fahrenheit
            },
            Message::Fahrenheit(v) => {
                &&& after.fahrenheit.text() == v@
                &&& after.fahrenheit.valid() == is_degree_text(v@)
                &&& after.celsius == self.celsius
            },
        }
    }

    /// Whether `after` is what the result `text` of `conversion` leaves
    /// behind: the field converted to holds `text`, judged anew, and the
    /// field converted from is untouched.
    pub open spec fn shows(self, conversion: Conversion, text: Seq<char>, after: TempConv) -> bool {
        match conversion {
            Conversion::CelsiusToFahrenheit => {
                &&& after.fahrenheit.text() == text
                &&& after.fahrenheit.valid() == is_degree_text(text)
                &&& after.celsius == self.celsius
            },
            Conversion::FahrenheitToCelsius => {
                &&& after.celsius.text() == text
                &&& after.celsius.valid() == is_degree_text(text)
                &&& after.fahrenheit == self.fahrenheit
            },
        }
    }

    /// Two empty fields.
    pub fn new() -> (r: Self)
        ensures
            r.wf(),
            r.celsius.text().len() == 0,
            r.fahrenheit.text().len() == 0,
    {
        TempConv {
            celsius: Input::new(String::new(), validate_input),
            fahrenheit: Input::new(String::new(), validate_input),
        }
    }

    /// Takes an edit, and says which conversion it calls for, if any. The
    /// caller converts the number that was entered and hands the result to
    /// `converted`.
    pub fn update(&mut self, message: Message) -> (due: Option<Conversion>)
        ensures
            old(self).steps_to(message, *final(self)),
            due == conversion_due(message),
            old(self).wf() ==> final(self).wf(),
    {
        match message {
            Message::Celsius(v) => {
                let due = if is_number(v.as_str()) {
                    Some(Conversion::CelsiusToFahrenheit)
                } else {
                    None
                };
                self.celsius = Input::new(v, validate_input);
                due
            },
            Message::Fahrenheit(v) => {
                let due = if is_number(v.as_str()) {
                    Some(Conversion::FahrenheitToCelsius)
                } else {
                    None
                };
                self.fahrenheit = Input::new(v, validate_input);
                due
            },
        }
    }

    /// Puts the result of a conversion into the field converted to.
    pub fn converted(&mut self, conversion: Conversion, text: String)
        ensures
            old(self).shows(conversion, text@, *final(self)),
            old(self).wf() ==> final(self).wf(),
    {
        match conversion {
            Conversion::CelsiusToFahrenheit => {
                self.fahrenheit = Input::new(text, validate_input);
            },
            Conversion::FahrenheitToCelsius => {
                self.celsius = Input::new(text, validate_input);
            },
        }
    }
}

impl Default for TempConv {
    fn default() -> (r: Self)
        ensures
            r.wf(),
            r.celsius.text().len() == 0,
            r.fahrenheit.text().len() == 0,
    {
        TempConv::new()
    }
}

/// An edit that leaves a text in a field that is not empty and is no real
/// number, the words for infinity and for what is not a number among them,
/// marks that field invalid, calls for no conversion, and leaves the other
/// field as it was. An edit that empties a field does the same, but for
/// the mark: an empty field is valid.
pub proof fn lemma_bad_number_keeps_other_field(form: TempConv, message: Message, after: TempConv)
    requires
        form.steps_to(message, after),
        match message {
            Message::Celsius(v) => !is_number_text(v@),
            Message::Fahrenheit(v) => !is_number_text(v@),
        },
    ensures
        conversion_due(message) is None,
        match message {
            Message::Celsius(v) => {
                &&& after.celsius.valid() == (v@.len() == 0)
                &&& after.fahrenheit == form.fahrenheit
            },
            Message::Fahrenheit(v) => {
                &&& after.fahrenheit.valid() == (v@.len() == 0)
                &&& after.celsius == form.celsius
            },
        },
{
}

/// Entering the same text a second time changes nothing: both fields hold
/// the texts and verdicts that the first entry left.
pub proof fn lemma_repeated_edit_changes_nothing(
    form: TempConv,
    message: Message,
    once: TempConv,
    twice: TempConv,
)
    requires
        form.steps_to(message, once),
        once.steps_to(message, twice),
    ensures
        twice.celsius.text() == once.celsius.text(),
        twice.celsius.valid() == once.celsius.valid(),
        twice.fahrenheit.text() == once.fahrenheit.text(),
        twice.fahrenheit.valid() == once.fahrenheit.valid(),
{
}

} // verus!
