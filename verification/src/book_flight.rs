//! The flight booker: a kind of flight, two dates, and a booking that can
//! be made once both dates are valid.

use crate::date_text::{is_date_text, today, validate_date_str, DATE_FORMAT};
use crate::text_input::Input;
use vstd::prelude::*;
use vstd::string::StringExecFns;

verus! {

/// What the user can do to the form.
#[derive(Debug, Clone)]
pub enum Message {
    FlightTypeSelected(FlightType),
    FromTextInput(String),
    ToTextInput(String),
    ButtonPressed,
}

/// The kinds of flight.
#[derive(Debug, Clone, Copy, PartialEq, Eq, Structural)]
pub enum FlightType {
    OneWay,
    Return,
}

impl FlightType {
    /// The kinds of flight on offer, in the order they are listed.
    pub const ALL: [FlightType; 2] = [FlightType::OneWay, FlightType::Return];

    /// The kind of flight in words.
    pub open spec fn spec_label(self) -> Seq<char> {
        match self {
            FlightType::OneWay => "one-way flight"@,
            FlightType::Return => "return flight"@,
        }
    }

    /// The kind of flight in words.
    pub fn label(&self) -> (r: &'static str)
        ensures
            r@ == self.spec_label(),
    {
        match self {
            FlightType::OneWay => "one-way flight",
            FlightType::Return => "return flight",
        }
    }
}

impl Default for FlightType {
    fn default() -> (r: Self)
        ensures
            r == FlightType::OneWay,
    {
        FlightType::OneWay
    }
}

/// A booking that was made.
#[derive(Debug, Clone)]
pub struct Book {
    pub flight_type: FlightType,
    pub from: String,
    pub to: String,
}

impl Book {
    /// The confirmation: what was booked, from when to when.
    pub open spec fn spec_msg(self) -> Seq<char> {
        "booked a "@ + self.flight_type.spec_label() + " from "@ + self.from@ + " to "@ + self.to@
    }

    /// The confirmation shown for this booking.
    pub fn msg(&self) -> (r: String)
        ensures
            r@ == self.spec_msg(),
    {
        let mut text = String::from_str("booked a ");
        text.append(self.flight_type.label());
        text.append(" from ");
        text.append(self.from.as_str());
        text.append(" to ");
        text.append(self.to.as_str());
        text
    }
}

/// The form. Each date field carries the verdict on its own text.
#[derive(Debug, Clone)]
pub struct FlightBooker {
    pub flight_type: Option<FlightType>,
    pub from: Input,
    pub to: Input,
    pub booked: Option<Book>,
}

impl FlightBooker {
    /// Each date field is marked valid exactly when its text is a date.
    pub open spec fn wf(self) -> bool {
        &&& self.from.valid() == is_date_text(self.from.text())
        &&& self.to.valid() == is_date_text(self.to.text())
    }

    /// Whether a booking can be made: a kind of flight is selected and both
    /// date fields are marked valid.
    pub open spec fn submit_enabled(self) -> bool {
        self.flight_type is Some && self.from.valid() && self.to.valid()
    }

    /// Whether `after` is the form that `message` leaves behind. A selection
    /// replaces the kind of flight; an edit replaces one date field, judged
    /// anew; pressing the button records the booking. Nothing else changes.
    pub open spec fn steps_to(self, message: Message, after: FlightBooker) -> bool {
        match message {
            Message::FlightTypeSelected(v) => {
                &&& after.flight_type == Some(v)
                &&& after.from == self.from
                &&& after.to == self.to
                &&& after.booked == self.booked
            },
            Message::FromTextInput(v) => {
                &&& after.flight_type == self.flight_type
                &&& after.from.text() == v@
                &&& after.from.valid() == is_date_text(v@)
                &&& after.to == self.to
                &&& after.booked == self.booked
            },
            Message::ToTextInput(v) => {
                &&& after.flight_type == self.flight_type
                &&& after.from == self.from
                &&& after.to.text() == v@
                &&& after.to.valid() == is_date_text(v@)
                &&& after.booked == self.booked
            },
            Message::ButtonPressed => {
                &&& after.flight_type == self.flight_type
                &&& after.from == self.from
                &&& after.to == self.to
                &&& after.booked matches Some(book)
                &&& Some(book.flight_type) == self.flight_type
                &&& book.from@ == self.from.text()
                &&& book.to@ == self.to.text()
            },
        }
    }

    /// A one-way flight out and back today, nothing booked.
    pub fn new() -> (r: Self)
        ensures
            r.wf(),
            r.flight_type == Some(FlightType::OneWay),
            r.from.text() == r.to.text(),
            r.booked is None,
    {
        Self::with_date(today(DATE_FORMAT))
    }

    /// A one-way flight with `date` in both fields, nothing booked.
    pub fn with_date(date: String) -> (r: Self)
        ensures
            r.wf(),
            r.flight_type == Some(FlightType::OneWay),
            r.from.text() == date@,
            r.to.text() == date@,
            r.booked is None,
    {
        let to = Input::new(date.clone(), validate_date_str);
        let from = Input::new(date, validate_date_str);
        FlightBooker { flight_type: Some(FlightType::default()), from, to, booked: None }
    }

    /// Whether the button is enabled.
    pub fn can_book(&self) -> (r: bool)
        ensures
            r == self.submit_enabled(),
            self.wf() ==> r == (self.flight_type is Some && is_date_text(self.from.text())
                && is_date_text(self.to.text())),
    {
        self.flight_type.is_some() && self.from.is_valid() && self.to.is_valid()
    }

    /// Applies `message` to the form. The button can only be pressed while
    /// it is enabled.
    pub fn update(&mut self, message: Message)
        requires
            message is ButtonPressed ==> old(self).submit_enabled(),
        ensures
            old(self).steps_to(message, *final(self)),
            old(self).wf() ==> final(self).wf(),
    {
        match message {
            Message::FlightTypeSelected(v) => {
                self.flight_type = Some(v);
            },
            Message::FromTextInput(v) => {
                self.from = Input::new(v, validate_date_str);
            },
            Message::ToTextInput(v) => {
                self.to = Input::new(v, validate_date_str);
            },
            Message::ButtonPressed => {
                self.booked = Some(
                    Book {
                        flight_type: self.flight_type.unwrap(),
                        from: String::from_str(self.from.unwrap_valid()),
                        to: String::from_str(self.to.unwrap_valid()),
                    },
                );
            },
        }
    }
}

impl Default for FlightBooker {
    fn default() -> (r: Self)
        ensures
            r.wf(),
            r.flight_type == Some(FlightType::OneWay),
            r.from.text() == r.to.text(),
            r.booked is None,
    {
        FlightBooker::new()
    }
}

/// While either date field holds anything but a `DD.MM.YYYY` that names a
/// day of the calendar, the button is disabled.
pub proof fn lemma_bad_date_disables_submit(form: FlightBooker)
    requires
        form.wf(),
        !is_date_text(form.from.text()) || !is_date_text(form.to.text()),
    ensures
        !form.submit_enabled(),
{
}

/// Typing anything but a valid date into either field leaves the button
/// disabled, whatever the form held before.
pub proof fn lemma_bad_edit_disables_submit(form: FlightBooker, message: Message, after: FlightBooker)
    requires
        form.steps_to(message, after),
        match message {
            Message::FromTextInput(v) => !is_date_text(v@),
            Message::ToTextInput(v) => !is_date_text(v@),
            _ => false,
        },
    ensures
        !after.submit_enabled(),
{
}

/// Pressing the button confirms a flight of the selected kind between the
/// two texts on the form.
pub proof fn lemma_submit_confirms_the_form(form: FlightBooker, after: FlightBooker)
    requires
        form.flight_type is Some,
        form.steps_to(Message::ButtonPressed, after),
    ensures
        after.booked is Some,
        after.booked->0.spec_msg() == "booked a "@ + form.flight_type->0.spec_label() + " from "@
            + form.from.text() + " to "@ + form.to.text(),
{
}

} // verus!
