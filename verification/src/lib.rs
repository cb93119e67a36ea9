//! State and transitions of four small desktop exercises (a counter, a
//! temperature converter, a flight booker and a timer), together with the
//! validated text input they share. Nothing here draws a widget: every
//! transition is a function on plain values with a contract, so a front end
//! only has to forward events and paint what the state says.

pub mod book_flight;
pub mod chars;
pub mod counter;
pub mod date_text;
pub mod number_text;
pub mod temp_conv;
pub mod text_input;
pub mod timer;
