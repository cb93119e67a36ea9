use seven_guis::temp_conv::{Conversion, Message, TempConv};

#[test]
fn converter_starts_empty_and_valid() {
    for form in [TempConv::new(), TempConv::default()] {
        assert_eq!(form.celsius.as_str(), "");
        assert_eq!(form.fahrenheit.as_str(), "");
        assert!(form.celsius.is_valid());
        assert!(form.fahrenheit.is_valid());
    }
}

#[test]
fn converter_number_in_celsius_calls_for_fahrenheit() {
    let mut form = TempConv::new();
    let due = form.update(Message::Celsius(String::from("100")));
    assert_eq!(due, Some(Conversion::CelsiusToFahrenheit));
    assert_eq!(form.celsius.as_str(), "100");
    assert!(form.celsius.is_valid());
    assert_eq!(form.fahrenheit.as_str(), "");
    form.converted(Conversion::CelsiusToFahrenheit, String::from("212"));
    assert_eq!(form.celsius.as_str(), "100");
    assert_eq!(form.fahrenheit.as_str(), "212");
    assert!(form.fahrenheit.is_valid());
}

#[test]
fn converter_number_in_fahrenheit_calls_for_celsius() {
    let mut form = TempConv::new();
    let due = form.update(Message::Fahrenheit(String::from("-40")));
    assert_eq!(due, Some(Conversion::FahrenheitToCelsius));
    assert_eq!(form.fahrenheit.as_str(), "-40");
    assert!(form.fahrenheit.is_valid());
    assert_eq!(form.celsius.as_str(), "");
    form.converted(Conversion::FahrenheitToCelsius, String::from("-40"));
    assert_eq!(form.celsius.as_str(), "-40");
    assert!(form.celsius.is_valid());
    assert_eq!(form.fahrenheit.as_str(), "-40");
}

#[test]
fn converter_bad_celsius_keeps_fahrenheit() {
    let mut form = TempConv::new();
    form.update(Message::Celsius(String::from("100")));
    form.converted(Conversion::CelsiusToFahrenheit, String::from("212"));
    let due = form.update(Message::Celsius(String::from("100x")));
    assert_eq!(due, None);
    assert_eq!(form.celsius.as_str(), "100x");
    assert!(!form.celsius.is_valid());
    assert_eq!(form.fahrenheit.as_str(), "212");
    assert!(form.fahrenheit.is_valid());
}

#[test]
fn converter_bad_fahrenheit_keeps_celsius() {
    let mut form = TempConv::new();
    form.update(Message::Fahrenheit(String::from("32")));
    form.converted(Conversion::FahrenheitToCelsius, String::from("0"));
    let due = form.update(Message::Fahrenheit(String::from("thirty-two")));
    assert_eq!(due, None);
    assert_eq!(form.fahrenheit.as_str(), "thirty-two");
    assert!(!form.fahrenheit.is_valid());
    assert_eq!(form.celsius.as_str(), "0");
    assert!(form.celsius.is_valid());
}

#[test]
fn converter_emptied_field_is_valid_and_converts_nothing() {
    let mut form = TempConv::new();
    form.update(Message::Celsius(String::from("5")));
    form.converted(Conversion::CelsiusToFahrenheit, String::from("41"));
    let due = form.update(Message::Celsius(String::new()));
    assert_eq!(due, None);
    assert_eq!(form.celsius.as_str(), "");
    assert!(form.celsius.is_valid());
    assert_eq!(form.fahrenheit.as_str(), "41");
    let due = form.update(Message::Fahrenheit(String::new()));
    assert_eq!(due, None);
    assert!(form.fahrenheit.is_valid());
    assert_eq!(form.fahrenheit.as_str(), "");
}

#[test]
fn converter_same_edit_twice_changes_nothing() {
    let mut form = TempConv::new();
    form.update(Message::Fahrenheit(String::from("50")));
    form.converted(Conversion::FahrenheitToCelsius, String::from("10"));
    for text in ["36.6", "warm", ""] {
        let first = form.update(Message::Celsius(String::from(text)));
        let (celsius, valid) = (form.celsius.as_str().to_string(), form.celsius.is_valid());
        let fahrenheit = form.fahrenheit.as_str().to_string();
        let second = form.update(Message::Celsius(String::from(text)));
        assert_eq!(first, second);
        assert_eq!(form.celsius.as_str(), celsius);
        assert_eq!(form.celsius.is_valid(), valid);
        assert_eq!(form.fahrenheit.as_str(), fahrenheit);
    }
}

#[test]
fn converter_judges_the_converted_text_too() {
    let mut form = TempConv::new();
    form.converted(Conversion::CelsiusToFahrenheit, String::from("212"));
    assert!(form.fahrenheit.is_valid());
    form.converted(Conversion::FahrenheitToCelsius, String::from("-0"));
    assert!(form.celsius.is_valid());
    form.converted(Conversion::CelsiusToFahrenheit, String::from("inf"));
    assert!(!form.fahrenheit.is_valid());
    assert_eq!(form.fahrenheit.as_str(), "inf");
    form.converted(Conversion::FahrenheitToCelsius, String::from("NaN"));
    assert!(!form.celsius.is_valid());
    assert_eq!(form.celsius.as_str(), "NaN");
    assert_eq!(form.fahrenheit.as_str(), "inf");
}

#[test]
fn converter_decimals_and_exponents_call_for_conversion() {
    let mut form = TempConv::new();
    for text in ["1e2", "-.5", "+7.", "36.6", "-40", "1E-3"] {
        assert_eq!(
            form.update(Message::Celsius(String::from(text))),
            Some(Conversion::CelsiusToFahrenheit),
            "{text:?}"
        );
        assert!(form.celsius.is_valid(), "{text:?}");
        assert_eq!(
            form.update(Message::Fahrenheit(String::from(text))),
            Some(Conversion::FahrenheitToCelsius),
            "{text:?}"
        );
        assert!(form.fahrenheit.is_valid(), "{text:?}");
    }
}

#[test]
fn converter_words_for_infinity_and_not_a_number_are_invalid() {
    for text in ["NaN", "nan", "inf", "-inf", "Infinity", "-Infinity"] {
        let mut form = TempConv::new();
        form.update(Message::Celsius(String::from("100")));
        form.converted(Conversion::CelsiusToFahrenheit, String::from("212"));
        let due = form.update(Message::Celsius(String::from(text)));
        assert_eq!(due, None, "{text:?}");
        assert_eq!(form.celsius.as_str(), text);
        assert!(!form.celsius.is_valid(), "{text:?}");
        assert_eq!(form.fahrenheit.as_str(), "212");
        assert!(form.fahrenheit.is_valid());

        let due = form.update(Message::Fahrenheit(String::from(text)));
        assert_eq!(due, None, "{text:?}");
        assert_eq!(form.fahrenheit.as_str(), text);
        assert!(!form.fahrenheit.is_valid(), "{text:?}");
        assert_eq!(form.celsius.as_str(), text);
    }
}

#[test]
fn converter_not_a_number_after_a_hundred_keeps_the_conversion() {
    let mut form = TempConv::new();
    form.update(Message::Celsius(String::from("100")));
    form.converted(Conversion::CelsiusToFahrenheit, String::from("212"));
    let due = form.update(Message::Celsius(String::from("NaN")));
    assert_eq!(due, None);
    assert_eq!(form.celsius.as_str(), "NaN");
    assert!(!form.celsius.is_valid());
    assert_eq!(form.fahrenheit.as_str(), "212");
    assert!(form.fahrenheit.is_valid());
}
