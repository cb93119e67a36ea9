use seven_guis::text_input::{Appearance, Input, PaletteColor, TextInputValidation};

fn short(text: &str) -> bool {
    text.len() <= 3
}

#[test]
fn input_new_files_text_under_the_verdict() {
    let valid = Input::new(String::from("abc"), short);
    assert!(matches!(valid, Input::Valid(ref text) if text == "abc"));
    let invalid = Input::new(String::from("abcd"), short);
    assert!(matches!(invalid, Input::Invalid(ref text) if text == "abcd"));
}

#[test]
fn input_new_runs_the_predicate_on_the_text() {
    let seen = Input::new(String::from("needle"), |text: &str| text == "needle");
    assert!(seen.is_valid());
    let missed = Input::new(String::from("hay"), |text: &str| text == "needle");
    assert!(!missed.is_valid());
}

#[test]
fn input_new_accepts_empty_text() {
    let input = Input::new(String::new(), short);
    assert!(input.is_valid());
    assert_eq!(input.as_str(), "");
    assert_eq!(input.unwrap_valid(), "");
}

#[test]
fn input_as_str_gives_the_text_whatever_the_verdict() {
    assert_eq!(Input::Valid(String::from("yes")).as_str(), "yes");
    assert_eq!(Input::Invalid(String::from("no")).as_str(), "no");
}

#[test]
fn input_is_valid_follows_the_variant() {
    assert!(Input::Valid(String::from("x")).is_valid());
    assert!(!Input::Invalid(String::from("x")).is_valid());
}

#[test]
fn input_unwrap_valid_gives_the_text() {
    assert_eq!(Input::Valid(String::from("12.5")).unwrap_valid(), "12.5");
}

#[test]
fn input_style_carries_the_verdict() {
    assert!(Input::Valid(String::from("x")).style().0);
    assert!(!Input::Invalid(String::from("x")).style().0);
}

#[test]
fn input_clone_keeps_text_and_verdict() {
    let input = Input::Invalid(String::from("kept"));
    let copy = input.clone();
    assert!(!copy.is_valid());
    assert_eq!(copy.as_str(), "kept");
}

#[test]
fn style_active_frames_in_strong_background() {
    assert_eq!(
        TextInputValidation(true).active(),
        Appearance {
            background: PaletteColor::BackgroundBase,
            border_radius: 2,
            border_width: 1,
            border_color: PaletteColor::BackgroundStrong,
        }
    );
    assert_eq!(
        TextInputValidation(false).active(),
        Appearance {
            background: PaletteColor::DangerBase,
            border_radius: 2,
            border_width: 1,
            border_color: PaletteColor::BackgroundStrong,
        }
    );
}

#[test]
fn style_hovered_frames_in_text_colour() {
    assert_eq!(
        TextInputValidation(true).hovered(),
        Appearance {
            background: PaletteColor::BackgroundBase,
            border_radius: 2,
            border_width: 1,
            border_color: PaletteColor::BackgroundBaseText,
        }
    );
    assert_eq!(
        TextInputValidation(false).hovered(),
        Appearance {
            background: PaletteColor::DangerBase,
            border_radius: 2,
            border_width: 1,
            border_color: PaletteColor::BackgroundBaseText,
        }
    );
}

#[test]
fn style_focused_frames_in_strong_primary() {
    assert_eq!(
        TextInputValidation(true).focused(),
        Appearance {
            background: PaletteColor::BackgroundBase,
            border_radius: 2,
            border_width: 1,
            border_color: PaletteColor::PrimaryStrong,
        }
    );
    assert_eq!(
        TextInputValidation(false).focused(),
        Appearance {
            background: PaletteColor::DangerBase,
            border_radius: 2,
            border_width: 1,
            border_color: PaletteColor::PrimaryStrong,
        }
    );
}

#[test]
fn style_text_colours_do_not_depend_on_the_verdict() {
    for valid in [true, false] {
        let style = TextInputValidation(valid);
        assert_eq!(style.placeholder_color(), PaletteColor::BackgroundStrong);
        assert_eq!(style.value_color(), PaletteColor::BackgroundBaseText);
        assert_eq!(style.selection_color(), PaletteColor::PrimaryWeak);
    }
}
