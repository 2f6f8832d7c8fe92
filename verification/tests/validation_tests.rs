use excelsior_core::errors::OpenError;
use excelsior_core::errors::ValidationError;
use excelsior_core::escape::xml_escape_attr;
use excelsior_core::validate::normalize_sheet_name;
use excelsior_core::validate::select_sheet;
use excelsior_core::validate::validate_width;

#[test]
fn empty_sheet_name_is_rejected() {
    assert_eq!(normalize_sheet_name(""), Err(ValidationError::EmptyName));
    assert_eq!(normalize_sheet_name("   "), Err(ValidationError::EmptyName));
}

#[test]
fn long_sheet_name_is_rejected() {
    let name = "AAAAAAAAAAAAAAAAAAAAAAAAAAAAAAAA";
    assert_eq!(name.len(), 32);
    assert_eq!(normalize_sheet_name(name), Err(ValidationError::NameTooLong));
    let name = "AAAAAAAAAAAAAAAAAAAAAAAAAAAAAAA";
    assert_eq!(name.len(), 31);
    assert_eq!(normalize_sheet_name(name), Ok(name.to_owned()));
}

#[test]
fn forbidden_characters_are_rejected() {
    assert_eq!(
        normalize_sheet_name("Sales/Q1"),
        Err(ValidationError::ForbiddenCharacters)
    );
    for bad in ["a:b", "a\\b", "a?b", "a*b", "a[b", "a]b"] {
        assert_eq!(
            normalize_sheet_name(bad),
            Err(ValidationError::ForbiddenCharacters)
        );
    }
}

#[test]
fn sheet_name_is_trimmed() {
    assert_eq!(normalize_sheet_name("  Sales Q1  "), Ok("Sales Q1".to_owned()));
}

#[test]
fn out_of_range_widths_are_rejected() {
    for bad in [0.0f64, -5.0, 256.0, f64::NAN, f64::INFINITY, f64::NEG_INFINITY, -0.0] {
        assert_eq!(
            validate_width(bad.to_bits()),
            Err(ValidationError::InvalidWidth)
        );
    }
}

#[test]
fn in_range_widths_are_accepted() {
    for good in [255.0f64, 0.1, 1.0, 254.999] {
        assert_eq!(validate_width(good.to_bits()), Ok(good.to_bits()));
    }
}

#[test]
fn validation_error_messages() {
    assert_eq!(
        ValidationError::InvalidWidth.message(),
        "Column width must be in range (0, 255]"
    );
    assert_eq!(
        ValidationError::EmptyName.message(),
        "Sheet name cannot be empty"
    );
}

#[test]
fn escape_replaces_every_special_character() {
    assert_eq!(
        xml_escape_attr("a&b\"c<d>e'f"),
        "a&amp;b&quot;c&lt;d&gt;e&apos;f"
    );
    assert_eq!(xml_escape_attr("plain"), "plain");
    assert_eq!(xml_escape_attr(""), "");
}

#[test]
fn escape_is_not_idempotent() {
    assert_eq!(xml_escape_attr("A&B"), "A&amp;B");
    assert_eq!(xml_escape_attr("A&amp;B"), "A&amp;amp;B");
}

#[test]
fn select_sheet_validates_a_requested_name() {
    let available = vec!["First".to_owned(), "Second".to_owned()];
    assert_eq!(
        select_sheet(Some(" Data "), &available),
        Ok("Data".to_owned())
    );
    assert_eq!(
        select_sheet(Some(""), &available),
        Err(OpenError::InvalidName(ValidationError::EmptyName))
    );
}

#[test]
fn select_sheet_defaults_to_the_first_worksheet() {
    let available = vec!["First".to_owned(), "Second".to_owned()];
    assert_eq!(select_sheet(None, &available), Ok("First".to_owned()));
    let none: Vec<String> = Vec::new();
    assert_eq!(select_sheet(None, &none), Err(OpenError::NoWorksheets));
}
