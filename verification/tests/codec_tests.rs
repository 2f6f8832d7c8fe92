use excelsior_core::codec::excel_col_to_index;
use excelsior_core::codec::expand_column_selector;
use excelsior_core::codec::index_to_excel_col;
use excelsior_core::codec::normalize_column_letter;
use excelsior_core::errors::AddressError;

#[test]
fn round_trip_first_ten_thousand() {
    for i in 0..10000usize {
        let letters = index_to_excel_col(i);
        assert_eq!(excel_col_to_index(&letters), Ok(i));
    }
}

#[test]
fn boundary_letters() {
    assert_eq!(index_to_excel_col(0), "A");
    assert_eq!(index_to_excel_col(25), "Z");
    assert_eq!(index_to_excel_col(26), "AA");
    assert_eq!(index_to_excel_col(701), "ZZ");
    assert_eq!(index_to_excel_col(702), "AAA");
}

#[test]
fn decode_boundary_letters() {
    assert_eq!(excel_col_to_index("A"), Ok(0));
    assert_eq!(excel_col_to_index("Z"), Ok(25));
    assert_eq!(excel_col_to_index("AA"), Ok(26));
    assert_eq!(excel_col_to_index("ZZ"), Ok(701));
    assert_eq!(excel_col_to_index("AAA"), Ok(702));
}

#[test]
fn decode_is_case_insensitive() {
    assert_eq!(excel_col_to_index("b"), excel_col_to_index("B"));
    assert_eq!(excel_col_to_index("azx"), excel_col_to_index("AZX"));
}

#[test]
fn decode_trims_surrounding_whitespace() {
    assert_eq!(excel_col_to_index("  c\t"), Ok(2));
}

#[test]
fn invalid_columns_are_rejected() {
    assert_eq!(excel_col_to_index(""), Err(AddressError::InvalidColumn));
    assert_eq!(excel_col_to_index("1A"), Err(AddressError::InvalidColumn));
    assert_eq!(excel_col_to_index(" "), Err(AddressError::InvalidColumn));
    assert_eq!(excel_col_to_index("A B"), Err(AddressError::InvalidColumn));
}

#[test]
fn normalize_column_upper_cases_and_trims() {
    assert_eq!(normalize_column_letter(" ab "), Ok("AB".to_owned()));
    assert_eq!(normalize_column_letter("Q"), Ok("Q".to_owned()));
    assert_eq!(normalize_column_letter("a1"), Err(AddressError::InvalidColumn));
    assert_eq!(normalize_column_letter(""), Err(AddressError::InvalidColumn));
}

#[test]
fn range_expansion() {
    let cols = expand_column_selector("B:D").unwrap();
    assert_eq!(cols, vec!["B".to_owned(), "C".to_owned(), "D".to_owned()]);
    assert_eq!(expand_column_selector("D:B"), Err(AddressError::InvalidRange));
}

#[test]
fn range_expansion_crosses_letter_boundary() {
    let cols = expand_column_selector("y:ab").unwrap();
    assert_eq!(
        cols,
        vec!["Y".to_owned(), "Z".to_owned(), "AA".to_owned(), "AB".to_owned()]
    );
}

#[test]
fn range_ends_are_trimmed_individually() {
    let cols = expand_column_selector(" b : d ").unwrap();
    assert_eq!(cols, vec!["B".to_owned(), "C".to_owned(), "D".to_owned()]);
}

#[test]
fn single_selector_expands_to_itself() {
    assert_eq!(expand_column_selector(" e "), Ok(vec!["E".to_owned()]));
}

#[test]
fn bad_range_ends_are_invalid_columns() {
    assert_eq!(expand_column_selector("B:1"), Err(AddressError::InvalidColumn));
    assert_eq!(expand_column_selector(":B"), Err(AddressError::InvalidColumn));
    assert_eq!(expand_column_selector("A:B:C"), Err(AddressError::InvalidColumn));
}

#[test]
fn address_error_messages() {
    assert_eq!(AddressError::InvalidColumn.message(), "Invalid Excel column");
    assert_eq!(AddressError::InvalidRange.message(), "Invalid column range");
}
