use std::io::Cursor;
use std::io::Read;

use excelsior_core::errors::PackageError;
use excelsior_core::errors::ValidationError;
use excelsior_core::package::build_package_parts;
use excelsior_core::package::create_package_archive;
use excelsior_core::widths::plan_column_widths;
use excelsior_core::widths::SelectorWidthError;
use excelsior_core::errors::AddressError;

fn read_archive(bytes: Vec<u8>) -> Vec<(String, String)> {
    let mut archive = zip::ZipArchive::new(Cursor::new(bytes)).expect("archive should open");
    let mut entries = Vec::new();
    for i in 0..archive.len() {
        let mut file = archive.by_index(i).expect("entry should open");
        let mut content = String::new();
        file.read_to_string(&mut content).expect("entry should read");
        entries.push((file.name().to_owned(), content));
    }
    entries
}

#[test]
fn package_creation_end_to_end() {
    let bytes = create_package_archive("Report").expect("creation should succeed");
    let entries = read_archive(bytes);
    let names: Vec<&str> = entries.iter().map(|e| e.0.as_str()).collect();
    assert_eq!(
        names,
        vec![
            "[Content_Types].xml",
            "_rels/.rels",
            "xl/workbook.xml",
            "xl/_rels/workbook.xml.rels",
            "xl/worksheets/sheet1.xml",
            "xl/styles.xml",
        ]
    );
    let workbook = &entries[2].1;
    assert!(workbook.contains("<sheet name=\"Report\" sheetId=\"1\" r:id=\"rId1\"/>"));
    assert_eq!(workbook.matches("<sheet ").count(), 1);
    let worksheet = &entries[4].1;
    assert!(worksheet.contains("<dimension ref=\"A1\"/>"));
    assert!(worksheet.contains("<sheetData></sheetData>"));
    let styles = &entries[5].1;
    assert!(styles.contains("<fonts count=\"1\">"));
    assert!(styles.contains("<borders count=\"1\">"));
    assert!(styles.contains("<cellStyles count=\"1\">"));
    assert!(styles.contains("<cellStyle name=\"Normal\" xfId=\"0\" builtinId=\"0\"/>"));
}

#[test]
fn sheet_name_is_escaped_exactly_once() {
    let bytes = create_package_archive("A&B").expect("creation should succeed");
    let entries = read_archive(bytes);
    let workbook = &entries[2].1;
    assert!(workbook.contains("<sheet name=\"A&amp;B\""));
    assert!(!workbook.contains("&amp;amp;"));
}

#[test]
fn sheet_name_is_trimmed_before_embedding() {
    let bytes = create_package_archive("  Q1 Report ").expect("creation should succeed");
    let entries = read_archive(bytes);
    assert!(entries[2].1.contains("<sheet name=\"Q1 Report\""));
}

#[test]
fn invalid_names_are_rejected_before_any_archive_work() {
    assert_eq!(
        create_package_archive("  "),
        Err(PackageError::InvalidName(ValidationError::EmptyName))
    );
    assert_eq!(
        create_package_archive("AAAAAAAAAAAAAAAAAAAAAAAAAAAAAAAA"),
        Err(PackageError::InvalidName(ValidationError::NameTooLong))
    );
    assert_eq!(
        create_package_archive("a[b]"),
        Err(PackageError::InvalidName(ValidationError::ForbiddenCharacters))
    );
}

#[test]
fn parts_are_built_in_package_order() {
    let parts = build_package_parts("Sheet1");
    assert_eq!(parts.len(), 6);
    assert_eq!(parts[0].name, "[Content_Types].xml");
    assert_eq!(parts[1].name, "_rels/.rels");
    assert_eq!(parts[2].name, "xl/workbook.xml");
    assert_eq!(parts[3].name, "xl/_rels/workbook.xml.rels");
    assert_eq!(parts[4].name, "xl/worksheets/sheet1.xml");
    assert_eq!(parts[5].name, "xl/styles.xml");
    let workbook = String::from_utf8(parts[2].data.clone()).expect("workbook should be text");
    assert!(workbook.contains("<sheet name=\"Sheet1\" sheetId=\"1\" r:id=\"rId1\"/>"));
}

#[test]
fn width_plan_expands_selectors() {
    let w10 = 10.0f64.to_bits();
    let w20 = 20.5f64.to_bits();
    let pairs = vec![("B:D".to_owned(), w10), ("f".to_owned(), w20)];
    let plan = plan_column_widths(&pairs).expect("plan should succeed");
    assert_eq!(
        plan,
        vec![
            ("B".to_owned(), w10),
            ("C".to_owned(), w10),
            ("D".to_owned(), w10),
            ("F".to_owned(), w20),
        ]
    );
}

#[test]
fn width_plan_rejects_bad_pairs() {
    let good = 12.0f64.to_bits();
    let pairs = vec![("A".to_owned(), f64::NAN.to_bits())];
    assert_eq!(plan_column_widths(&pairs), Err(SelectorWidthError::Width));
    let pairs = vec![("A".to_owned(), good), ("7".to_owned(), good)];
    assert_eq!(
        plan_column_widths(&pairs),
        Err(SelectorWidthError::Address(AddressError::InvalidColumn))
    );
    let pairs = vec![("D:B".to_owned(), good)];
    assert_eq!(
        plan_column_widths(&pairs),
        Err(SelectorWidthError::Address(AddressError::InvalidRange))
    );
    let pairs = vec![("D:B".to_owned(), f64::INFINITY.to_bits())];
    assert_eq!(plan_column_widths(&pairs), Err(SelectorWidthError::Width));
}

#[test]
fn package_error_messages() {
    assert_eq!(
        PackageError::InvalidName(ValidationError::EmptyName).message(),
        "Sheet name cannot be empty"
    );
    assert_eq!(
        PackageError::IoFailure("disk full".to_owned()).message(),
        "disk full"
    );
}
