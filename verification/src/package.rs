//! Package bootstrap assembler: builds the six XML parts of a minimal
//! valid workbook package and assembles them into a compressed archive.

use vstd::prelude::*;
use vstd::string::StrSliceExecFns;
use vstd::string::StringExecFns;
use vstd::utf8::encode_utf8;

use crate::archive::archive_append_data;
use crate::archive::archive_encoding;
use crate::archive::archive_entries;
use crate::archive::archive_finish;
use crate::archive::archive_new;
use crate::archive::archive_open;
use crate::archive::archive_closed;
use crate::archive::archive_start_entry;
use crate::archive::zip_error_text;
use crate::errors::PackageError;
use crate::errors::ValidationError;
use crate::escape::xml_escape_attr;
use crate::escape::xml_escaped;
use crate::text::trim_spec;
use crate::validate::has_forbidden_char;
use crate::validate::normalize_sheet_name;
use crate::validate::valid_sheet_name;

verus! {

/// The content-types manifest: default types for `rels` and `xml`
/// extensions and overrides for the workbook, the worksheet and the styles
/// part.
pub open spec fn content_types_text() -> Seq<char> {
    "<?xml version=\"1.0\" encoding=\"UTF-8\" standalone=\"yes\"?>\n<Types xmlns=\"http://schemas.openxmlformats.org/package/2006/content-types\">\n  <Default Extension=\"rels\" ContentType=\"application/vnd.openxmlformats-package.relationships+xml\"/>\n  <Default Extension=\"xml\" ContentType=\"application/xml\"/>\n  <Override PartName=\"/xl/workbook.xml\" ContentType=\"application/vnd.openxmlformats-officedocument.spreadsheetml.sheet.main+xml\"/>\n  <Override PartName=\"/xl/worksheets/sheet1.xml\" ContentType=\"application/vnd.openxmlformats-officedocument.spreadsheetml.worksheet+xml\"/>\n  <Override PartName=\"/xl/styles.xml\" ContentType=\"application/vnd.openxmlformats-officedocument.spreadsheetml.styles+xml\"/>\n</Types>"@
}

/// The package-level relationship from the root to the workbook document.
pub open spec fn root_rels_text() -> Seq<char> {
    "<?xml version=\"1.0\" encoding=\"UTF-8\" standalone=\"yes\"?>\n<Relationships xmlns=\"http://schemas.openxmlformats.org/package/2006/relationships\">\n  <Relationship Id=\"rId1\" Type=\"http://schemas.openxmlformats.org/officeDocument/2006/relationships/officeDocument\" Target=\"xl/workbook.xml\"/>\n</Relationships>"@
}

/// The workbook document up to the sheet name's opening quote.
pub open spec fn workbook_prefix() -> Seq<char> {
    "<?xml version=\"1.0\" encoding=\"UTF-8\" standalone=\"yes\"?><workbook xmlns=\"http://schemas.openxmlformats.org/spreadsheetml/2006/main\" xmlns:r=\"http://schemas.openxmlformats.org/officeDocument/2006/relationships\"><sheets><sheet name=\""@
}

/// The workbook document after the sheet name: a fixed sheet identifier of
/// 1 and relationship id rId1.
pub open spec fn workbook_suffix() -> Seq<char> {
    "\" sheetId=\"1\" r:id=\"rId1\"/></sheets></workbook>"@
}

/// The workbook document declaring exactly one sheet under the given name;
/// the name is escaped exactly once.
pub open spec fn workbook_text(name: Seq<char>) -> Seq<char> {
    workbook_prefix() + xml_escaped(name) + workbook_suffix()
}

/// The workbook relationships: rId1 to the one worksheet, rId2 to the
/// styles part.
pub open spec fn workbook_rels_text() -> Seq<char> {
    "<?xml version=\"1.0\" encoding=\"UTF-8\" standalone=\"yes\"?>\n<Relationships xmlns=\"http://schemas.openxmlformats.org/package/2006/relationships\">\n  <Relationship Id=\"rId1\" Type=\"http://schemas.openxmlformats.org/officeDocument/2006/relationships/worksheet\" Target=\"worksheets/sheet1.xml\"/>\n  <Relationship Id=\"rId2\" Type=\"http://schemas.openxmlformats.org/officeDocument/2006/relationships/styles\" Target=\"styles.xml\"/>\n</Relationships>"@
}

/// The one worksheet: a dimension reference of A1 and no row data.
pub open spec fn worksheet_text() -> Seq<char> {
    "<?xml version=\"1.0\" encoding=\"UTF-8\" standalone=\"yes\"?>\n<worksheet xmlns=\"http://schemas.openxmlformats.org/spreadsheetml/2006/main\">\n  <dimension ref=\"A1\"/>\n  <sheetData></sheetData>\n</worksheet>"@
}

/// The minimal complete style table: one default font, the two standard
/// fills, one empty border, one cell-style format, one cell format, and
/// the one named cell style "Normal".
pub open spec fn styles_text() -> Seq<char> {
    "<?xml version=\"1.0\" encoding=\"UTF-8\" standalone=\"yes\"?>\n<styleSheet xmlns=\"http://schemas.openxmlformats.org/spreadsheetml/2006/main\">\n  <fonts count=\"1\">\n    <font>\n      <sz val=\"11\"/>\n      <color theme=\"1\"/>\n      <name val=\"Calibri\"/>\n      <family val=\"2\"/>\n    </font>\n  </fonts>\n  <fills count=\"2\">\n    <fill><patternFill patternType=\"none\"/></fill>\n    <fill><patternFill patternType=\"gray125\"/></fill>\n  </fills>\n  <borders count=\"1\">\n    <border>\n      <left/><right/><top/><bottom/><diagonal/>\n    </border>\n  </borders>\n  <cellStyleXfs count=\"1\">\n    <xf numFmtId=\"0\" fontId=\"0\" fillId=\"0\" borderId=\"0\"/>\n  </cellStyleXfs>\n  <cellXfs count=\"1\">\n    <xf numFmtId=\"0\" fontId=\"0\" fillId=\"0\" borderId=\"0\" xfId=\"0\"/>\n  </cellXfs>\n  <cellStyles count=\"1\">\n    <cellStyle name=\"Normal\" xfId=\"0\" builtinId=\"0\"/>\n  </cellStyles>\n</styleSheet>"@
}

/// A named entry of the package: an archive path and a byte payload.
pub struct PackagePart {
    /// The entry's path inside the archive.
    pub name: String,
    /// The entry's bytes.
    pub data: Vec<u8>,
}

impl View for PackagePart {
    type V = (Seq<char>, Seq<u8>);

    open spec fn view(&self) -> Self::V {
        (self.name@, self.data@)
    }
}

/// The six entries of a fresh package for a validated sheet name, in the
/// order they are written.
pub open spec fn package_entries(name: Seq<char>) -> Seq<(Seq<char>, Seq<u8>)> {
    seq![
        ("[Content_Types].xml"@, encode_utf8(content_types_text())),
        ("_rels/.rels"@, encode_utf8(root_rels_text())),
        ("xl/workbook.xml"@, encode_utf8(workbook_text(name))),
        ("xl/_rels/workbook.xml.rels"@, encode_utf8(workbook_rels_text())),
        ("xl/worksheets/sheet1.xml"@, encode_utf8(worksheet_text())),
        ("xl/styles.xml"@, encode_utf8(styles_text())),
    ]
}

/// Builds the six package parts for an already-validated sheet name. The
/// name is escaped exactly once, where it is embedded as the workbook
/// document's sheet-name attribute.
pub fn build_package_parts(sheet_name: &str) -> (parts: Vec<PackagePart>)
    ensures
        parts@.len() == 6,
        forall|i: int| 0 <= i < 6 ==> (#[trigger] parts@[i])@ == package_entries(sheet_name@)[i],
{
    let mut parts: Vec<PackagePart> = Vec::new();
    parts.push(
        PackagePart {
            name: "[Content_Types].xml".to_owned(),
            data:
                "<?xml version=\"1.0\" encoding=\"UTF-8\" standalone=\"yes\"?>\n<Types xmlns=\"http://schemas.openxmlformats.org/package/2006/content-types\">\n  <Default Extension=\"rels\" ContentType=\"application/vnd.openxmlformats-package.relationships+xml\"/>\n  <Default Extension=\"xml\" ContentType=\"application/xml\"/>\n  <Override PartName=\"/xl/workbook.xml\" ContentType=\"application/vnd.openxmlformats-officedocument.spreadsheetml.sheet.main+xml\"/>\n  <Override PartName=\"/xl/worksheets/sheet1.xml\" ContentType=\"application/vnd.openxmlformats-officedocument.spreadsheetml.worksheet+xml\"/>\n  <Override PartName=\"/xl/styles.xml\" ContentType=\"application/vnd.openxmlformats-officedocument.spreadsheetml.styles+xml\"/>\n</Types>".as_bytes_vec(),
        },
    );
    parts.push(
        PackagePart {
            name: "_rels/.rels".to_owned(),
            data:
                "<?xml version=\"1.0\" encoding=\"UTF-8\" standalone=\"yes\"?>\n<Relationships xmlns=\"http://schemas.openxmlformats.org/package/2006/relationships\">\n  <Relationship Id=\"rId1\" Type=\"http://schemas.openxmlformats.org/officeDocument/2006/relationships/officeDocument\" Target=\"xl/workbook.xml\"/>\n</Relationships>".as_bytes_vec(),
        },
    );
    let escaped = xml_escape_attr(sheet_name);
    let mut workbook = String::from_str(
        "<?xml version=\"1.0\" encoding=\"UTF-8\" standalone=\"yes\"?><workbook xmlns=\"http://schemas.openxmlformats.org/spreadsheetml/2006/main\" xmlns:r=\"http://schemas.openxmlformats.org/officeDocument/2006/relationships\"><sheets><sheet name=\"",
    );
    workbook.append(escaped.as_str());
    workbook.append("\" sheetId=\"1\" r:id=\"rId1\"/></sheets></workbook>");
    parts.push(
        PackagePart { name: "xl/workbook.xml".to_owned(), data: workbook.as_str().as_bytes_vec() },
    );
    parts.push(
        PackagePart {
            name: "xl/_rels/workbook.xml.rels".to_owned(),
            data:
                "<?xml version=\"1.0\" encoding=\"UTF-8\" standalone=\"yes\"?>\n<Relationships xmlns=\"http://schemas.openxmlformats.org/package/2006/relationships\">\n  <Relationship Id=\"rId1\" Type=\"http://schemas.openxmlformats.org/officeDocument/2006/relationships/worksheet\" Target=\"worksheets/sheet1.xml\"/>\n  <Relationship Id=\"rId2\" Type=\"http://schemas.openxmlformats.org/officeDocument/2006/relationships/styles\" Target=\"styles.xml\"/>\n</Relationships>".as_bytes_vec(),
        },
    );
    parts.push(
        PackagePart {
            name: "xl/worksheets/sheet1.xml".to_owned(),
            data:
                "<?xml version=\"1.0\" encoding=\"UTF-8\" standalone=\"yes\"?>\n<worksheet xmlns=\"http://schemas.openxmlformats.org/spreadsheetml/2006/main\">\n  <dimension ref=\"A1\"/>\n  <sheetData></sheetData>\n</worksheet>".as_bytes_vec(),
        },
    );
    parts.push(
        PackagePart {
            name: "xl/styles.xml".to_owned(),
            data:
                "<?xml version=\"1.0\" encoding=\"UTF-8\" standalone=\"yes\"?>\n<styleSheet xmlns=\"http://schemas.openxmlformats.org/spreadsheetml/2006/main\">\n  <fonts count=\"1\">\n    <font>\n      <sz val=\"11\"/>\n      <color theme=\"1\"/>\n      <name val=\"Calibri\"/>\n      <family val=\"2\"/>\n    </font>\n  </fonts>\n  <fills count=\"2\">\n    <fill><patternFill patternType=\"none\"/></fill>\n    <fill><patternFill patternType=\"gray125\"/></fill>\n  </fills>\n  <borders count=\"1\">\n    <border>\n      <left/><right/><top/><bottom/><diagonal/>\n    </border>\n  </borders>\n  <cellStyleXfs count=\"1\">\n    <xf numFmtId=\"0\" fontId=\"0\" fillId=\"0\" borderId=\"0\"/>\n  </cellStyleXfs>\n  <cellXfs count=\"1\">\n    <xf numFmtId=\"0\" fontId=\"0\" fillId=\"0\" borderId=\"0\" xfId=\"0\"/>\n  </cellXfs>\n  <cellStyles count=\"1\">\n    <cellStyle name=\"Normal\" xfId=\"0\" builtinId=\"0\"/>\n  </cellStyles>\n</styleSheet>".as_bytes_vec(),
        },
    );
    parts
}

/// Creates the bytes of a fresh package: validates the sheet name, builds
/// the six parts, and assembles the compressed archive in memory. A name
/// failing validation is rejected before any archive work begins; only an
/// archive-writer failure is reported as `IoFailure`.
pub fn create_package_archive(sheet_name: &str) -> (r: Result<Vec<u8>, PackageError>)
    ensures
        ({
            let t = trim_spec(sheet_name@);
            &&& ((r is Err && r->Err_0 == (PackageError::InvalidName(ValidationError::EmptyName)))
                <==> t.len() == 0)
            &&& ((r is Err && r->Err_0 == (PackageError::InvalidName(
                ValidationError::NameTooLong,
            ))) <==> t.len() > crate::validate::MAX_SHEET_NAME_LEN)
            &&& ((r is Err && r->Err_0 == (PackageError::InvalidName(
                ValidationError::ForbiddenCharacters,
            ))) <==> (1 <= t.len() <= crate::validate::MAX_SHEET_NAME_LEN && has_forbidden_char(t)))
            &&& ((r is Err && r->Err_0 is IoFailure) <==> (r is Err && valid_sheet_name(t)))
            &&& (r is Ok ==> valid_sheet_name(t) && r->Ok_0@ == archive_encoding(
                package_entries(t),
            ))
        }),
{
    let name = match normalize_sheet_name(sheet_name) {
        Ok(n) => n,
        Err(e) => {
            return Err(PackageError::InvalidName(e));
        },
    };
    let ghost t = trim_spec(sheet_name@);
    let parts = build_package_parts(name.as_str());
    let mut w = archive_new();
    let mut k: usize = 0;
    while k < 6
        invariant
            t == trim_spec(sheet_name@),
            valid_sheet_name(t),
            parts@.len() == 6,
            forall|i: int| 0 <= i < 6 ==> (#[trigger] parts@[i])@ == package_entries(t)[i],
            0 <= k <= 6,
            if k == 0 {
                archive_closed(w) == Seq::<(Seq<char>, Seq<u8>)>::empty() && archive_open(w)
                    is None
            } else {
                archive_closed(w) == package_entries(t).subrange(0, k - 1) && archive_open(w)
                    == Some(package_entries(t)[k - 1])
            },
        decreases 6 - k,
    {
        let part = &parts[k];
        proof {
            if k > 0 {
                assert(archive_entries(w) =~= package_entries(t).subrange(0, k as int));
            } else {
                assert(archive_entries(w) =~= package_entries(t).subrange(0, 0));
            }
        }
        match archive_start_entry(&mut w, part.name.as_str()) {
            Ok(u) => u,
            Err(e) => {
                return Err(PackageError::IoFailure(zip_error_text(&e)));
            },
        }
        match archive_append_data(&mut w, part.data.as_slice()) {
            Ok(u) => u,
            Err(e) => {
                return Err(PackageError::IoFailure(zip_error_text(&e)));
            },
        }
        proof {
            assert(archive_open(w) == Some(package_entries(t)[k as int]));
        }
        k = k + 1;
    }
    proof {
        assert(archive_entries(w) =~= package_entries(t));
    }
    match archive_finish(w) {
        Ok(bytes) => Ok(bytes),
        Err(e) => Err(PackageError::IoFailure(zip_error_text(&e))),
    }
}

} // verus!
