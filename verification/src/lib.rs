//! Foundation layer for spreadsheet-package tooling: a bijective base-26
//! column-address codec, sheet-name and column-width validation, XML
//! attribute escaping, and the assembly of a minimal valid workbook package.

pub mod archive;
pub mod codec;
pub mod errors;
pub mod escape;
pub mod package;
pub mod text;
pub mod validate;
pub mod widths;
