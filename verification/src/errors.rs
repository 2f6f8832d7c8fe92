//! Error kinds reported by the column codec, the validators and the
//! package assembler. Each failure is a typed value; `message` renders a
//! human-readable description.

use vstd::prelude::*;

verus! {

/// Failure of column-selector parsing.
#[derive(Clone, Copy, Debug, PartialEq, Eq, Structural)]
pub enum AddressError {
    /// The selector text is empty or holds a non-letter character after
    /// trimming, or names a column too large for this machine's indices.
    InvalidColumn,
    /// A range's start column sorts after its end column.
    InvalidRange,
}

impl AddressError {
    /// A human-readable description of the failure.
    pub fn message(&self) -> (r: String)
        ensures
            r@ == match *self {
                AddressError::InvalidColumn => "Invalid Excel column"@,
                AddressError::InvalidRange => "Invalid column range"@,
            },
    {
        match self {
            AddressError::InvalidColumn => "Invalid Excel column".to_owned(),
            AddressError::InvalidRange => "Invalid column range".to_owned(),
        }
    }
}

/// Failure of sheet-name or column-width validation.
#[derive(Clone, Copy, Debug, PartialEq, Eq, Structural)]
pub enum ValidationError {
    /// The sheet name is empty after trimming.
    EmptyName,
    /// The sheet name is longer than 31 characters after trimming.
    NameTooLong,
    /// The sheet name holds one of the forbidden characters.
    ForbiddenCharacters,
    /// The column width is not a finite value in (0, 255].
    InvalidWidth,
}

impl ValidationError {
    /// A human-readable description of the failure.
    pub fn message(&self) -> (r: String)
        ensures
            r@ == match *self {
                ValidationError::EmptyName => "Sheet name cannot be empty"@,
                ValidationError::NameTooLong => "Sheet name cannot be longer than 31 characters"@,
                ValidationError::ForbiddenCharacters => "Sheet name contains forbidden Excel characters (: \\ / ? * [ ])"@,
                ValidationError::InvalidWidth => "Column width must be in range (0, 255]"@,
            },
    {
        match self {
            ValidationError::EmptyName => "Sheet name cannot be empty".to_owned(),
            ValidationError::NameTooLong => {
                "Sheet name cannot be longer than 31 characters".to_owned()
            },
            ValidationError::ForbiddenCharacters => {
                "Sheet name contains forbidden Excel characters (: \\ / ? * [ ])".to_owned()
            },
            ValidationError::InvalidWidth => "Column width must be in range (0, 255]".to_owned(),
        }
    }
}

/// Failure of choosing the worksheet an editing session starts on.
#[derive(Clone, Copy, Debug, PartialEq, Eq, Structural)]
pub enum OpenError {
    /// The requested sheet name failed validation.
    InvalidName(ValidationError),
    /// No name was requested and the workbook holds no worksheets.
    NoWorksheets,
}

impl OpenError {
    /// A human-readable description of the failure.
    pub fn message(&self) -> (r: String)
        ensures
            r@ == match *self {
                OpenError::InvalidName(ValidationError::EmptyName) => "Sheet name cannot be empty"@,
                OpenError::InvalidName(ValidationError::NameTooLong) => "Sheet name cannot be longer than 31 characters"@,
                OpenError::InvalidName(ValidationError::ForbiddenCharacters) => "Sheet name contains forbidden Excel characters (: \\ / ? * [ ])"@,
                OpenError::InvalidName(ValidationError::InvalidWidth) => "Column width must be in range (0, 255]"@,
                OpenError::NoWorksheets => "Workbook contains no worksheets"@,
            },
    {
        match self {
            OpenError::InvalidName(e) => e.message(),
            OpenError::NoWorksheets => "Workbook contains no worksheets".to_owned(),
        }
    }
}

/// Failure of package assembly.
#[derive(Debug, PartialEq, Eq)]
pub enum PackageError {
    /// The requested sheet name failed validation.
    InvalidName(ValidationError),
    /// The archive writer failed; the payload carries the lower-level cause.
    IoFailure(String),
}

impl PackageError {
    /// A human-readable description of the failure.
    pub fn message(&self) -> (r: String)
        ensures
            r@ == match *self {
                PackageError::InvalidName(ValidationError::EmptyName) => "Sheet name cannot be empty"@,
                PackageError::InvalidName(ValidationError::NameTooLong) => "Sheet name cannot be longer than 31 characters"@,
                PackageError::InvalidName(ValidationError::ForbiddenCharacters) => "Sheet name contains forbidden Excel characters (: \\ / ? * [ ])"@,
                PackageError::InvalidName(ValidationError::InvalidWidth) => "Column width must be in range (0, 255]"@,
                PackageError::IoFailure(s) => s@,
            },
    {
        match self {
            PackageError::InvalidName(e) => e.message(),
            PackageError::IoFailure(s) => s.clone(),
        }
    }
}

} // verus!
