//! Validation of caller-supplied sheet names and column widths.

use vstd::prelude::*;
use vstd::string::StrSliceExecFns;

use crate::errors::OpenError;
use crate::errors::ValidationError;
use crate::text::trim_spec;
use crate::text::trimmed;

verus! {

/// The longest sheet name the format allows, in characters.
pub const MAX_SHEET_NAME_LEN: usize = 31;

/// The characters a sheet name may never hold: `: \ / ? * [ ]`.
pub open spec fn is_forbidden_char(c: char) -> bool {
    ||| c == ':'
    ||| c == '\\'
    ||| c == '/'
    ||| c == '?'
    ||| c == '*'
    ||| c == '['
    ||| c == ']'
}

/// Whether any forbidden character occurs in the sequence.
pub open spec fn has_forbidden_char(s: Seq<char>) -> bool {
    exists|i: int| 0 <= i < s.len() && is_forbidden_char(#[trigger] s[i])
}

/// A valid sheet name after trimming: non-empty, at most 31 characters,
/// no forbidden characters.
pub open spec fn valid_sheet_name(t: Seq<char>) -> bool {
    1 <= t.len() <= MAX_SHEET_NAME_LEN && !has_forbidden_char(t)
}

/// Validates a caller-supplied sheet name. The name is trimmed of
/// surrounding whitespace first; it must then be 1 to 31 characters long
/// and hold none of the forbidden characters. Each failure is reported as
/// its own kind, checked in that order.
pub fn normalize_sheet_name(sheet_name: &str) -> (r: Result<String, ValidationError>)
    ensures
        ({
            let t = trim_spec(sheet_name@);
            &&& ((r is Err && r->Err_0 == ValidationError::EmptyName) <==> t.len() == 0)
            &&& ((r is Err && r->Err_0 == ValidationError::NameTooLong) <==> t.len()
                > MAX_SHEET_NAME_LEN)
            &&& ((r is Err && r->Err_0 == ValidationError::ForbiddenCharacters) <==> (1 <= t.len()
                <= MAX_SHEET_NAME_LEN && has_forbidden_char(t)))
            &&& (r is Ok <==> valid_sheet_name(t))
            &&& (r is Ok ==> r->Ok_0@ == t)
        }),
{
    let t = trimmed(sheet_name);
    let len = t.as_str().unicode_len();
    if len == 0 {
        return Err(ValidationError::EmptyName);
    }
    if len > MAX_SHEET_NAME_LEN {
        return Err(ValidationError::NameTooLong);
    }
    let mut k: usize = 0;
    while k < len
        invariant
            t@ == trim_spec(sheet_name@),
            len == t@.len(),
            1 <= len <= MAX_SHEET_NAME_LEN,
            0 <= k <= len,
            forall|j: int| 0 <= j < k ==> !is_forbidden_char(#[trigger] t@[j]),
        decreases len - k,
    {
        let c = t.as_str().get_char(k);
        if c == ':' || c == '\\' || c == '/' || c == '?' || c == '*' || c == '[' || c == ']' {
            proof {
                assert(is_forbidden_char(t@[k as int]));
            }
            return Err(ValidationError::ForbiddenCharacters);
        }
        k = k + 1;
    }
    Ok(t)
}

/// Chooses the worksheet an editing session starts on: a requested name is
/// validated; with none requested, the first worksheet found in the
/// workbook is taken, and a workbook without worksheets is an error.
pub fn select_sheet(requested: Option<&str>, available: &Vec<String>) -> (r: Result<
    String,
    OpenError,
>)
    ensures
        match requested {
            Some(n) => {
                let t = trim_spec(n@);
                &&& (r is Ok <==> valid_sheet_name(t))
                &&& (r is Ok ==> r->Ok_0@ == t)
                &&& ((r is Err && r->Err_0 == (OpenError::InvalidName(ValidationError::EmptyName)))
                    <==> t.len() == 0)
                &&& ((r is Err && r->Err_0 == (OpenError::InvalidName(
                    ValidationError::NameTooLong,
                ))) <==> t.len() > MAX_SHEET_NAME_LEN)
                &&& ((r is Err && r->Err_0 == (OpenError::InvalidName(
                    ValidationError::ForbiddenCharacters,
                ))) <==> (1 <= t.len() <= MAX_SHEET_NAME_LEN && has_forbidden_char(t)))
            },
            None => {
                &&& (r is Ok <==> available@.len() > 0)
                &&& (r is Ok ==> r->Ok_0@ == available@[0]@)
                &&& (r is Err ==> r->Err_0 == OpenError::NoWorksheets)
            },
        },
{
    match requested {
        Some(name) => match normalize_sheet_name(name) {
            Ok(n) => Ok(n),
            Err(e) => Err(OpenError::InvalidName(e)),
        },
        None => {
            if available.len() > 0 {
                Ok(available[0].clone())
            } else {
                Err(OpenError::NoWorksheets)
            }
        },
    }
}

/// The IEEE 754 bit pattern of 255.0, the largest allowed column width.
pub const WIDTH_MAX_BITS: u64 = 0x406F_E000_0000_0000;

/// Whether a column width is allowed: a finite value in (0, 255]. The width
/// is given as the bit pattern of the caller's double-precision value
/// (`f64::to_bits`). The conditions read the IEEE 754 fields directly: the
/// sign bit is clear (not negative), the exponent is not all ones (neither
/// an infinity nor a NaN), the pattern is not zero, and it is at most the
/// pattern of 255.0 — non-negative doubles order as their bit patterns do.
pub open spec fn width_bits_valid(b: u64) -> bool {
    &&& b >> 63 == 0
    &&& (b >> 52) & 0x7FF != 0x7FF
    &&& b != 0
    &&& b <= WIDTH_MAX_BITS
}

/// Validates a column width given as the bit pattern of a double-precision
/// value: accepted exactly when the value is finite and in (0, 255]. No
/// clamping: an out-of-range request is rejected, never coerced.
pub fn validate_width(width_bits: u64) -> (r: Result<u64, ValidationError>)
    ensures
        r is Ok <==> width_bits_valid(width_bits),
        r is Ok ==> r->Ok_0 == width_bits,
        r is Err ==> r->Err_0 == ValidationError::InvalidWidth,
{
    if (width_bits >> 63) == 0 && ((width_bits >> 52) & 0x7FF) != 0x7FF && width_bits != 0
        && width_bits <= WIDTH_MAX_BITS {
        Ok(width_bits)
    } else {
        Err(ValidationError::InvalidWidth)
    }
}

} // verus!
