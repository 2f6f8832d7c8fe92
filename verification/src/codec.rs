//! Column address codec: conversion between zero-based column indices and
//! spreadsheet column letters in the bijective base-26 numeral system
//! (`A` = 1, `Z` = 26, `AA` = 27 — there is no symbol for zero).

use vstd::prelude::*;
use vstd::string::StrSliceExecFns;

use crate::errors::AddressError;
use crate::text::is_lower_letter;
use crate::text::is_upper_letter;
use crate::text::is_wspace;
use crate::text::trim_spec;
use crate::text::trimmed;
use crate::text::upper_char;
use crate::text::upper_seq;

verus! {

/// The letter standing for digit `d` (zero-based): `0` is `A`, `25` is `Z`.
pub open spec fn letter_of(d: int) -> char
    recommends
        0 <= d < 26,
{
    ((65 + d) as u8) as char
}

/// The zero-based digit a letter stands for: `A` is `0`, `Z` is `25`.
pub open spec fn letter_index(c: char) -> int
    recommends
        is_upper_letter(c),
{
    (c as u32) - 65
}

/// The letters of the column whose one-based number is `n`, in the bijective
/// base-26 system; the empty sequence for `n <= 0`.
pub open spec fn col_letters(n: int) -> Seq<char>
    decreases n,
{
    if n <= 0 {
        Seq::empty()
    } else {
        col_letters((n - 1) / 26).push(letter_of((n - 1) % 26))
    }
}

/// The one-based column number a letter sequence stands for, accumulating
/// left to right with `A` = 1 .. `Z` = 26.
pub open spec fn col_number(s: Seq<char>) -> int
    decreases s.len(),
{
    if s.len() == 0 {
        0
    } else {
        col_number(s.drop_last()) * 26 + letter_index(s.last()) + 1
    }
}

/// A well-formed column-letter sequence: non-empty, ASCII upper-case letters
/// only.
pub open spec fn well_formed_letters(s: Seq<char>) -> bool {
    s.len() > 0 && forall|i: int| 0 <= i < s.len() ==> is_upper_letter(#[trigger] s[i])
}

/// The normalized form of free-form column text: trimmed, then upper-cased.
pub open spec fn normalized_letters(s: Seq<char>) -> Seq<char> {
    upper_seq(trim_spec(s))
}

/// Whether free-form column text decodes: its normalized form is well
/// formed and its column number fits a machine index.
pub open spec fn decode_ok(s: Seq<char>) -> bool {
    &&& well_formed_letters(normalized_letters(s))
    &&& col_number(normalized_letters(s)) <= usize::MAX
}

/// A sequence of upper-case letters has a non-negative column number, and a
/// positive one when it is non-empty.
proof fn lemma_col_number_nonneg(s: Seq<char>)
    requires
        forall|i: int| 0 <= i < s.len() ==> is_upper_letter(#[trigger] s[i]),
    ensures
        col_number(s) >= 0,
        s.len() > 0 ==> col_number(s) >= 1,
    decreases s.len(),
{
    if s.len() > 0 {
        lemma_col_number_nonneg(s.drop_last());
    }
}

/// Extending a sequence of upper-case letters never lowers its column
/// number.
proof fn lemma_col_number_monotone(s: Seq<char>, j: int)
    requires
        0 <= j <= s.len(),
        forall|i: int| 0 <= i < s.len() ==> is_upper_letter(#[trigger] s[i]),
    ensures
        col_number(s) >= col_number(s.subrange(0, j)),
    decreases s.len() - j,
{
    if j == s.len() {
        assert(s.subrange(0, j) =~= s);
    } else {
        let cur = s.subrange(0, j + 1);
        assert(cur.drop_last() =~= s.subrange(0, j));
        lemma_col_number_nonneg(s.subrange(0, j));
        lemma_col_number_monotone(s, j + 1);
    }
}

/// Law: the letters of any one-based column number are well formed and
/// decode back to that number. This is the round trip from index to letters
/// to index, stated over the spec functions the executable contracts use.
pub proof fn lemma_column_round_trip(n: int)
    requires
        1 <= n,
    ensures
        well_formed_letters(col_letters(n)),
        col_number(col_letters(n)) == n,
    decreases n,
{
    let m = (n - 1) / 26;
    let rem = (n - 1) % 26;
    vstd::arithmetic::div_mod::lemma_fundamental_div_mod(n - 1, 26);
    assert((((65 + rem) as u8) as char) as u32 == 65 + rem);
    let s = col_letters(n);
    assert(s == col_letters(m).push(letter_of(rem)));
    assert(s.last() == letter_of(rem));
    assert(s.drop_last() =~= col_letters(m));
    if m == 0 {
        assert(col_number(s) == col_number(s.drop_last()) * 26 + letter_index(s.last()) + 1);
    } else {
        lemma_column_round_trip(m);
    }
}

/// Law: well-formed column letters are reproduced exactly by encoding their
/// own column number; together with `lemma_column_round_trip` this makes the
/// letters-to-number correspondence a bijection.
pub proof fn lemma_letters_round_trip(s: Seq<char>)
    requires
        well_formed_letters(s),
    ensures
        1 <= col_number(s),
        col_letters(col_number(s)) == s,
    decreases s.len(),
{
    lemma_col_number_nonneg(s);
    let p = col_number(s.drop_last());
    let d = letter_index(s.last()) + 1;
    let n = col_number(s);
    lemma_col_number_nonneg(s.drop_last());
    vstd::arithmetic::div_mod::lemma_fundamental_div_mod_converse(n - 1, 26, p, d - 1);
    assert(col_letters(n) == col_letters(p).push(letter_of(d - 1)));
    assert((s.last() as u32) as u8 as char == s.last());
    assert(letter_of(d - 1) == s.last());
    if s.len() == 1 {
        assert(s.drop_last() =~= Seq::<char>::empty());
        assert(col_letters(n) =~= s);
    } else {
        lemma_letters_round_trip(s.drop_last());
        assert(col_letters(n) =~= s);
    }
}

/// Well-formed column letters are already normalized: trimming and
/// upper-casing leave them untouched.
pub proof fn lemma_letters_normalized(s: Seq<char>)
    requires
        forall|i: int| 0 <= i < s.len() ==> is_upper_letter(#[trigger] s[i]),
    ensures
        normalized_letters(s) == s,
{
    assert forall|i: int| 0 <= i < s.len() implies !is_wspace(#[trigger] s[i]) by {}
    assert forall|i: int| 0 <= i < s.len() implies !is_lower_letter(#[trigger] s[i]) by {}
    crate::text::lemma_trim_of_nonws(s);
    crate::text::lemma_upper_seq_identity(s);
}

/// Law: decoding what encoding produced gives the index back. For any
/// zero-based index, the letters of column `i + 1` pass decoding's
/// validation and decode to `i + 1`, so `excel_col_to_index` returns
/// exactly `i` on the output of `index_to_excel_col`.
pub proof fn lemma_index_round_trip(i: int)
    requires
        0 <= i < usize::MAX,
    ensures
        decode_ok(col_letters(i + 1)),
        col_number(normalized_letters(col_letters(i + 1))) == i + 1,
{
    lemma_column_round_trip(i + 1);
    lemma_letters_normalized(col_letters(i + 1));
}

/// Law: decoding is case-insensitive. Free-form column text and its
/// upper-cased form normalize to the same letters, so `excel_col_to_index`
/// returns the same result for both.
pub proof fn lemma_decode_case_insensitive(s: Seq<char>)
    ensures
        normalized_letters(upper_seq(s)) == normalized_letters(s),
{
    crate::text::lemma_trim_upper_commute(s);
    crate::text::lemma_upper_seq_idempotent(trim_spec(s));
}

/// The letter for digit `d`.
fn letter_char(d: usize) -> (c: char)
    requires
        d < 26,
    ensures
        c == letter_of(d as int),
{
    ((65 + d) as u8) as char
}

/// The letters of the column whose one-based number is `n`.
fn col_letters_string(n: usize) -> (r: String)
    ensures
        r@ == col_letters(n as int),
    decreases n,
{
    if n == 0 {
        String::new()
    } else {
        let mut r = col_letters_string((n - 1) / 26);
        r.push(letter_char((n - 1) % 26));
        r
    }
}

/// Encodes a zero-based column index as column letters: `0` is `"A"`, `25`
/// is `"Z"`, `26` is `"AA"`.
pub fn index_to_excel_col(idx: usize) -> (r: String)
    requires
        idx < usize::MAX,
    ensures
        r@ == col_letters(idx as int + 1),
{
    col_letters_string(idx + 1)
}

/// Decodes free-form column text to a zero-based column index. The text is
/// trimmed and upper-cased first; it must then be non-empty ASCII letters
/// naming a column whose index fits a machine word.
pub fn excel_col_to_index(col: &str) -> (r: Result<usize, AddressError>)
    ensures
        r is Ok <==> decode_ok(col@),
        r is Ok ==> r->Ok_0 == col_number(normalized_letters(col@)) - 1,
        r is Err ==> r->Err_0 == AddressError::InvalidColumn,
{
    let t = trimmed(col);
    let ghost u = normalized_letters(col@);
    let len = t.as_str().unicode_len();
    if len == 0 {
        return Err(AddressError::InvalidColumn);
    }
    let mut num: usize = 0;
    let mut k: usize = 0;
    while k < len
        invariant
            t@ == trim_spec(col@),
            u == normalized_letters(col@),
            len == t@.len(),
            u.len() == len,
            0 < len,
            0 <= k <= len,
            forall|j: int| 0 <= j < k ==> is_upper_letter(#[trigger] u[j]),
            num == col_number(u.subrange(0, k as int)),
        decreases len - k,
    {
        let c = t.as_str().get_char(k);
        let d: usize;
        if c >= 'A' && c <= 'Z' {
            d = ((c as u32) - 64) as usize;
        } else if c >= 'a' && c <= 'z' {
            d = ((c as u32) - 96) as usize;
            proof {
                assert(((((c as u32) - 32) as u8) as char) as u32 == (c as u32) - 32);
            }
        } else {
            proof {
                assert(u[k as int] == upper_char(t@[k as int]));
                assert(!is_upper_letter(u[k as int]));
            }
            return Err(AddressError::InvalidColumn);
        }
        proof {
            assert(u.subrange(0, k + 1).drop_last() =~= u.subrange(0, k as int));
            assert(col_number(u.subrange(0, k + 1)) == num * 26 + d);
        }
        let stepped = match num.checked_mul(26) {
            Some(m) => m.checked_add(d),
            None => None,
        };
        match stepped {
            Some(v) => {
                num = v;
            },
            None => {
                proof {
                    if well_formed_letters(u) {
                        lemma_col_number_monotone(u, k + 1);
                    }
                }
                return Err(AddressError::InvalidColumn);
            },
        }
        k = k + 1;
    }
    proof {
        assert(u.subrange(0, len as int) =~= u);
        lemma_col_number_nonneg(u.drop_last());
    }
    Ok(num - 1)
}

/// Validates free-form column text and returns its normalized (trimmed,
/// upper-cased) letters without converting to an index.
pub fn normalize_column_letter(col: &str) -> (r: Result<String, AddressError>)
    ensures
        r is Ok <==> well_formed_letters(normalized_letters(col@)),
        r is Ok ==> r->Ok_0@ == normalized_letters(col@),
        r is Err ==> r->Err_0 == AddressError::InvalidColumn,
{
    let t = trimmed(col);
    let ghost u = normalized_letters(col@);
    let len = t.as_str().unicode_len();
    if len == 0 {
        return Err(AddressError::InvalidColumn);
    }
    let mut res = String::new();
    let mut k: usize = 0;
    while k < len
        invariant
            t@ == trim_spec(col@),
            u == normalized_letters(col@),
            len == t@.len(),
            u.len() == len,
            0 <= k <= len,
            forall|j: int| 0 <= j < k ==> is_upper_letter(#[trigger] u[j]),
            res@ == u.subrange(0, k as int),
        decreases len - k,
    {
        let c = t.as_str().get_char(k);
        if c >= 'A' && c <= 'Z' {
            res.push(c);
        } else if c >= 'a' && c <= 'z' {
            let up = (((c as u32) - 32) as u8) as char;
            proof {
                assert(((((c as u32) - 32) as u8) as char) as u32 == (c as u32) - 32);
            }
            res.push(up);
        } else {
            proof {
                assert(u[k as int] == upper_char(t@[k as int]));
                assert(!is_upper_letter(u[k as int]));
            }
            return Err(AddressError::InvalidColumn);
        }
        proof {
            assert(u.subrange(0, k + 1).drop_last() =~= u.subrange(0, k as int));
            assert(res@ =~= u.subrange(0, k + 1));
        }
        k = k + 1;
    }
    proof {
        assert(u.subrange(0, len as int) =~= u);
    }
    Ok(res)
}

/// Parses a column selector: either a single column (`"B"`) or an inclusive
/// range (`"B:D"`), expanded eagerly into every column letter from start to
/// end. The expansion is small in practice because spreadsheet column
/// counts are; the upper bound here is only what fits a machine index.
/// Whether a column selector parses: a single well-formed column, or a
/// range (first `:` as separator) whose ends both decode and are in order.
pub open spec fn selector_valid(s: Seq<char>) -> bool {
    let t = trim_spec(s);
    match t.index_of_first(':') {
        None => well_formed_letters(normalized_letters(s)),
        Some(cp) => {
            let left = t.subrange(0, cp);
            let right = t.subrange(cp + 1, t.len() as int);
            &&& decode_ok(left)
            &&& decode_ok(right)
            &&& col_number(normalized_letters(left)) <= col_number(normalized_letters(right))
        },
    }
}

/// The error a bad column selector is rejected with: a range whose ends
/// decode but sort backwards is an invalid range, anything else an invalid
/// column.
pub open spec fn selector_error(s: Seq<char>) -> AddressError {
    let t = trim_spec(s);
    match t.index_of_first(':') {
        None => AddressError::InvalidColumn,
        Some(cp) => {
            let left = t.subrange(0, cp);
            let right = t.subrange(cp + 1, t.len() as int);
            if decode_ok(left) && decode_ok(right) {
                AddressError::InvalidRange
            } else {
                AddressError::InvalidColumn
            }
        },
    }
}

/// The columns a valid selector names, in order: the one normalized column,
/// or every column of the range, start to end inclusive.
pub open spec fn selector_columns(s: Seq<char>) -> Seq<Seq<char>> {
    let t = trim_spec(s);
    match t.index_of_first(':') {
        None => seq![normalized_letters(s)],
        Some(cp) => {
            let ln = col_number(normalized_letters(t.subrange(0, cp)));
            let rn = col_number(normalized_letters(t.subrange(cp + 1, t.len() as int)));
            Seq::new((rn + 1 - ln) as nat, |j: int| col_letters(ln + j))
        },
    }
}

pub fn expand_column_selector(selector: &str) -> (r: Result<Vec<String>, AddressError>)
    ensures
        r is Ok <==> selector_valid(selector@),
        r is Ok ==> r->Ok_0@.map_values(|c: String| c@) == selector_columns(selector@),
        r is Err ==> r->Err_0 == selector_error(selector@),
{
    let t = trimmed(selector);
    let len = t.as_str().unicode_len();
    let mut cp: usize = 0;
    while cp < len && !(t.as_str().get_char(cp) == ':')
        invariant
            t@ == trim_spec(selector@),
            len == t@.len(),
            0 <= cp <= len,
            forall|j: int| 0 <= j < cp ==> t@[j] != ':',
        decreases len - cp,
    {
        cp = cp + 1;
    }
    proof {
        t@.index_of_first_ensures(':');
    }
    if cp == len {
        // No separator: the whole selector is a single column.
        match normalize_column_letter(selector) {
            Ok(one) => {
                let mut v: Vec<String> = Vec::new();
                v.push(one);
                proof {
                    assert(v@.map_values(|c: String| c@) =~= selector_columns(selector@));
                }
                Ok(v)
            },
            Err(e) => Err(e),
        }
    } else {
        let left = t.as_str().substring_char(0, cp);
        let right = t.as_str().substring_char(cp + 1, len);
        let start_i = match excel_col_to_index(left) {
            Ok(i) => i,
            Err(e) => {
                return Err(e);
            },
        };
        let end_i = match excel_col_to_index(right) {
            Ok(i) => i,
            Err(e) => {
                return Err(e);
            },
        };
        if start_i > end_i {
            return Err(AddressError::InvalidRange);
        }
        let mut v: Vec<String> = Vec::new();
        let mut i = start_i;
        while i <= end_i
            invariant
                start_i <= i <= end_i + 1,
                end_i < usize::MAX,
                v@.len() == i - start_i,
                forall|j: int|
                    0 <= j < v@.len() ==> (#[trigger] v@[j])@ == col_letters(start_i + 1 + j),
            decreases end_i + 1 - i,
        {
            v.push(index_to_excel_col(i));
            i = i + 1;
        }
        proof {
            assert(v@.map_values(|c: String| c@) =~= selector_columns(selector@));
        }
        Ok(v)
    }
}

} // verus!

