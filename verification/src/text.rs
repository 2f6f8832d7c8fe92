//! Character-level text helpers shared by the codec and the validators:
//! whitespace trimming, ASCII upper-casing, and their spec-level models.

use vstd::prelude::*;

verus! {

/// Relies on String::push: appends the given character to the end of the
/// string.
pub assume_specification[ String::push ](s: &mut String, ch: char)
    ensures
        final (s)@ == old(s)@.push(ch),
;

/// Whitespace as the trimming step understands it: the characters with the
/// Unicode `White_Space` property.
pub open spec fn is_wspace(c: char) -> bool {
    ||| c == '\u{0009}'
    ||| c == '\u{000A}'
    ||| c == '\u{000B}'
    ||| c == '\u{000C}'
    ||| c == '\u{000D}'
    ||| c == ' '
    ||| c == '\u{0085}'
    ||| c == '\u{00A0}'
    ||| c == '\u{1680}'
    ||| ('\u{2000}' <= c && c <= '\u{200A}')
    ||| c == '\u{2028}'
    ||| c == '\u{2029}'
    ||| c == '\u{202F}'
    ||| c == '\u{205F}'
    ||| c == '\u{3000}'
}

/// The sequence with its leading whitespace removed.
pub open spec fn drop_leading_ws(s: Seq<char>) -> Seq<char>
    decreases s.len(),
{
    if s.len() > 0 && is_wspace(s[0]) {
        drop_leading_ws(s.drop_first())
    } else {
        s
    }
}

/// The sequence with its trailing whitespace removed.
pub open spec fn drop_trailing_ws(s: Seq<char>) -> Seq<char>
    decreases s.len(),
{
    if s.len() > 0 && is_wspace(s.last()) {
        drop_trailing_ws(s.drop_last())
    } else {
        s
    }
}

/// The sequence with surrounding whitespace removed, as `str::trim` leaves
/// it.
pub open spec fn trim_spec(s: Seq<char>) -> Seq<char> {
    drop_trailing_ws(drop_leading_ws(s))
}

/// Whether `c` is an ASCII lower-case letter.
pub open spec fn is_lower_letter(c: char) -> bool {
    'a' <= c && c <= 'z'
}

/// Whether `c` is an ASCII upper-case letter.
pub open spec fn is_upper_letter(c: char) -> bool {
    'A' <= c && c <= 'Z'
}

/// ASCII upper-casing of one character; anything but a lower-case ASCII
/// letter is left alone.
pub open spec fn upper_char(c: char) -> char {
    if is_lower_letter(c) {
        (((c as u32) - 32) as u8) as char
    } else {
        c
    }
}

/// ASCII upper-casing of a character sequence.
pub open spec fn upper_seq(s: Seq<char>) -> Seq<char> {
    s.map_values(|c: char| upper_char(c))
}

/// Once every character before `a` is whitespace and `a` itself (if any)
/// is not, dropping the leading whitespace is taking the suffix from `a`.
proof fn lemma_drop_leading_ws_is_subrange(s: Seq<char>, a: int)
    requires
        0 <= a <= s.len(),
        forall|k: int| 0 <= k < a ==> is_wspace(#[trigger] s[k]),
        a == s.len() || !is_wspace(s[a]),
    ensures
        drop_leading_ws(s) == s.subrange(a, s.len() as int),
    decreases a,
{
    if a == 0 {
        assert(s.subrange(0, s.len() as int) =~= s);
    } else {
        assert(s.drop_first() =~= s.subrange(1, s.len() as int));
        lemma_drop_leading_ws_is_subrange(s.drop_first(), a - 1);
        assert(s.drop_first().subrange(a - 1, s.drop_first().len() as int) =~= s.subrange(
            a,
            s.len() as int,
        ));
    }
}

/// Once every character from `b` on is whitespace and the one before `b`
/// (if any) is not, dropping the trailing whitespace is taking the prefix
/// up to `b`.
proof fn lemma_drop_trailing_ws_is_subrange(s: Seq<char>, b: int)
    requires
        0 <= b <= s.len(),
        forall|k: int| b <= k < s.len() ==> is_wspace(#[trigger] s[k]),
        b == 0 || !is_wspace(s[b - 1]),
    ensures
        drop_trailing_ws(s) == s.subrange(0, b),
    decreases s.len() - b,
{
    if b == s.len() {
        assert(s.subrange(0, s.len() as int) =~= s);
    } else {
        assert(s.drop_last() =~= s.subrange(0, s.len() - 1));
        lemma_drop_trailing_ws_is_subrange(s.drop_last(), b);
        assert(s.drop_last().subrange(0, b) =~= s.subrange(0, b));
    }
}

/// Returns the input with surrounding whitespace removed.
pub fn trimmed(s: &str) -> (t: String)
    ensures
        t@ == trim_spec(s@),
{
    let len = s.unicode_len();
    let mut a: usize = 0;
    while a < len && is_wspace_exec(s.get_char(a))
        invariant
            0 <= a <= len,
            len == s@.len(),
            forall|k: int| 0 <= k < a ==> is_wspace(#[trigger] s@[k]),
        decreases len - a,
    {
        a = a + 1;
    }
    let mut b: usize = len;
    while b > a && is_wspace_exec(s.get_char(b - 1))
        invariant
            a <= b <= len,
            len == s@.len(),
            forall|k: int| b <= k < len ==> is_wspace(#[trigger] s@[k]),
        decreases b,
    {
        b = b - 1;
    }
    proof {
        lemma_drop_leading_ws_is_subrange(s@, a as int);
        let u = s@.subrange(a as int, s@.len() as int);
        lemma_drop_trailing_ws_is_subrange(u, b - a);
        assert(forall|k: int|
            b - a <= k < u.len() ==> is_wspace(#[trigger] u[k]) == is_wspace(s@[k + a]));
        assert(u.subrange(0, b - a) =~= s@.subrange(a as int, b as int));
    }
    let r = s.substring_char(a, b);
    r.to_owned()
}

/// Trimming leaves a sequence without whitespace untouched.
pub proof fn lemma_trim_of_nonws(s: Seq<char>)
    requires
        forall|i: int| 0 <= i < s.len() ==> !is_wspace(#[trigger] s[i]),
    ensures
        trim_spec(s) == s,
{
    assert(drop_leading_ws(s) == s);
    assert(drop_trailing_ws(s) == s);
}

/// Upper-casing leaves a sequence without lower-case ASCII letters
/// untouched.
pub proof fn lemma_upper_seq_identity(s: Seq<char>)
    requires
        forall|i: int| 0 <= i < s.len() ==> !is_lower_letter(#[trigger] s[i]),
    ensures
        upper_seq(s) == s,
{
    assert(upper_seq(s) =~= s);
}

/// Upper-casing a character neither makes nor unmakes whitespace.
proof fn lemma_upper_char_ws(c: char)
    ensures
        is_wspace(upper_char(c)) == is_wspace(c),
{
    if is_lower_letter(c) {
        assert((((c as u32) - 32) as u8) as char as u32 == (c as u32) - 32);
    }
}

/// Upper-casing one character twice is upper-casing it once.
proof fn lemma_upper_char_idempotent(c: char)
    ensures
        upper_char(upper_char(c)) == upper_char(c),
{
    if is_lower_letter(c) {
        assert((((c as u32) - 32) as u8) as char as u32 == (c as u32) - 32);
    }
}

/// Upper-casing a sequence twice is upper-casing it once.
pub proof fn lemma_upper_seq_idempotent(s: Seq<char>)
    ensures
        upper_seq(upper_seq(s)) == upper_seq(s),
{
    assert forall|i: int| 0 <= i < s.len() implies upper_char(upper_char(s[i])) == upper_char(
        s[i],
    ) by {
        lemma_upper_char_idempotent(s[i]);
    }
    assert(upper_seq(upper_seq(s)) =~= upper_seq(s));
}

/// Dropping leading whitespace commutes with upper-casing.
proof fn lemma_drop_leading_ws_upper(s: Seq<char>)
    ensures
        drop_leading_ws(upper_seq(s)) == upper_seq(drop_leading_ws(s)),
    decreases s.len(),
{
    if s.len() > 0 {
        lemma_upper_char_ws(s[0]);
        if is_wspace(s[0]) {
            assert(upper_seq(s).drop_first() =~= upper_seq(s.drop_first()));
            lemma_drop_leading_ws_upper(s.drop_first());
        }
    }
}

/// Dropping trailing whitespace commutes with upper-casing.
proof fn lemma_drop_trailing_ws_upper(s: Seq<char>)
    ensures
        drop_trailing_ws(upper_seq(s)) == upper_seq(drop_trailing_ws(s)),
    decreases s.len(),
{
    if s.len() > 0 {
        lemma_upper_char_ws(s.last());
        if is_wspace(s.last()) {
            assert(upper_seq(s).drop_last() =~= upper_seq(s.drop_last()));
            lemma_drop_trailing_ws_upper(s.drop_last());
        }
    }
}

/// Trimming commutes with upper-casing.
pub proof fn lemma_trim_upper_commute(s: Seq<char>)
    ensures
        trim_spec(upper_seq(s)) == upper_seq(trim_spec(s)),
{
    lemma_drop_leading_ws_upper(s);
    lemma_drop_trailing_ws_upper(drop_leading_ws(s));
}

/// Executable test for the whitespace predicate.
pub fn is_wspace_exec(c: char) -> (r: bool)
    ensures
        r == is_wspace(c),
{
    c == '\u{0009}' || c == '\u{000A}' || c == '\u{000B}' || c == '\u{000C}' || c == '\u{000D}'
        || c == ' ' || c == '\u{0085}' || c == '\u{00A0}' || c == '\u{1680}' || ('\u{2000}' <= c
        && c <= '\u{200A}') || c == '\u{2028}' || c == '\u{2029}' || c == '\u{202F}'
        || c == '\u{205F}' || c == '\u{3000}'
}

} // verus!
