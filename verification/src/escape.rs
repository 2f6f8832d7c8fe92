//! XML attribute escaping for user-supplied text embedded in the package's
//! documents.

use vstd::prelude::*;
use vstd::string::StrSliceExecFns;
use vstd::string::StringExecFns;

verus! {

/// What one character becomes inside an XML attribute value.
pub open spec fn escape_char(c: char) -> Seq<char> {
    if c == '&' {
        "&amp;"@
    } else if c == '"' {
        "&quot;"@
    } else if c == '<' {
        "&lt;"@
    } else if c == '>' {
        "&gt;"@
    } else if c == '\'' {
        "&apos;"@
    } else {
        seq![c]
    }
}

/// The XML-attribute-safe form of a character sequence: every character
/// replaced by its escape in one left-to-right pass. Escaping is not
/// idempotent: the `&` of an existing escape is escaped again.
pub open spec fn xml_escaped(s: Seq<char>) -> Seq<char>
    decreases s.len(),
{
    if s.len() == 0 {
        Seq::empty()
    } else {
        xml_escaped(s.drop_last()) + escape_char(s.last())
    }
}

/// Law: escaping distributes over concatenation — each character is
/// escaped on its own, independent of its neighbours. In particular a
/// second escaping pass re-escapes the `&` that begins each entity the
/// first pass produced: escaping is not idempotent.
pub proof fn lemma_xml_escaped_append(a: Seq<char>, b: Seq<char>)
    ensures
        xml_escaped(a + b) == xml_escaped(a) + xml_escaped(b),
    decreases b.len(),
{
    if b.len() == 0 {
        assert(a + b =~= a);
        assert(xml_escaped(a) + xml_escaped(b) =~= xml_escaped(a));
    } else {
        assert((a + b).drop_last() =~= a + b.drop_last());
        assert((a + b).last() == b.last());
        lemma_xml_escaped_append(a, b.drop_last());
        assert((xml_escaped(a) + xml_escaped(b.drop_last())) + escape_char(b.last())
            =~= xml_escaped(a) + (xml_escaped(b.drop_last()) + escape_char(b.last())));
    }
}

/// Escapes text for use as an XML attribute value, replacing `&`, `"`, `<`,
/// `>` and `'` by their entities in a single left-to-right pass.
pub fn xml_escape_attr(s: &str) -> (r: String)
    ensures
        r@ == xml_escaped(s@),
{
    let len = s.unicode_len();
    let mut r = String::new();
    let mut k: usize = 0;
    while k < len
        invariant
            len == s@.len(),
            0 <= k <= len,
            r@ == xml_escaped(s@.subrange(0, k as int)),
        decreases len - k,
    {
        let c = s.get_char(k);
        let ghost before = r@;
        if c == '&' {
            r.append("&amp;");
        } else if c == '"' {
            r.append("&quot;");
        } else if c == '<' {
            r.append("&lt;");
        } else if c == '>' {
            r.append("&gt;");
        } else if c == '\'' {
            r.append("&apos;");
        } else {
            r.push(c);
            proof {
                assert(r@ =~= before + seq![c]);
            }
        }
        proof {
            assert(s@.subrange(0, k + 1).drop_last() =~= s@.subrange(0, k as int));
            assert(s@.subrange(0, k + 1).last() == s@[k as int]);
        }
        k = k + 1;
    }
    proof {
        assert(s@.subrange(0, len as int) =~= s@);
    }
    r
}

} // verus!
