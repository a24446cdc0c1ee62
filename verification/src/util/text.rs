//! Comparing and measuring text.

use vstd::prelude::*;
use vstd::string::{StrSliceExecFns, StringSliceAdditionalSpecFns};

verus! {

/// The lowercase form of a text, as `str::to_lowercase` computes it.
pub uninterp spec fn lowercase(text: Seq<char>) -> Seq<char>;

/// `str::to_lowercase`: the result is the lowercase form of the argument, a
/// function of the argument alone.
#[verifier::external_body]
pub(crate) fn to_lowercase(text: &str) -> (lowered: String)
    ensures
        lowered@ == lowercase(text@),
{
    text.to_lowercase()
}

/// A copy of a text that may be absent.
pub fn copy_optional(text: &Option<String>) -> (copy: Option<String>)
    ensures
        copy.deep_view() == text.deep_view(),
{
    match text {
        Some(t) => Some(t.clone()),
        None => None,
    }
}

/// Whether two texts hold the same characters.
pub fn str_eq(left: &str, right: &str) -> (same: bool)
    ensures
        same == (left@ == right@),
{
    left.to_owned() == right.to_owned()
}

/// Whether a text has between `min` and `max` characters, both included.
pub open spec fn length_within(text: Seq<char>, min: int, max: int) -> bool {
    min <= text.len() <= max
}

/// Whether a text has between `min` and `max` characters, both included.
/// Characters are counted, not bytes.
pub fn has_length_within(text: &str, min: usize, max: usize) -> (fits: bool)
    ensures
        fits == length_within(text@, min as int, max as int),
{
    let count: usize = text.unicode_len();
    min <= count && count <= max
}

/// What is left of `text` once a leading `prefix` is taken away; the whole
/// text where it does not start with `prefix`.
pub open spec fn without_prefix(text: Seq<char>, prefix: Seq<char>) -> Seq<char> {
    if prefix.is_prefix_of(text) {
        text.subrange(prefix.len() as int, text.len() as int)
    } else {
        text
    }
}

/// Takes a leading `prefix` away from `text`, if it is there.
pub fn strip_prefix(text: &str, prefix: &str) -> (rest: String)
    ensures
        rest@ == without_prefix(text@, prefix@),
{
    let text_len: usize = text.unicode_len();
    let prefix_len: usize = prefix.unicode_len();
    if prefix_len > text_len {
        return text.to_owned();
    }
    let head: &str = text.substring_char(0, prefix_len);
    if str_eq(head, prefix) {
        assert(prefix@ =~= text@.subrange(0, prefix_len as int));
        text.substring_char(prefix_len, text_len).to_owned()
    } else {
        assert(prefix@.is_prefix_of(text@) ==> prefix@ =~= text@.subrange(0, prefix_len as int));
        text.to_owned()
    }
}

/// Where the first comma of a text stands; the length of the text where it
/// has none.
pub open spec fn comma_at(text: Seq<char>) -> nat
    decreases text.len(),
{
    if text.len() == 0 || text[0] == ',' {
        0
    } else {
        1 + comma_at(text.skip(1))
    }
}

/// The pieces of a text between its commas. A text without a comma is one
/// piece, and so is the empty text.
pub open spec fn split_commas(text: Seq<char>) -> Seq<Seq<char>>
    decreases text.len(),
{
    let at = comma_at(text) as int;
    if at >= text.len() {
        seq![text]
    } else {
        seq![text.take(at)] + split_commas(text.skip(at + 1))
    }
}

/// The first comma of a text stands where a comma stands and none stands
/// before.
pub proof fn comma_found(text: Seq<char>, at: int)
    requires
        0 <= at <= text.len(),
        forall|j: int| 0 <= j < at ==> text[j] != ',',
        at == text.len() || text[at] == ',',
    ensures
        comma_at(text) == at,
    decreases at,
{
    if at > 0 {
        assert forall|j: int| 0 <= j < at - 1 implies text.skip(1)[j] != ',' by {
            assert(text.skip(1)[j] == text[j + 1]);
        }
        comma_found(text.skip(1), at - 1);
    }
}

/// Splits a text at its commas.
pub fn split_on_commas(text: &str) -> (parts: Vec<String>)
    ensures
        parts.deep_view() == split_commas(text@),
{
    let len: usize = text.unicode_len();
    let mut parts: Vec<String> = Vec::new();
    let mut start: usize = 0;
    let mut i: usize = 0;
    proof {
        assert(text@.skip(0) =~= text@);
        assert(parts.deep_view() + split_commas(text@) =~= split_commas(text@));
    }
    while i < len
        invariant
            start <= i <= len,
            len == text@.len(),
            forall|j: int| start <= j < i ==> text@[j] != ',',
            split_commas(text@) == parts.deep_view() + split_commas(text@.skip(start as int)),
        decreases len - i,
    {
        if text.get_char(i) == ',' {
            let piece = text.substring_char(start, i).to_owned();
            proof {
                let rest = text@.skip(start as int);
                assert forall|j: int| 0 <= j < i - start implies rest[j] != ',' by {
                    assert(rest[j] == text@[start + j]);
                }
                comma_found(rest, i - start);
                assert(rest.take(i - start) =~= text@.subrange(start as int, i as int));
                assert(rest.skip(i - start + 1) =~= text@.skip(i + 1));
                assert(parts.deep_view().push(piece@) + split_commas(text@.skip(i + 1))
                    =~= parts.deep_view() + (seq![piece@] + split_commas(text@.skip(i + 1))));
            }
            let ghost before = parts.deep_view();
            let ghost added = piece@;
            parts.push(piece);
            proof {
                assert(parts.deep_view() =~= before.push(added));
            }
            start = i + 1;
        }
        i += 1;
    }
    let piece = text.substring_char(start, len).to_owned();
    proof {
        let rest = text@.skip(start as int);
        assert forall|j: int| 0 <= j < len - start implies rest[j] != ',' by {
            assert(rest[j] == text@[start + j]);
        }
        comma_found(rest, len - start);
        assert(rest =~= text@.subrange(start as int, len as int));
    }
    let ghost before = parts.deep_view();
    let ghost added = piece@;
    parts.push(piece);
    proof {
        assert(parts.deep_view() =~= before + seq![added]);
    }
    parts
}

/// Whether a sequence of bytes comes before another, or is the same, in
/// dictionary order.
pub open spec fn bytes_le(a: Seq<u8>, b: Seq<u8>) -> bool
    decreases a.len(),
{
    if a.len() == 0 {
        true
    } else if b.len() == 0 {
        false
    } else if a[0] != b[0] {
        a[0] < b[0]
    } else {
        bytes_le(a.skip(1), b.skip(1))
    }
}

/// Whether a text comes before another, or is the same, in the dictionary
/// order of their UTF-8 bytes.
pub open spec fn text_le(a: Seq<char>, b: Seq<char>) -> bool {
    bytes_le(vstd::utf8::encode_utf8(a), vstd::utf8::encode_utf8(b))
}

/// Whether a text comes before another, or is the same, in the dictionary
/// order of their UTF-8 bytes.
pub fn str_le(left: &str, right: &str) -> (r: bool)
    ensures
        r == text_le(left@, right@),
{
    let a = left.as_bytes();
    let b = right.as_bytes();
    let mut i: usize = 0;
    proof {
        assert(a@.skip(0) =~= a@);
        assert(b@.skip(0) =~= b@);
    }
    while i < a.len() && i < b.len()
        invariant
            i <= a.len(),
            i <= b.len(),
            a@ == left.spec_bytes(),
            b@ == right.spec_bytes(),
            bytes_le(a@, b@) == bytes_le(a@.skip(i as int), b@.skip(i as int)),
        decreases a.len() - i,
    {
        if a[i] != b[i] {
            return a[i] < b[i];
        }
        proof {
            assert(a@.skip(i as int).skip(1) =~= a@.skip(i + 1));
            assert(b@.skip(i as int).skip(1) =~= b@.skip(i + 1));
        }
        i += 1;
    }
    i == a.len()
}

} // verus!
