//! Fresh identifiers and invite codes.

use vstd::prelude::*;

verus! {

/// Whether a character is a digit of a lowercase hexadecimal number.
pub open spec fn is_hex_digit(c: char) -> bool {
    ('0' <= c <= '9') || ('a' <= c <= 'f')
}

/// Whether a hyphen stands at a place of an identifier.
pub open spec fn is_hyphen_place(place: int) -> bool {
    place == 8 || place == 13 || place == 18 || place == 23
}

/// Whether a text has the shape of an identifier: 36 characters, of which
/// those at the places 8, 13, 18 and 23 are hyphens and the others are
/// lowercase hexadecimal digits, with the digit 4 at place 14, which says
/// that the identifier was drawn at random.
pub open spec fn is_id(text: Seq<char>) -> bool {
    &&& text.len() == 36
    &&& forall|place: int|
        0 <= place < 36 ==> if is_hyphen_place(place) {
            #[trigger] text[place] == '-'
        } else {
            is_hex_digit(text[place])
        }
    &&& text[14] == '4'
}

/// A fresh random identifier: `uuid::Uuid::new_v4`, written as text. The
/// value is random; what is claimed is its shape, which is the same for
/// every value: the hyphenated lowercase form of a version 4 identifier.
#[verifier::external_body]
pub(crate) fn new_id() -> (id: String)
    ensures
        is_id(id@),
{
    uuid::Uuid::new_v4().to_string()
}

/// A fresh invite code. Codes are random identifiers.
pub fn generate_invite_code() -> (code: String)
    ensures
        is_id(code@),
{
    new_id()
}

} // verus!
