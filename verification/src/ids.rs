//! Fresh identifiers.
use vstd::prelude::*;

verus! {

/// Whether a character is a small hexadecimal digit.
pub open spec fn is_hex_digit(c: char) -> bool {
    '0' <= c <= '9' || 'a' <= c <= 'f'
}

/// Whether a text is an identifier of 32 small hexadecimal digits in five
/// groups, parted by hyphens.
pub open spec fn is_id_text(s: Seq<char>) -> bool {
    &&& s.len() == 36
    &&& forall|i: int|
        0 <= i < 36 ==> if i == 8 || i == 13 || i == 18 || i == 23 {
            #[trigger] s[i] == '-'
        } else {
            is_hex_digit(s[i])
        }
}

/// Whether a text is an identifier of 32 small hexadecimal digits.
pub open spec fn is_token_text(s: Seq<char>) -> bool {
    &&& s.len() == 32
    &&& forall|i: int| 0 <= i < 32 ==> is_hex_digit(#[trigger] s[i])
}

/// `uuid::Uuid::new_v4`, written by its `Display`: a random identifier in its
/// hyphenated form. That no two are the same is a matter of chance and not
/// claimed.
#[verifier::external_body]
pub(crate) fn fresh_id() -> (r: String)
    ensures
        is_id_text(r@),
{
    uuid::Uuid::new_v4().to_string()
}

/// `uuid::Uuid::new_v4`, written by `uuid::Uuid::simple`: a random identifier
/// of 32 small hexadecimal digits. That no two are the same is a matter of
/// chance and not claimed.
#[verifier::external_body]
pub(crate) fn fresh_token() -> (r: String)
    ensures
        is_token_text(r@),
{
    uuid::Uuid::new_v4().simple().to_string()
}

} // verus!
