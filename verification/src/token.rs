//! Authentication tokens.
use vstd::prelude::*;

verus! {

/// Whether `c` is a lower-case hexadecimal digit.
pub open spec fn is_lower_hex(c: char) -> bool {
    '0' <= c <= '9' || 'a' <= c <= 'f'
}

/// Whether `text` is a version 4 UUID in hyphenated lower-case form:
/// `xxxxxxxx-xxxx-4xxx-yxxx-xxxxxxxxxxxx`, where `y` is one of `8`, `9`, `a`
/// and `b`.
pub open spec fn is_random_uuid(text: Seq<char>) -> bool {
    &&& text.len() == 36
    &&& forall|i: int|
        0 <= i < 36 ==> if i == 8 || i == 13 || i == 18 || i == 23 {
            #[trigger] text[i] == '-'
        } else {
            is_lower_hex(text[i])
        }
    &&& text[14] == '4'
    &&& text[19] == '8' || text[19] == '9' || text[19] == 'a' || text[19] == 'b'
}

/// A fresh token: `uuid::Uuid::new_v4()` in the notation that its `Display`
/// writes. What is claimed is the shape that every version 4 UUID has. Its
/// other digits come from the operating system's random source.
#[verifier::external_body]
pub(crate) fn random_uuid() -> (res: String)
    ensures
        is_random_uuid(res@),
{
    uuid::Uuid::new_v4().to_string()
}

} // verus!
