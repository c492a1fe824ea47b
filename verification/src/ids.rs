//! Ids that nobody else has.
use crate::text::{cat5, from_range, to_chars};
use vstd::prelude::*;

verus! {

/// A small hexadecimal digit.
pub open spec fn is_hex(c: char) -> bool {
    '0' <= c <= '9' || 'a' <= c <= 'f'
}

/// The text of a random UUID: groups of hexadecimal digits with dashes between them, the third of
/// which begins with a 4.
pub open spec fn is_uuid_text(s: Seq<char>) -> bool {
    &&& s.len() == 36
    &&& s[8] == '-' && s[13] == '-' && s[18] == '-' && s[23] == '-'
    &&& s[14] == '4'
    &&& forall|i: int|
        0 <= i < 36 && i != 8 && i != 13 && i != 18 && i != 23 ==> is_hex(#[trigger] s[i])
}

/// `uuid::Uuid::new_v4`, the result by its `to_string`. Claimed of every outcome: it is the
/// hyphenated text of a UUID of version 4. Which one it is, chance decides.
#[verifier::external_body]
fn random_uuid() -> (r: String)
    ensures
        is_uuid_text(r@),
{
    uuid::Uuid::new_v4().to_string()
}

/// An id that nobody else has.
pub fn new_id() -> (r: String)
    ensures
        is_uuid_text(r@),
{
    random_uuid()
}

/// The text of a UUID without its dashes.
pub open spec fn without_dashes(id: Seq<char>) -> Seq<char> {
    id.subrange(0, 8) + id.subrange(9, 13) + id.subrange(14, 18) + id.subrange(19, 23)
        + id.subrange(24, 36)
}

/// An id that nobody else has, without dashes.
pub fn new_plain_id() -> (r: String)
    ensures
        exists|id: Seq<char>| #[trigger] is_uuid_text(id) && r@ == without_dashes(id),
{
    let id = new_id();
    let chars = to_chars(id.as_str());
    assert(is_uuid_text(id@));
    cat5(
        from_range(&chars, 0, 8).as_str(),
        from_range(&chars, 9, 13).as_str(),
        from_range(&chars, 14, 18).as_str(),
        from_range(&chars, 19, 23).as_str(),
        from_range(&chars, 24, 36).as_str(),
    )
}

} // verus!
