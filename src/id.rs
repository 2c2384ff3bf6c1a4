use vstd::prelude::*;

use crate::model::TodoId;

verus! {

/// What uuid's parser makes of a text: the UUID's 128-bit value, or `None`
/// where the text is not a UUID in one of the forms that the parser accepts.
pub uninterp spec fn parsed_id_of(s: Seq<char>) -> Option<u128>;

/// The lengths of the forms of a UUID that the parser accepts: simple (32),
/// hyphenated (36), braced (38) and URN (45).
pub open spec fn uuid_text_length(n: nat) -> bool {
    n == 32 || n == 36 || n == 38 || n == 45
}

/// Relies on `uuid::Uuid::parse_str` to read a UUID (simple, hyphenated,
/// braced or URN form), and on `Uuid::as_u128` for its value. The parser
/// refuses every input whose length is not that of one of these forms, and
/// accepts ASCII text only, so that its length in bytes is its length in
/// characters.
#[verifier::external_body]
fn parse_uuid(s: &str) -> (r: Option<u128>)
    ensures
        r == parsed_id_of(s@),
        !uuid_text_length(s@.len()) ==> r is None,
{
    match uuid::Uuid::parse_str(s) {
        Ok(u) => Some(u.as_u128()),
        Err(_) => None,
    }
}

/// Relies on `uuid::Uuid::new_v4` for a random UUID, and on `Uuid::as_u128`
/// for its value. Nothing is known of the value drawn.
#[verifier::external_body]
fn random_uuid() -> (r: u128) {
    uuid::Uuid::new_v4().as_u128()
}

impl TodoId {
    /// Reads an identifier from a path segment.
    pub fn parse(segment: &str) -> (r: Option<TodoId>)
        ensures
            r == (match parsed_id_of(segment@) {
                Some(v) => Some(TodoId { value: v }),
                None => None,
            }),
            !uuid_text_length(segment@.len()) ==> r is None,
    {
        match parse_uuid(segment) {
            Some(v) => Some(TodoId { value: v }),
            None => None,
        }
    }

    /// A fresh random identifier; its uniqueness in a table is checked by the
    /// table itself on insertion.
    pub fn generate() -> (r: TodoId) {
        TodoId { value: random_uuid() }
    }
}

} // verus!
