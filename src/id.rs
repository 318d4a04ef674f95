use vstd::prelude::*;

verus! {

/// A 128-bit universally unique identifier, held as its big-endian value.
#[derive(Clone, Copy, Debug, PartialEq, Eq, Structural)]
pub struct Id {
    pub value: u128,
}

/// The canonical hyphenated lower-case text of the identifier with this value.
pub uninterp spec fn hyphenated_text(value: u128) -> Seq<char>;

/// The value that the identifier parser reads from this text, if it accepts it.
pub uninterp spec fn parsed_value(text: Seq<char>) -> Option<u128>;

/// The identifier that `text` denotes, if it is well formed.
pub open spec fn parsed_id(text: Seq<char>) -> Option<Id> {
    match parsed_value(text) {
        Some(v) => Some(Id { value: v }),
        None => None,
    }
}

/// Relies on `uuid::Uuid::from_u128` and its `Display`, which writes the
/// hyphenated form (36 characters) that `uuid::Uuid::parse_str` reads back.
#[verifier::external_body]
pub(crate) fn id_text(id: Id) -> (r: String)
    ensures
        r@ == hyphenated_text(id.value),
        r@.len() == 36,
        parsed_value(r@) == Some(id.value),
{
    uuid::Uuid::from_u128(id.value).to_string()
}

/// Relies on `uuid::Uuid::parse_str` (simple, hyphenated or urn form) and
/// `uuid::Uuid::as_u128`.
#[verifier::external_body]
pub(crate) fn parse_id(text: &str) -> (r: Option<Id>)
    ensures
        r == parsed_id(text@),
{
    uuid::Uuid::parse_str(text).ok().map(|u| Id { value: u.as_u128() })
}

/// Relies on `uuid::Uuid::new_v4`: a fresh random identifier, of which
/// nothing can be promised.
#[verifier::external_body]
pub(crate) fn fresh_id() -> (r: Id) {
    Id { value: uuid::Uuid::new_v4().as_u128() }
}

} // verus!
