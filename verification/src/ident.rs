//! Identifiers as `uuid` holds them.

use vstd::prelude::*;
use uuid::Uuid;
use crate::read::outcome;

verus! {

/// `uuid::Uuid`, an identifier, carried as it is.
#[verifier::external_type_specification]
#[verifier::external_body]
pub struct ExUuid(Uuid);

/// `uuid::Error`, why a text is no identifier.
#[verifier::external_type_specification]
#[verifier::external_body]
pub struct ExUuidError(uuid::Error);

/// The identifier that `raw` writes, as `Uuid::parse_str` reads it.
pub uninterp spec fn id_read(raw: Seq<char>) -> Option<Uuid>;

/// `Uuid::parse_str`: the identifier that the text writes, or the error.
#[verifier::external_body]
pub(crate) fn parse_id(raw: &str) -> (read: Result<Uuid, uuid::Error>)
    ensures
        outcome(read) == id_read(raw@),
{
    Uuid::parse_str(raw)
}

} // verus!
