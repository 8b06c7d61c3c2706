//! The SurrealDB types that connections are made of.

use vstd::prelude::*;

verus! {

/// An open SurrealDB datastore; only the engine looks inside it.
#[verifier::external_type_specification]
#[verifier::external_body]
pub struct ExDatastore(surrealdb::Datastore);

/// Identity, authentication and namespace scope of the queries a connection runs.
#[verifier::external_type_specification]
#[verifier::external_body]
pub struct ExSession(surrealdb::Session);

/// Any failure that the engine reports, carrying its own message.
#[verifier::external_type_specification]
#[verifier::external_body]
pub struct ExError(surrealdb::Error);

/// The reply to one statement of a query.
#[verifier::external_type_specification]
#[verifier::external_body]
pub struct ExResponse(surrealdb::Response);

/// Relies on the `Clone` that `surrealdb::Session` derives: every field is
/// cloned, so the copy is the same session, field for field.
pub assume_specification[ <surrealdb::Session as Clone>::clone ](s: &surrealdb::Session) -> (r:
    surrealdb::Session)
    ensures
        r == *s,
;

} // verus!
