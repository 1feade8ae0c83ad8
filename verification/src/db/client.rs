//! The database handles that the queries carry through to the code that
//! runs them.
use vstd::prelude::*;

verus! {

/// A connection to the database (asynchronous API).
#[verifier::external_type_specification]
#[verifier::external_body]
pub struct ExAsyncClient(tokio_postgres::Client);

/// A connection to the database (blocking API).
#[verifier::external_type_specification]
#[verifier::external_body]
pub struct ExClient(postgres::Client);

/// An error from the database.
#[verifier::external_type_specification]
#[verifier::external_body]
pub struct ExPgError(tokio_postgres::Error);

} // verus!

