use vstd::prelude::*;

verus! {

/// Relies on rusqlite::Connection: the handle to one open database, through
/// which every storage operation runs.
#[verifier::external_type_specification]
#[verifier::external_body]
pub struct ExConnection(rusqlite::Connection);

/// Relies on rusqlite::Error: the backend's error type, carried opaquely
/// until its message is read.
#[verifier::external_type_specification]
#[verifier::external_body]
pub struct ExRusqliteError(rusqlite::Error);

/// Relies on rusqlite::types::Value: the backend's dynamically typed column
/// value.
#[verifier::external_type_specification]
#[verifier::external_body]
pub struct ExSqlValue(rusqlite::types::Value);

} // verus!
