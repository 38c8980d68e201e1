//! What can go wrong in a repository call.

use vstd::prelude::*;

verus! {

#[verifier::external_type_specification]
#[verifier::external_body]
pub struct ExSerError(bson::ser::Error);

#[verifier::external_type_specification]
#[verifier::external_body]
pub struct ExDeError(bson::de::Error);

#[verifier::external_type_specification]
#[verifier::external_body]
pub struct ExStoreErrorKind(mongodb::error::ErrorKind);

#[verifier::external_type_specification]
#[verifier::external_body]
pub struct ExStoreError(mongodb::error::Error);

/// The failure of one call, or the terminal condition of one cursor.
#[derive(Debug)]
pub enum RepositoryError {
    /// The codec could not turn the record into a value.
    Serialization(bson::ser::Error),
    /// The codec turned the record into a value that is no document.
    NotADocument,
    /// A document that the store returned could not be turned into a record.
    Decode(bson::de::Error),
    /// The driver reported a failure of transport, protocol or server.
    Store(mongodb::error::Error),
}

} // verus!
