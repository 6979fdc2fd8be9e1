use vstd::prelude::*;

verus! {

/// The failure taxonomy shared by every operation of the catalog.
#[derive(Debug)]
pub enum ApplicationError {
    /// A lower-level failure: store, signing, external lookup, serialization.
    UnknownError(String),
    /// A structural field violation, with a message naming the field.
    ValidationError(String),
    /// Missing or invalid credential, insufficient role, or master-key mismatch.
    Unauthorized,
    /// Structurally parseable but semantically invalid input.
    InvalidData(String),
    /// The referenced entity does not exist.
    NotFound,
    /// An update request names another entity than the one fetched.
    IdMismatch,
}

} // verus!
