use vstd::prelude::*;

verus! {

/// The four configuration fields a client needs; `R2Error::MissingField`
/// names the one that was absent when a build was attempted.
#[derive(Clone, Copy, Debug, PartialEq, Eq, Structural)]
pub enum FieldName {
    BucketName,
    Url,
    ClientId,
    SecretKey,
}

/// Every way an operation of this library can fail.
#[derive(Clone, Copy, Debug, PartialEq, Eq, Structural)]
pub enum R2Error {
    /// A client build was attempted while a configuration field was unset.
    MissingField(FieldName),
    /// A bucket create or delete request did not succeed.
    BucketOpFailed,
    /// An object put, get, delete or list request did not succeed,
    /// not-found included.
    ObjectOpFailed,
    /// A download destination is not an existing directory, or the derived
    /// file path has no parent directory.
    InvalidDestination,
    /// A local filesystem write failed while downloading.
    IoFailure,
}

} // verus!
