use vstd::prelude::*;
use vstd::std_specs::convert::FromSpecImpl;

verus! {

/// The error type of the HTTP client, `ureq::Error`. The library hands such
/// a value on and never looks inside.
#[verifier::external_type_specification]
#[verifier::external_body]
pub struct ExUreqError(ureq::Error);

/// The error type of file operations, `std::io::Error`. The library hands
/// such a value on and never looks inside.
#[verifier::external_type_specification]
#[verifier::external_body]
pub struct ExIoError(std::io::Error);

/// The error type of the database driver, `mongodb::error::Error`. The
/// library hands such a value on and never looks inside.
#[verifier::external_type_specification]
#[verifier::external_body]
pub struct ExMongoError(mongodb::error::Error);

/// What can go wrong between the poller and the bridge, or in a writer.
#[derive(Debug)]
pub enum SensorError {
    /// A request failed in transport, or its answer could not be decoded.
    Ureq(ureq::Error),
    /// A file could not be created, opened or written.
    FileIO(std::io::Error),
    /// The database could not be reached or refused the operation.
    MongoDB(mongodb::error::Error),
    /// No bridge was found: the well-known host name did not answer and the
    /// discovery service gave no address.
    Discovery,
}

impl From<ureq::Error> for SensorError {
    fn from(error: ureq::Error) -> (wrapped: SensorError) {
        SensorError::Ureq(error)
    }
}

impl FromSpecImpl<ureq::Error> for SensorError {
    open spec fn obeys_from_spec() -> bool {
        true
    }

    open spec fn from_spec(error: ureq::Error) -> SensorError {
        SensorError::Ureq(error)
    }
}

impl From<std::io::Error> for SensorError {
    fn from(error: std::io::Error) -> (wrapped: SensorError) {
        SensorError::FileIO(error)
    }
}

impl FromSpecImpl<std::io::Error> for SensorError {
    open spec fn obeys_from_spec() -> bool {
        true
    }

    open spec fn from_spec(error: std::io::Error) -> SensorError {
        SensorError::FileIO(error)
    }
}

impl From<mongodb::error::Error> for SensorError {
    fn from(error: mongodb::error::Error) -> (wrapped: SensorError) {
        SensorError::MongoDB(error)
    }
}

impl FromSpecImpl<mongodb::error::Error> for SensorError {
    open spec fn obeys_from_spec() -> bool {
        true
    }

    open spec fn from_spec(error: mongodb::error::Error) -> SensorError {
        SensorError::MongoDB(error)
    }
}

/// What can go wrong between the poller and the database.
#[derive(Debug)]
pub enum DatabaseError {
    /// The database could not be reached or refused the operation.
    MongoDB(mongodb::error::Error),
}

impl From<mongodb::error::Error> for DatabaseError {
    fn from(error: mongodb::error::Error) -> (wrapped: DatabaseError) {
        DatabaseError::MongoDB(error)
    }
}

impl FromSpecImpl<mongodb::error::Error> for DatabaseError {
    open spec fn obeys_from_spec() -> bool {
        true
    }

    open spec fn from_spec(error: mongodb::error::Error) -> DatabaseError {
        DatabaseError::MongoDB(error)
    }
}

} // verus!
