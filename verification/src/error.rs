//! The failures of a run.

use vstd::prelude::*;

verus! {

/// What can go wrong during a run, by the stage that failed.
#[derive(Debug, Clone, Copy, PartialEq, Eq, Structural)]
pub enum Error {
    /// The transport failed or the camera answered with a status other than 200.
    Http,
    /// The local file system refused an operation.
    Io,
    /// The camera's answer did not have the expected shape.
    ProtocolError,
    /// The persisted sync state could not be read as a timestamp.
    CorruptState,
    /// The wireless link did not come up within the allowed time.
    AssociationTimeout,
    /// The interface has no current network, or the camera's network is unknown to it.
    AssociationPrecondition,
}

/// The failure in the report on a step: none where the step went well.
pub open spec fn failure_of(report: Result<(), Error>) -> Option<Error> {
    match report {
        Ok(_) => None,
        Err(e) => Some(e),
    }
}

} // verus!
