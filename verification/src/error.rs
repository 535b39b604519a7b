//! The ways in which a launch attempt ends without a running game.

use vstd::prelude::*;

verus! {

/// Why a launch attempt was abandoned. Each value is terminal for the attempt:
/// nothing is retried and nothing is rolled back.
#[derive(Clone, Copy, Debug, PartialEq, Eq, Structural)]
pub enum PipelineError {
    /// The requested version is absent from the store, or its metadata is
    /// unreadable.
    VersionResolution,
    /// A configuration was requested from a version that is not loaded, or
    /// with a memory limit that is not positive.
    InvalidConfig,
    /// A prerequisite of the session is missing: no runtime, or no write
    /// access to the working directory.
    SessionCreation,
    /// The game process could not be spawned.
    Launch,
}

/// The mathematical value of the outcome of a step: that of what it yields,
/// or the error as it is.
pub open spec fn view_result<T: View>(outcome: Result<T, PipelineError>) -> Result<
    T::V,
    PipelineError,
> {
    match outcome {
        Ok(value) => Ok(value@),
        Err(error) => Err(error),
    }
}

} // verus!
