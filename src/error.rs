use vstd::prelude::*;

verus! {

/// The errors that a scenario body observes.
#[derive(Debug)]
pub enum Error {
    /// Configuration or validation error, such as a request that failed its
    /// own checks while a scenario set it up.
    Configuration(Box<str>),
    /// Executing a request failed; the cause is not kept.
    FailedRequestExecution,
}

} // verus!
