//! Error taxonomy for a batch run.
//!
//! Range validation aborts the run before any work starts; fetch and
//! extraction failures are terminal for their pack only and are collected
//! for the end-of-run report.

use vstd::prelude::*;

verus! {

/// Reasons a requested pack range is rejected before any work starts.
#[derive(Debug, Clone, Copy, PartialEq, Eq, Structural)]
pub enum ValidationError {
    /// One of the range bounds is zero; pack numbers start at one.
    ZeroBound,
    /// The upper bound (after ordering the pair) reaches the domain ceiling;
    /// carries that bound.
    TooHigh(u16),
}

/// Why fetching one pack failed.
#[derive(Debug, PartialEq, Eq)]
pub enum FetchFailure {
    /// The formed address was rejected by the URL parser.
    InvalidUrl,
    /// The server answered with a status other than 200.
    BadStatus(u16),
    /// The transport failed; carries the reported message.
    Transport(String),
}

/// Why extracting one staged archive failed.
#[derive(Debug, Clone, Copy, PartialEq, Eq, Structural)]
pub enum ExtractFailure {
    /// The staged archive could not be opened or read as a whole.
    OpenFailed,
    /// A sequential decode hit a structural error at this entry index.
    Corrupted(usize),
}

/// The pipeline stage at which a pack failed.
#[derive(Debug, Clone, Copy, PartialEq, Eq, Structural)]
pub enum Stage {
    Fetch,
    Extract,
}

/// Terminal cause of one pack's failure, tagged with the stage it failed at.
#[derive(Debug, PartialEq, Eq)]
pub enum TaskFailure {
    Fetch(FetchFailure),
    Extract(ExtractFailure),
}

impl TaskFailure {
    /// The stage this failure belongs to.
    pub fn stage(&self) -> (s: Stage)
        ensures
            s == Stage::Fetch <==> self is Fetch,
            s == Stage::Extract <==> self is Extract,
    {
        match self {
            TaskFailure::Fetch(_) => Stage::Fetch,
            TaskFailure::Extract(_) => Stage::Extract,
        }
    }
}

/// Classifies an HTTP response status: a fetch succeeds exactly when the
/// server answers 200, any other status is a per-pack fetch failure that
/// carries the status code.
pub fn classify_status(status: u16) -> (r: Result<(), FetchFailure>)
    ensures
        status == 200 <==> r is Ok,
        status != 200 ==> r == Result::<(), FetchFailure>::Err(FetchFailure::BadStatus(status)),
{
    if status == 200 {
        Ok(())
    } else {
        Err(FetchFailure::BadStatus(status))
    }
}

} // verus!
