//! The outcome of each category of a multi-category scan, and when a
//! category's data may be published.
use vstd::prelude::*;
use crate::models::{GoodArtifact, GoodCharacter, GoodWeapon};

verus! {

/// Outcome of one category of a scan.
///
/// Only a `Complete` category may be published or exported: an aborted,
/// failed or skipped category says so, rather than looking like an empty
/// inventory.
pub enum ScanPhaseResult<T> {
    /// The category was not requested.
    NotAttempted,
    /// The category was requested but did not finish, or must not be published.
    Incomplete,
    /// The category finished with data that may be published.
    Complete(Vec<T>),
}

impl<T> ScanPhaseResult<T> {
    /// The data of a complete category.
    pub fn into_complete(self) -> (r: Option<Vec<T>>)
        ensures
            match self {
                ScanPhaseResult::Complete(d) => r == Some(d),
                _ => r is None,
            },
    {
        match self {
            ScanPhaseResult::Complete(data) => Some(data),
            ScanPhaseResult::NotAttempted | ScanPhaseResult::Incomplete => None,
        }
    }
}

/// The outcome of each category of a scan.
pub struct ScanRunResult {
    pub characters: ScanPhaseResult<GoodCharacter>,
    pub weapons: ScanPhaseResult<GoodWeapon>,
    pub artifacts: ScanPhaseResult<GoodArtifact>,
}

/// Whether a failed category stops the whole scan or only marks itself
/// incomplete.
#[derive(Clone, Copy, Debug, PartialEq, Eq, Structural)]
pub enum ScanFailurePolicy {
    StopOnError,
    ContinueOnError,
}

/// How a scan treats cancellation and failure; local exports and the HTTP
/// `/scan` job differ here.
#[derive(Clone, Copy, Debug, PartialEq, Eq, Structural)]
pub struct ScanRunOptions {
    /// A category cancelled by the user becomes complete and empty, so that
    /// a local scan can still export what the other categories collected.
    pub save_on_cancel: bool,
    /// A category that returned data although the scan was cancelled may
    /// still be published (local exports keep partial files; the HTTP job
    /// does not, so that clients never read data of a cancelled job).
    pub accept_cancelled_success: bool,
    pub failure_policy: ScanFailurePolicy,
}

/// What a category's scanner returned becomes: its data, complete, unless
/// the scan was cancelled and cancelled data is not accepted (incomplete);
/// a failure under cancellation with `save_on_cancel` becomes complete and
/// empty; any other failure stops the scan (`Err`) or marks the category
/// incomplete, as the failure policy says.
pub fn phase_result<T, E>(result: Result<Vec<T>, E>, cancelled: bool, options: ScanRunOptions) -> (r:
    Result<ScanPhaseResult<T>, E>)
    ensures
        match result {
            Ok(data) => if options.accept_cancelled_success || !cancelled {
                r matches Ok(ScanPhaseResult::Complete(d)) && d == data
            } else {
                r matches Ok(ScanPhaseResult::Incomplete)
            },
            Err(e) => if options.save_on_cancel && cancelled {
                r matches Ok(ScanPhaseResult::Complete(d)) && d@.len() == 0
            } else if options.failure_policy == ScanFailurePolicy::StopOnError {
                r matches Err(x) && x == e
            } else {
                r matches Ok(ScanPhaseResult::Incomplete)
            },
        },
{
    match result {
        Ok(data) => {
            if options.accept_cancelled_success || !cancelled {
                Ok(ScanPhaseResult::Complete(data))
            } else {
                Ok(ScanPhaseResult::Incomplete)
            }
        },
        Err(e) => {
            if options.save_on_cancel && cancelled {
                Ok(ScanPhaseResult::Complete(Vec::new()))
            } else {
                match options.failure_policy {
                    ScanFailurePolicy::StopOnError => Err(e),
                    ScanFailurePolicy::ContinueOnError => Ok(ScanPhaseResult::Incomplete),
                }
            }
        },
    }
}

/// The artifact pass skips opening the inventory when the weapon pass left
/// it open, that is when the weapons completed.
pub fn artifacts_skip_open<T>(weapons: &ScanPhaseResult<T>) -> (b: bool)
    ensures
        b == (weapons is Complete),
{
    match weapons {
        ScanPhaseResult::Complete(_) => true,
        _ => false,
    }
}

/// Whether a requested later category runs: only while the scan has not
/// been cancelled.
pub fn phase_runs(requested: bool, cancelled: bool) -> (b: bool)
    ensures
        b == (requested && !cancelled),
{
    requested && !cancelled
}

} // verus!
