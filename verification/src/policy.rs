//! The action/outcome model and the error policy.
//!
//! A reconciliation ends by handing the driving watch/queue subsystem one
//! of a small closed set of instructions: wait for the next change
//! notification, or run once more after a delay.  A failed reconciliation
//! is routed through [`error_policy`], which retries uniformly on a fixed
//! five-minute schedule.

use vstd::prelude::*;

verus! {

/// The fixed retry delay, in seconds, used for every failure.
pub const RETRY_DELAY_SECONDS: u64 = 300;

/// An instruction to the driving watch/queue subsystem about when to run
/// the next reconciliation of the same manager.
#[derive(Debug)]
pub enum Action {
    /// Do nothing further; wait for the next watch-detected change to the
    /// manager or one of its owned children.
    AwaitChange,
    /// Schedule exactly one more reconciliation after the given delay,
    /// regardless of whether anything changed.
    RequeueAfter { seconds: u64 },
}

/// A failure a reconciliation attempt can end with.
#[derive(Debug)]
pub enum Error {
    /// The manager object lacks an identity field (name, namespace or UID)
    /// that is needed to form a valid owner reference or to address the
    /// object; a data error, not a transient fault.
    MissingIdentity,
    /// A cluster read or write failed; the transport's description of the
    /// failure is kept for the host runtime to record.
    ApiError { message: String },
}

/// The mathematical model of an [`Error`] value.
#[verifier::ext_equal]
pub enum ErrorView {
    MissingIdentity,
    ApiError { message: Seq<char> },
}

impl View for Error {
    type V = ErrorView;

    open spec fn view(&self) -> ErrorView {
        match self {
            Error::MissingIdentity => ErrorView::MissingIdentity,
            Error::ApiError { message } => ErrorView::ApiError { message: message@ },
        }
    }
}

/// Maps a reconciliation failure to a retry action.
///
/// Every error is treated uniformly: no classification into transient and
/// permanent failures is made, and the retry delay never grows.
pub fn error_policy(error: &Error) -> (action: Action)
    ensures
        action == (Action::RequeueAfter { seconds: RETRY_DELAY_SECONDS }),
{
    Action::RequeueAfter { seconds: RETRY_DELAY_SECONDS }
}

} // verus!
