//! The errors of a bulkhead.
use tokio::sync::AcquireError;
use tokio::time::error::Elapsed;
use vstd::prelude::*;
use vstd::std_specs::convert::FromSpecImpl;

verus! {

/// `tokio::time::error::Elapsed`, the error with which a `tokio::time::timeout`
/// ends when the time is up first. Opaque: it carries no data.
#[verifier::external_type_specification]
#[verifier::external_body]
pub struct ExElapsed(Elapsed);

/// `tokio::sync::AcquireError`, the error with which waiting on a closed
/// `tokio::sync::Semaphore` ends. Opaque: it carries no data.
#[verifier::external_type_specification]
#[verifier::external_body]
pub struct ExAcquireError(AcquireError);

/// The error type for operations with a bulkhead.
#[derive(Debug, Clone, Copy, PartialEq, Eq, Structural)]
pub enum BulkheadError {
    /// The permit could not be acquired before the maximum wait duration was
    /// over. The guarded work never ran.
    Timeout,
    /// A bulkhead was to be built with no permit at all.
    InvalidConcurrentCalls,
    /// The semaphore of the bulkhead has been closed, so that no wait on it
    /// can ever succeed.
    Acquire,
}

impl BulkheadError {
    /// The text of the message of each error.
    pub open spec fn message_text(self) -> Seq<char> {
        match self {
            BulkheadError::Timeout => "the maximum number of concurrent calls is met"@,
            BulkheadError::InvalidConcurrentCalls => "max concurrent calls must be at least 1"@,
            BulkheadError::Acquire => "the bulkhead semaphore has been closed"@,
        }
    }

    /// The message of the error, for display.
    pub fn message(&self) -> (text: String)
        ensures
            text@ == self.message_text(),
    {
        match self {
            BulkheadError::Timeout => "the maximum number of concurrent calls is met".to_owned(),
            BulkheadError::InvalidConcurrentCalls => {
                "max concurrent calls must be at least 1".to_owned()
            },
            BulkheadError::Acquire => "the bulkhead semaphore has been closed".to_owned(),
        }
    }
}

impl From<Elapsed> for BulkheadError {
    /// A wait that ran out of time is a [`BulkheadError::Timeout`].
    fn from(_err: Elapsed) -> (error: Self) {
        BulkheadError::Timeout
    }
}

impl FromSpecImpl<Elapsed> for BulkheadError {
    open spec fn obeys_from_spec() -> bool {
        true
    }

    open spec fn from_spec(_err: Elapsed) -> Self {
        BulkheadError::Timeout
    }
}

impl From<AcquireError> for BulkheadError {
    /// A wait on a closed semaphore is a [`BulkheadError::Acquire`].
    fn from(_err: AcquireError) -> (error: Self) {
        BulkheadError::Acquire
    }
}

impl FromSpecImpl<AcquireError> for BulkheadError {
    open spec fn obeys_from_spec() -> bool {
        true
    }

    open spec fn from_spec(_err: AcquireError) -> Self {
        BulkheadError::Acquire
    }
}

} // verus!
