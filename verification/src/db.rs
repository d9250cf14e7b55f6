//! Storage layer: repository contracts and the error taxonomy shared by
//! every storage backend.

pub mod memory;
pub mod menu;
pub mod order;

use vstd::prelude::*;

verus! {

/// Storage-level failure taxonomy. Connection failures (pool unreachable or
/// exhausted) are kept apart from statement-level failures, and detail-lookup
/// failures are distinguishable from create/list failures for diagnosis.
/// Each variant carries a description of the underlying cause for logging;
/// callers only ever see the coarse kind.
#[derive(Debug)]
pub enum OperationError {
    FailedToConnect(String),
    FailedToCreate(String),
    FailedToGetDetail(String),
    OtherError,
}

impl OperationError {
    /// A short tag naming the failure kind, for logs.
    pub fn kind(&self) -> (r: &'static str)
        ensures
            r@ == match self {
                OperationError::FailedToConnect(_) => "connection failure"@,
                OperationError::FailedToCreate(_) => "create failure"@,
                OperationError::FailedToGetDetail(_) => "detail failure"@,
                OperationError::OtherError => "storage failure"@,
            },
    {
        match self {
            OperationError::FailedToConnect(_) => "connection failure",
            OperationError::FailedToCreate(_) => "create failure",
            OperationError::FailedToGetDetail(_) => "detail failure",
            OperationError::OtherError => "storage failure",
        }
    }
}

} // verus!
