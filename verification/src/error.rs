//! The failures of the calibration and span workflow.

use vstd::prelude::*;
use vstd::string::*;

verus! {

/// Why a step of the workflow could not be carried out. None of them is
/// retried: each one names a configuration or hardware problem that the
/// caller has to resolve.
#[derive(Debug, PartialEq, Eq)]
pub enum TraceError {
    /// The queue was created without profiling: the calibration marker
    /// carries no completion timestamp. No span may be opened after this.
    ProfilingUnavailable,
    /// The device or its driver failed during enqueue, wait or readback.
    /// Carries the backend's own description of the failure.
    BackendError(String),
    /// A completed command yielded the invalid timestamp sentinel.
    ProfilingDataUnavailable,
    /// The trace sink refused to register the GPU context.
    ContextCreationError,
    /// The trace sink refused to allocate the span.
    SpanAllocationError,
}

impl TraceError {
    /// The text that reports the error: the stage that failed and, for a
    /// backend failure, the backend's own detail.
    pub open spec fn text(self) -> Seq<char> {
        match self {
            TraceError::ProfilingUnavailable => "calibration: profiling is not enabled on the queue"@,
            TraceError::BackendError(detail) => "backend: "@ + detail@,
            TraceError::ProfilingDataUnavailable => "readback: the command carries no valid timestamp"@,
            TraceError::ContextCreationError => "trace sink: the GPU context was refused"@,
            TraceError::SpanAllocationError => "trace sink: the GPU span was refused"@,
        }
    }

    /// The text that reports the error.
    pub fn message(&self) -> (text: String)
        ensures
            text@ == self.text(),
    {
        match self {
            TraceError::ProfilingUnavailable => {
                "calibration: profiling is not enabled on the queue".to_owned()
            },
            TraceError::BackendError(detail) => "backend: ".to_owned().concat(detail.as_str()),
            TraceError::ProfilingDataUnavailable => {
                "readback: the command carries no valid timestamp".to_owned()
            },
            TraceError::ContextCreationError => "trace sink: the GPU context was refused".to_owned(),
            TraceError::SpanAllocationError => "trace sink: the GPU span was refused".to_owned(),
        }
    }
}

} // verus!
