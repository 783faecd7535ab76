//! Compilation status of an asynchronously compiled compute pipeline, and
//! convenience queries over it.

use vstd::prelude::*;

verus! {

/// Status of one pipeline's compilation: requested but not finished,
/// finished and dispatchable, or permanently failed.
#[derive(Clone, Copy, Debug, PartialEq, Eq, Structural)]
pub enum PipelineStatus {
    Pending,
    Ready,
    Failed,
}

/// Readiness queries over a pipeline's compilation state.
pub trait PipelineStateUtils {
    /// True exactly when the pipeline compiled and can be dispatched.
    spec fn ok_spec(&self) -> bool;

    /// True exactly when compilation failed for good.
    spec fn err_spec(&self) -> bool;

    /// True exactly when compilation was requested and has not finished.
    spec fn queued_spec(&self) -> bool;

    fn is_ok(&self) -> (r: bool)
        ensures
            r == self.ok_spec(),
    ;

    fn is_err(&self) -> (r: bool)
        ensures
            r == self.err_spec(),
    ;

    fn is_queued(&self) -> (r: bool)
        ensures
            r == self.queued_spec(),
    ;
}

impl PipelineStateUtils for PipelineStatus {
    open spec fn ok_spec(&self) -> bool {
        *self is Ready
    }

    open spec fn err_spec(&self) -> bool {
        *self is Failed
    }

    open spec fn queued_spec(&self) -> bool {
        *self is Pending
    }

    fn is_ok(&self) -> (r: bool) {
        matches!(self, PipelineStatus::Ready)
    }

    fn is_err(&self) -> (r: bool) {
        matches!(self, PipelineStatus::Failed)
    }

    fn is_queued(&self) -> (r: bool) {
        matches!(self, PipelineStatus::Pending)
    }
}

} // verus!
