//! The kinds of error that the runtime reports.

use vstd::prelude::*;

verus! {

/// Every way an op call or a worker run can fail.
#[derive(Clone, Copy, Debug, PartialEq, Eq, Structural)]
pub enum ErrorKind {
    /// The permission checker refused the privileged action.
    PermissionDenied,
    /// No resource is open under the handle.
    NotFound,
    /// The resource under the handle is of another kind than the caller expected.
    TypeMismatch,
    /// The arguments of the op call are malformed.
    InvalidInput,
    /// No op is registered under the identifier.
    InvalidOp,
    /// The underlying action was interrupted.
    InterruptedIO,
    /// The worker has terminated and takes no more calls.
    AlreadyClosed,
    /// Script code raised an error that nothing caught.
    UncaughtScriptError,
    /// The execution context or the op registry could not be set up.
    BootstrapFailure,
}

impl ErrorKind {
    /// The name of the kind.
    pub open spec fn label(self) -> Seq<char> {
        match self {
            ErrorKind::PermissionDenied => "PermissionDenied"@,
            ErrorKind::NotFound => "NotFound"@,
            ErrorKind::TypeMismatch => "TypeMismatch"@,
            ErrorKind::InvalidInput => "InvalidInput"@,
            ErrorKind::InvalidOp => "InvalidOp"@,
            ErrorKind::InterruptedIO => "InterruptedIO"@,
            ErrorKind::AlreadyClosed => "AlreadyClosed"@,
            ErrorKind::UncaughtScriptError => "UncaughtScriptError"@,
            ErrorKind::BootstrapFailure => "BootstrapFailure"@,
        }
    }

    /// The name of the kind, as script code sees it.
    pub fn name(self) -> (name: &'static str)
        ensures
            name@ == self.label(),
    {
        match self {
            ErrorKind::PermissionDenied => "PermissionDenied",
            ErrorKind::NotFound => "NotFound",
            ErrorKind::TypeMismatch => "TypeMismatch",
            ErrorKind::InvalidInput => "InvalidInput",
            ErrorKind::InvalidOp => "InvalidOp",
            ErrorKind::InterruptedIO => "InterruptedIO",
            ErrorKind::AlreadyClosed => "AlreadyClosed",
            ErrorKind::UncaughtScriptError => "UncaughtScriptError",
            ErrorKind::BootstrapFailure => "BootstrapFailure",
        }
    }

    /// Errors raised at the level of one op call. They go back to the calling
    /// script as values it can catch; the other two end the worker's run.
    pub open spec fn spec_catchable(self) -> bool {
        self != ErrorKind::UncaughtScriptError && self != ErrorKind::BootstrapFailure
    }

    /// Whether script code can catch this error.
    #[verifier::when_used_as_spec(spec_catchable)]
    pub fn catchable(self) -> (b: bool)
        ensures
            b == self.spec_catchable(),
    {
        match self {
            ErrorKind::UncaughtScriptError => false,
            ErrorKind::BootstrapFailure => false,
            _ => true,
        }
    }
}

} // verus!
