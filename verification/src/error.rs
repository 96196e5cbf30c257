//! The failures that a backend operation can report.
use vstd::prelude::*;
use vstd::string::StringExecFns;

verus! {

/// The class of a [`BackendError`], by what the caller has to do about it.
#[derive(Clone, Copy, Debug, PartialEq, Eq, Structural)]
pub enum ErrorKind {
    /// The operation does not fit the backend's current state.
    State,
    /// The configuration lacks something the operation needs.
    Configuration,
    /// A handle that the current state implies is absent.
    Internal,
    /// The sampler refused to start.
    SamplerFailure,
}

/// Why a backend operation failed.
#[derive(Clone, Copy, Debug, PartialEq, Eq, Structural)]
pub enum BackendError {
    /// `initialize` was called on a backend that is not uninitialized.
    AlreadyInitialized,
    /// `start` was called on a backend that is not ready.
    NotReady,
    /// `stop` or `report` was called on a backend that is not running.
    NotRunning,
    /// `initialize` was called without a process id in the configuration.
    NoProcessId,
    /// `start` was called with a time limit whose deadline the clock cannot
    /// hold.
    TimeLimitTooLong,
    /// The sampler handle is absent although the state implies one.
    SamplerNotSet,
    /// The status receiver is absent although the state implies one.
    ErrorReceiverNotSet,
    /// The stack-trace receiver is absent although the state implies one.
    StackReceiverNotSet,
    /// The sampler returned an error when asked to start.
    SamplerFailed,
}

impl BackendError {
    /// The class this error belongs to.
    pub open spec fn kind_of(self) -> ErrorKind {
        match self {
            BackendError::AlreadyInitialized | BackendError::NotReady | BackendError::NotRunning =>
                ErrorKind::State,
            BackendError::NoProcessId | BackendError::TimeLimitTooLong => ErrorKind::Configuration,
            BackendError::SamplerNotSet
            | BackendError::ErrorReceiverNotSet
            | BackendError::StackReceiverNotSet => ErrorKind::Internal,
            BackendError::SamplerFailed => ErrorKind::SamplerFailure,
        }
    }

    /// The text of this error.
    pub open spec fn message_of(self) -> Seq<char> {
        match self {
            BackendError::AlreadyInitialized => "Rbspy: Backend is already Initialized"@,
            BackendError::NotReady => "Rbspy: Backend is not Ready"@,
            BackendError::NotRunning => "Rbspy: Backend is not Running"@,
            BackendError::NoProcessId => "Rbspy: No Process ID Specified"@,
            BackendError::TimeLimitTooLong => "Rbspy: Time Limit is too long"@,
            BackendError::SamplerNotSet => "Rbspy: Sampler is not set"@,
            BackendError::ErrorReceiverNotSet => "Rbspy: error receiver is not set"@,
            BackendError::StackReceiverNotSet => "Rbspy: StackTrace receiver is not set"@,
            BackendError::SamplerFailed => "Rbspy: Sampler failed to start"@,
        }
    }

    /// The class this error belongs to.
    pub fn kind(&self) -> (k: ErrorKind)
        ensures
            k == self.kind_of(),
    {
        match self {
            BackendError::AlreadyInitialized => ErrorKind::State,
            BackendError::NotReady => ErrorKind::State,
            BackendError::NotRunning => ErrorKind::State,
            BackendError::NoProcessId => ErrorKind::Configuration,
            BackendError::TimeLimitTooLong => ErrorKind::Configuration,
            BackendError::SamplerNotSet => ErrorKind::Internal,
            BackendError::ErrorReceiverNotSet => ErrorKind::Internal,
            BackendError::StackReceiverNotSet => ErrorKind::Internal,
            BackendError::SamplerFailed => ErrorKind::SamplerFailure,
        }
    }

    /// The text of this error, for an operator to read.
    pub fn message(&self) -> (s: String)
        ensures
            s@ == self.message_of(),
    {
        match self {
            BackendError::AlreadyInitialized => String::from_str(
                "Rbspy: Backend is already Initialized",
            ),
            BackendError::NotReady => String::from_str("Rbspy: Backend is not Ready"),
            BackendError::NotRunning => String::from_str("Rbspy: Backend is not Running"),
            BackendError::NoProcessId => String::from_str("Rbspy: No Process ID Specified"),
            BackendError::TimeLimitTooLong => String::from_str("Rbspy: Time Limit is too long"),
            BackendError::SamplerNotSet => String::from_str("Rbspy: Sampler is not set"),
            BackendError::ErrorReceiverNotSet => String::from_str(
                "Rbspy: error receiver is not set",
            ),
            BackendError::StackReceiverNotSet => String::from_str(
                "Rbspy: StackTrace receiver is not set",
            ),
            BackendError::SamplerFailed => String::from_str("Rbspy: Sampler failed to start"),
        }
    }
}

} // verus!
