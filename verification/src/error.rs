//! Errors reported by the native runtime and by pipeline setup.
use vstd::prelude::*;

verus! {

/// An error reported by the native runtime through a non-zero status code.
#[derive(Debug, Clone, Copy, PartialEq, Eq, Structural)]
pub enum InferenceError {
    GeneralError,
    NotImplemented,
    NetworkNotLoaded,
    ParameterMismatch,
    NotFound,
    OutOfBounds,
    Unexpected,
    RequestBusy,
    ResultNotReady,
    NotAllocated,
    InferNotStarted,
    NetworkNotRead,
    InferCancelled,
    InvalidCParam,
    UnknownCError,
    NotImplementCMethod,
    UnknownException,
    /// A status code outside the range the runtime documents.
    Undefined(i32),
}

/// The smallest (most negative) status code the runtime documents.
pub const LOWEST_KNOWN_STATUS: i32 = -17;

impl InferenceError {
    /// The native status code that this error stands for.
    pub open spec fn code(self) -> int {
        match self {
            InferenceError::GeneralError => -1,
            InferenceError::NotImplemented => -2,
            InferenceError::NetworkNotLoaded => -3,
            InferenceError::ParameterMismatch => -4,
            InferenceError::NotFound => -5,
            InferenceError::OutOfBounds => -6,
            InferenceError::Unexpected => -7,
            InferenceError::RequestBusy => -8,
            InferenceError::ResultNotReady => -9,
            InferenceError::NotAllocated => -10,
            InferenceError::InferNotStarted => -11,
            InferenceError::NetworkNotRead => -12,
            InferenceError::InferCancelled => -13,
            InferenceError::InvalidCParam => -14,
            InferenceError::UnknownCError => -15,
            InferenceError::NotImplementCMethod => -16,
            InferenceError::UnknownException => -17,
            InferenceError::Undefined(status) => status as int,
        }
    }

    /// The status codes that have a named error of their own.
    pub open spec fn is_known_status(status: i32) -> bool {
        LOWEST_KNOWN_STATUS <= status < 0
    }

    /// Whether this is the error that the non-zero status code `status`
    /// reports: the error with that code, named where the runtime documents
    /// the code and `Undefined` otherwise.
    pub open spec fn reports(self, status: i32) -> bool {
        &&& self.code() == status
        &&& (self is Undefined <==> !Self::is_known_status(status))
    }

    /// Turns a native status code into a `Result`.
    pub fn convert(status: i32) -> (r: Result<(), InferenceError>)
        ensures
            r is Ok <==> status == 0,
            r matches Err(e) ==> e.reports(status),
    {
        match status {
            0 => Ok(()),
            -1 => Err(InferenceError::GeneralError),
            -2 => Err(InferenceError::NotImplemented),
            -3 => Err(InferenceError::NetworkNotLoaded),
            -4 => Err(InferenceError::ParameterMismatch),
            -5 => Err(InferenceError::NotFound),
            -6 => Err(InferenceError::OutOfBounds),
            -7 => Err(InferenceError::Unexpected),
            -8 => Err(InferenceError::RequestBusy),
            -9 => Err(InferenceError::ResultNotReady),
            -10 => Err(InferenceError::NotAllocated),
            -11 => Err(InferenceError::InferNotStarted),
            -12 => Err(InferenceError::NetworkNotRead),
            -13 => Err(InferenceError::InferCancelled),
            -14 => Err(InferenceError::InvalidCParam),
            -15 => Err(InferenceError::UnknownCError),
            -16 => Err(InferenceError::NotImplementCMethod),
            -17 => Err(InferenceError::UnknownException),
            _ => Err(InferenceError::Undefined(status)),
        }
    }
}

} // verus!

verus! {

/// Why the native runtime could not be brought up.
#[derive(Debug, Clone, PartialEq, Eq)]
pub enum LoadingError {
    /// The system failed to load the shared libraries; the text says why.
    SystemFailure(String),
    /// No path to the shared libraries (or to a required model) was given.
    CannotFindLibraryPath,
}

/// Why a pipeline could not be set up.
#[derive(Debug, Clone, PartialEq, Eq)]
pub enum SetupError {
    /// The native runtime refused to create the pipeline.
    Inference(InferenceError),
    /// The runtime, or something it needs, could not be loaded.
    Loading(LoadingError),
}

impl SetupError {
    /// Turns the outcome of a native constructor into a setup outcome.
    pub fn from_status(status: i32) -> (r: Result<(), SetupError>)
        ensures
            r is Ok <==> status == 0,
            r matches Err(e) ==> e is Inference,
            r matches Err(SetupError::Inference(e)) ==> e.reports(status),
    {
        match InferenceError::convert(status) {
            Ok(()) => Ok(()),
            Err(e) => Err(SetupError::Inference(e)),
        }
    }
}

/// Each non-zero status code has exactly one meaning: one error reports it.
pub proof fn lemma_status_meaning(status: i32, e1: InferenceError, e2: InferenceError)
    requires
        status != 0,
    ensures
        exists|e: InferenceError| #[trigger] e.reports(status),
        e1.reports(status) && e2.reports(status) ==> e1 == e2,
{
    let e = if status == -1 { InferenceError::GeneralError }
        else if status == -2 { InferenceError::NotImplemented }
        else if status == -3 { InferenceError::NetworkNotLoaded }
        else if status == -4 { InferenceError::ParameterMismatch }
        else if status == -5 { InferenceError::NotFound }
        else if status == -6 { InferenceError::OutOfBounds }
        else if status == -7 { InferenceError::Unexpected }
        else if status == -8 { InferenceError::RequestBusy }
        else if status == -9 { InferenceError::ResultNotReady }
        else if status == -10 { InferenceError::NotAllocated }
        else if status == -11 { InferenceError::InferNotStarted }
        else if status == -12 { InferenceError::NetworkNotRead }
        else if status == -13 { InferenceError::InferCancelled }
        else if status == -14 { InferenceError::InvalidCParam }
        else if status == -15 { InferenceError::UnknownCError }
        else if status == -16 { InferenceError::NotImplementCMethod }
        else if status == -17 { InferenceError::UnknownException }
        else { InferenceError::Undefined(status) };
    assert(e.reports(status));
}

} // verus!
