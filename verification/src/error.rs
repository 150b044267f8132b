//! Status taxonomy of the native runtime and its classification rules.
//!
//! The native entry points report outcomes through small integer status
//! codes, one family per call shape (plain calls, buffer probes, blocking
//! waits, stream reads). Every family is folded into the single [`Error`]
//! type; `Timeout` is a control-flow signal that callers retry, every other
//! non-success outcome propagates as a fatal error.

use vstd::prelude::*;

verus! {

pub const K4A_RESULT_SUCCEEDED: u32 = 0;
pub const K4A_RESULT_FAILED: u32 = 1;

pub const K4A_BUFFER_RESULT_SUCCEEDED: u32 = 0;
pub const K4A_BUFFER_RESULT_FAILED: u32 = 1;
pub const K4A_BUFFER_RESULT_TOO_SMALL: u32 = 2;

pub const K4A_WAIT_RESULT_SUCCEEDED: u32 = 0;
pub const K4A_WAIT_RESULT_FAILED: u32 = 1;
pub const K4A_WAIT_RESULT_TIMEOUT: u32 = 2;

pub const K4A_STREAM_RESULT_SUCCEEDED: u32 = 0;
pub const K4A_STREAM_RESULT_FAILED: u32 = 1;
pub const K4A_STREAM_RESULT_EOF: u32 = 2;

/// Outcome of a native call, as seen by every layer above the raw entry
/// points.
#[derive(Clone, Copy, Debug, PartialEq, Eq, Structural)]
pub enum Error {
    /// The call succeeded; never surfaced as an `Err`.
    Succeeded,
    /// Generic native failure.
    Failed,
    /// A buffer probe reported that the destination is too small.
    TooSmall,
    /// A blocking call exceeded its window; retried, not a defect.
    Timeout,
    /// An OS-level diagnostic code, e.g. from module or symbol resolution.
    Win32Error(u32),
    /// Playback reached the end of the stream.
    Eof,
}

impl Error {
    /// Classification of a plain-call status code.
    pub open spec fn spec_from_k4a_result_t(s: u32) -> Error {
        if s == K4A_RESULT_SUCCEEDED {
            Error::Succeeded
        } else {
            Error::Failed
        }
    }

    pub fn from_k4a_result_t(s: u32) -> (r: Error)
        ensures
            r == Error::spec_from_k4a_result_t(s),
    {
        if s == K4A_RESULT_SUCCEEDED {
            Error::Succeeded
        } else {
            Error::Failed
        }
    }

    /// Classification of a buffer-probe status code.
    pub open spec fn spec_from_k4a_buffer_result_t(s: u32) -> Error {
        if s == K4A_BUFFER_RESULT_SUCCEEDED {
            Error::Succeeded
        } else if s == K4A_BUFFER_RESULT_TOO_SMALL {
            Error::TooSmall
        } else {
            Error::Failed
        }
    }

    pub fn from_k4a_buffer_result_t(s: u32) -> (r: Error)
        ensures
            r == Error::spec_from_k4a_buffer_result_t(s),
    {
        if s == K4A_BUFFER_RESULT_SUCCEEDED {
            Error::Succeeded
        } else if s == K4A_BUFFER_RESULT_TOO_SMALL {
            Error::TooSmall
        } else {
            Error::Failed
        }
    }

    /// Classification of a blocking-wait status code. The timeout code maps
    /// to `Timeout` and to nothing else, so polling callers can tell "no
    /// data yet" from a real failure.
    pub open spec fn spec_from_k4a_wait_result_t(s: u32) -> Error {
        if s == K4A_WAIT_RESULT_SUCCEEDED {
            Error::Succeeded
        } else if s == K4A_WAIT_RESULT_TIMEOUT {
            Error::Timeout
        } else {
            Error::Failed
        }
    }

    pub fn from_k4a_wait_result_t(s: u32) -> (r: Error)
        ensures
            r == Error::spec_from_k4a_wait_result_t(s),
            r == Error::Timeout <==> s == K4A_WAIT_RESULT_TIMEOUT,
    {
        if s == K4A_WAIT_RESULT_SUCCEEDED {
            Error::Succeeded
        } else if s == K4A_WAIT_RESULT_TIMEOUT {
            Error::Timeout
        } else {
            Error::Failed
        }
    }

    /// Classification of a stream-read status code.
    pub open spec fn spec_from_k4a_stream_result_t(s: u32) -> Error {
        if s == K4A_STREAM_RESULT_SUCCEEDED {
            Error::Succeeded
        } else if s == K4A_STREAM_RESULT_EOF {
            Error::Eof
        } else {
            Error::Failed
        }
    }

    pub fn from_k4a_stream_result_t(s: u32) -> (r: Error)
        ensures
            r == Error::spec_from_k4a_stream_result_t(s),
    {
        if s == K4A_STREAM_RESULT_SUCCEEDED {
            Error::Succeeded
        } else if s == K4A_STREAM_RESULT_EOF {
            Error::Eof
        } else {
            Error::Failed
        }
    }

    /// Folds this status into a `Result`, handing `ok` through on success.
    pub fn to_result<T>(self, ok: T) -> (r: Result<T, Error>)
        ensures
            self == Error::Succeeded ==> r == Ok::<T, Error>(ok),
            self != Error::Succeeded ==> r == Err::<T, Error>(self),
    {
        match self {
            Error::Succeeded => Ok(ok),
            _ => Err(self),
        }
    }

    /// Folds this status into a `Result`, building the success value only
    /// when it is actually needed.
    pub fn to_result_fn<T, F: FnOnce() -> T>(self, ok: F) -> (r: Result<T, Error>)
        requires
            self == Error::Succeeded ==> call_requires(ok, ()),
        ensures
            match r {
                Ok(v) => self == Error::Succeeded && call_ensures(ok, (), v),
                Err(e) => self != Error::Succeeded && e == self,
            },
    {
        match self {
            Error::Succeeded => Ok(ok()),
            _ => Err(self),
        }
    }
}

} // verus!
