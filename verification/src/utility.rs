//! The two-call "probe size, then fill" protocol for variable-length data.
//!
//! A retrieval callback is first invoked with no destination (capacity 0) to
//! learn the required size, then once more with a destination of exactly
//! that size. The callback reports a buffer status code, the required or
//! written size, and the bytes it wrote; the helpers fold the two calls into
//! one `Result`.

use vstd::prelude::*;
use crate::error::{Error, K4A_BUFFER_RESULT_SUCCEEDED, K4A_BUFFER_RESULT_TOO_SMALL};

verus! {

/// What [`get_k4a_binary_data`] may return, given the callback's possible
/// behaviours: an empty payload when the probe itself succeeds; the bytes of
/// a successful retry after a `TooSmall` probe of size over one; an error
/// exactly when the probe reports a size of at most one, or either call
/// reports a status outside the protocol.
pub open spec fn probe_protocol_result<F: Fn(usize) -> (u32, usize, Vec<u8>)>(
    f: F,
    r: Result<Vec<u8>, Error>,
) -> bool {
    match r {
        Ok(v) => exists|pr: (u32, usize, Vec<u8>)|
            #[trigger] call_ensures(f, (0usize,), pr) && ((pr.0 == K4A_BUFFER_RESULT_SUCCEEDED
                && v@ == Seq::<u8>::empty()) || (pr.0 == K4A_BUFFER_RESULT_TOO_SMALL && pr.1 > 1
                && exists|sr: (u32, usize, Vec<u8>)|
                #[trigger] call_ensures(f, (pr.1,), sr) && sr.0 == K4A_BUFFER_RESULT_SUCCEEDED
                    && v == sr.2)),
        Err(e) => e != Error::Succeeded && exists|pr: (u32, usize, Vec<u8>)|
            #[trigger] call_ensures(f, (0usize,), pr) && ((pr.0 != K4A_BUFFER_RESULT_SUCCEEDED
                && pr.0 != K4A_BUFFER_RESULT_TOO_SMALL && e == Error::spec_from_k4a_buffer_result_t(
                pr.0,
            )) || (pr.0 == K4A_BUFFER_RESULT_TOO_SMALL && pr.1 <= 1 && e == Error::TooSmall) || (
            pr.0 == K4A_BUFFER_RESULT_TOO_SMALL && pr.1 > 1 && exists|sr: (u32, usize, Vec<u8>)|
                #[trigger] call_ensures(f, (pr.1,), sr) && sr.0 != K4A_BUFFER_RESULT_SUCCEEDED
                    && e == Error::spec_from_k4a_buffer_result_t(sr.0))),
    }
}

/// Retrieves a variable-length binary value through the two-call probe
/// protocol. The callback takes the destination capacity (0 for the probe)
/// and reports `(status, required_or_written_size, bytes_written)`.
pub fn get_k4a_binary_data<F: Fn(usize) -> (u32, usize, Vec<u8>)>(f: &F) -> (r: Result<
    Vec<u8>,
    Error,
>)
    requires
        forall|cap: usize| call_requires(*f, (cap,)),
    ensures
        probe_protocol_result(*f, r),
{
    let probe = f(0);
    let (status1, needed, _) = probe;
    if status1 == K4A_BUFFER_RESULT_SUCCEEDED {
        Ok(Vec::new())
    } else if status1 == K4A_BUFFER_RESULT_TOO_SMALL {
        if needed > 1 {
            let filled = f(needed);
            let (status2, _, data) = filled;
            if status2 == K4A_BUFFER_RESULT_SUCCEEDED {
                Ok(data)
            } else {
                Err(Error::from_k4a_buffer_result_t(status2))
            }
        } else {
            Err(Error::TooSmall)
        }
    } else {
        Err(Error::from_k4a_buffer_result_t(status1))
    }
}

/// Probe-pattern round trip: a callback that reports `TooSmall` with size
/// `n` on the probe and success, with one fixed payload, on the `n`-sized
/// retry, makes the retrieval helper return exactly that payload — no
/// truncation, no extra byte, and no error.
pub proof fn lemma_probe_round_trip<F: Fn(usize) -> (u32, usize, Vec<u8>)>(
    f: F,
    n: usize,
    bytes: Vec<u8>,
    r: Result<Vec<u8>, Error>,
)
    requires
        n > 1,
        forall|ret: (u32, usize, Vec<u8>)| #[trigger]
            call_ensures(f, (0usize,), ret) ==> ret.0 == K4A_BUFFER_RESULT_TOO_SMALL && ret.1 == n,
        forall|ret: (u32, usize, Vec<u8>)| #[trigger]
            call_ensures(f, (n,), ret) ==> ret.0 == K4A_BUFFER_RESULT_SUCCEEDED && ret.2 == bytes,
        probe_protocol_result(f, r),
    ensures
        r == Ok::<Vec<u8>, Error>(bytes),
{
}

/// What [`get_k4a_string`] may return; the textual twin of
/// [`probe_protocol_result`].
pub open spec fn probe_protocol_string_result<F: Fn(usize) -> (u32, usize, String)>(
    f: F,
    r: Result<String, Error>,
) -> bool {
    match r {
        Ok(v) => exists|pr: (u32, usize, String)|
            #[trigger] call_ensures(f, (0usize,), pr) && ((pr.0 == K4A_BUFFER_RESULT_SUCCEEDED
                && v@ == Seq::<char>::empty()) || (pr.0 == K4A_BUFFER_RESULT_TOO_SMALL && pr.1 > 1
                && exists|sr: (u32, usize, String)|
                #[trigger] call_ensures(f, (pr.1,), sr) && sr.0 == K4A_BUFFER_RESULT_SUCCEEDED
                    && v == sr.2)),
        Err(e) => e != Error::Succeeded && exists|pr: (u32, usize, String)|
            #[trigger] call_ensures(f, (0usize,), pr) && ((pr.0 != K4A_BUFFER_RESULT_SUCCEEDED
                && pr.0 != K4A_BUFFER_RESULT_TOO_SMALL && e == Error::spec_from_k4a_buffer_result_t(
                pr.0,
            )) || (pr.0 == K4A_BUFFER_RESULT_TOO_SMALL && pr.1 <= 1 && e == Error::TooSmall) || (
            pr.0 == K4A_BUFFER_RESULT_TOO_SMALL && pr.1 > 1 && exists|sr: (u32, usize, String)|
                #[trigger] call_ensures(f, (pr.1,), sr) && sr.0 != K4A_BUFFER_RESULT_SUCCEEDED
                    && e == Error::spec_from_k4a_buffer_result_t(sr.0))),
    }
}

/// Retrieves a variable-length text value (a serial number, a tag value)
/// through the two-call probe protocol.
pub fn get_k4a_string<F: Fn(usize) -> (u32, usize, String)>(f: &F) -> (r: Result<String, Error>)
    requires
        forall|cap: usize| call_requires(*f, (cap,)),
    ensures
        probe_protocol_string_result(*f, r),
{
    let probe = f(0);
    let (status1, needed, _) = probe;
    if status1 == K4A_BUFFER_RESULT_SUCCEEDED {
        Ok(String::new())
    } else if status1 == K4A_BUFFER_RESULT_TOO_SMALL {
        if needed > 1 {
            let filled = f(needed);
            let (status2, _, text) = filled;
            if status2 == K4A_BUFFER_RESULT_SUCCEEDED {
                Ok(text)
            } else {
                Err(Error::from_k4a_buffer_result_t(status2))
            }
        } else {
            Err(Error::TooSmall)
        }
    } else {
        Err(Error::from_k4a_buffer_result_t(status1))
    }
}

/// The round-trip law for the textual helper.
pub proof fn lemma_probe_string_round_trip<F: Fn(usize) -> (u32, usize, String)>(
    f: F,
    n: usize,
    text: String,
    r: Result<String, Error>,
)
    requires
        n > 1,
        forall|ret: (u32, usize, String)| #[trigger]
            call_ensures(f, (0usize,), ret) ==> ret.0 == K4A_BUFFER_RESULT_TOO_SMALL && ret.1 == n,
        forall|ret: (u32, usize, String)| #[trigger]
            call_ensures(f, (n,), ret) ==> ret.0 == K4A_BUFFER_RESULT_SUCCEEDED && ret.2 == text,
        probe_protocol_string_result(f, r),
    ensures
        r == Ok::<String, Error>(text),
{
}

} // verus!
