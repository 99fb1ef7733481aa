//! Trusted bindings to the host ABI.
//!
//! Each function here wraps exactly one host call of the guest ABI.  What
//! a call returns depends on the host, so the contracts state only what
//! holds of every outcome; the verified framework takes the returned
//! values as arguments and is proved correct for each of them.

use vstd::prelude::*;

use crate::host::{HostError, HostResult};

verus! {

/// Relies on proxy_wasm::hostcalls::get_configuration: returns the
/// configuration buffer the host holds, or nothing when the host holds
/// none.  Its source reports only success and aborts the callback on any
/// other host status, so the call only ever returns success; the
/// error-tagging arm keeps the capability interface's shape.
#[verifier::external_body]
pub(crate) fn fetch_configuration() -> (r: HostResult<Option<Vec<u8>>>)
    ensures
        r is Ok,
{
    match proxy_wasm::hostcalls::get_configuration() {
        Ok(buffer) => Ok(buffer),
        Err(status) => Err(
            HostError { operation: "proxy_get_configuration", status: status as u32 },
        ),
    }
}

/// Relies on proxy_wasm::hostcalls::done: tells the host that a deferred
/// drain has completed.  Its source returns only success and aborts the
/// callback on any other host status.
#[verifier::external_body]
pub(crate) fn acknowledge_done() -> (r: HostResult<()>)
    ensures
        r is Ok,
{
    match proxy_wasm::hostcalls::done() {
        Ok(unit) => Ok(unit),
        Err(status) => Err(HostError { operation: "proxy_done", status: status as u32 }),
    }
}

/// Relies on proxy_wasm::hostcalls::dispatch_http_call: issues a
/// fire-and-forget outbound HTTP call and returns the correlation token
/// the host assigned.  Its source reports failure only with the host's
/// bad-argument or internal-failure status and aborts the callback on any
/// other host status; nothing is promised of the token's value.
#[verifier::external_body]
pub(crate) fn dispatch_call(
    upstream: &str,
    headers: &Vec<(String, String)>,
    body: Option<&[u8]>,
    trailers: &Vec<(String, String)>,
    timeout_ms: u32,
) -> (r: HostResult<u32>)
    ensures
        r matches Err(e) ==> e.status == 2 || e.status == 10,
{
    let hdrs: Vec<(&str, &str)> = headers.iter().map(|p| (p.0.as_str(), p.1.as_str())).collect();
    let tls: Vec<(&str, &str)> = trailers.iter().map(|p| (p.0.as_str(), p.1.as_str())).collect();
    let timeout = core::time::Duration::from_millis(timeout_ms as u64);
    match proxy_wasm::hostcalls::dispatch_http_call(upstream, hdrs, body, tls, timeout) {
        Ok(token) => Ok(token),
        Err(status) => Err(HostError { operation: "proxy_http_call", status: status as u32 }),
    }
}

} // verus!
