use vstd::prelude::*;

verus! {

/// The port the backend is probed on.
pub const BACKEND_PORT: u16 = 8081;

/// The backend's base address: the one the health probe targets.
pub fn backend_url() -> (r: String)
    ensures
        r@ == "http://localhost:8081"@,
{
    String::from_str("http://localhost:8081")
}

/// An HTTP status in the success class, 200 to 299.
pub open spec fn is_success_status(code: u16) -> bool {
    200 <= code < 300
}

/// Whether an HTTP status is in the success class.
pub fn is_success(code: u16) -> (r: bool)
    ensures
        r == is_success_status(code),
{
    200 <= code && code < 300
}

/// Whether a probe found the backend: a response (`Some`, with its status)
/// with a success status. No response at all counts as unreachable.
pub open spec fn reachable(response: Option<u16>) -> bool {
    match response {
        Some(code) => is_success_status(code),
        None => false,
    }
}

/// Reduces the outcome of a probe of [`backend_url`] to reachability. Every
/// failure becomes `false`; the error branch is never taken.
pub fn check_backend_status(response: Option<u16>) -> (r: Result<bool, String>)
    ensures
        r == Ok::<bool, String>(reachable(response)),
{
    match response {
        Some(code) => Ok(is_success(code)),
        None => Ok(false),
    }
}

} // verus!
