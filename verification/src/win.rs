//! The error side of a platform publisher binding.
//!
//! A native platform call reports failure with an error value; the library
//! keeps what it reads of such a value — a numeric code and a message — in
//! [`PublisherError`], and wraps it in the single-variant [`WinError`].
//! [`wrap_outcome`] is the whole pass-through policy: a successful native
//! call stays a success, and a failed one surfaces its error unchanged.

use vstd::prelude::*;

verus! {

/// What the library reads of a platform publisher's native error: its
/// numeric code and its message, as plain values.
pub struct PublisherError {
    pub code: i32,
    pub message: String,
}

/// The library's error: a native publisher error, carried unchanged.
pub enum WinError {
    Publisher(PublisherError),
}

impl From<PublisherError> for WinError {
    fn from(e: PublisherError) -> (w: WinError) {
        WinError::Publisher(e)
    }
}

impl vstd::std_specs::convert::FromSpecImpl<PublisherError> for WinError {
    open spec fn obeys_from_spec() -> bool {
        true
    }

    open spec fn from_spec(e: PublisherError) -> WinError {
        WinError::Publisher(e)
    }
}

/// What wrapping a native outcome yields: success passes through, and a
/// native error is carried unchanged inside `WinError::Publisher`.
pub open spec fn wrapped(r: Result<(), PublisherError>) -> Result<(), WinError> {
    match r {
        Ok(u) => Ok(u),
        Err(e) => Err(WinError::Publisher(e)),
    }
}

/// Turns the outcome of a native publisher call into the library's result:
/// a success stays a success, and a failure wraps the native error without
/// changing it.
pub fn wrap_outcome(r: Result<(), PublisherError>) -> (w: Result<(), WinError>)
    ensures
        w is Ok <==> r is Ok,
        r matches Err(e) ==> w == Err::<(), WinError>(WinError::Publisher(e)),
        w == wrapped(r),
{
    match r {
        Ok(()) => Ok(()),
        Err(e) => Err(WinError::from(e)),
    }
}

} // verus!
