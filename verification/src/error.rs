//! Errors that Direct2D reports through `HRESULT` codes.
use vstd::prelude::*;

verus! {

/// Whether an `HRESULT` reports success: its severity bit, the sign bit, is clear.
pub open spec fn hresult_succeeded(hr: i32) -> bool {
    hr >= 0
}

/// Whether `hr` reports success (the Windows `SUCCEEDED` test).
pub fn succeeded(hr: i32) -> (res: bool)
    ensures
        res == hresult_succeeded(hr),
        res == (hr >= 0),
{
    hr >= 0
}

/// An `HRESULT` reports success exactly when its severity bit, bit 31, is
/// clear: every negative `HRESULT` is a failure and every other one a success.
pub proof fn lemma_success_is_severity_bit_clear(hr: i32)
    ensures
        hresult_succeeded(hr) <==> (hr as u32) & 0x8000_0000u32 == 0,
        hr < 0 ==> !hresult_succeeded(hr),
        hr >= 0 ==> hresult_succeeded(hr),
{
    assert((hr >= 0) <==> (hr as u32) & 0x8000_0000u32 == 0) by (bit_vector);
}

/// An error reported by a Direct2D call.
#[derive(Copy, Clone, Debug, PartialEq, Eq, Structural)]
pub enum Error {
    /// The failing `HRESULT` that the call returned.
    ComError(i32),
}

impl From<i32> for Error {
    fn from(hr: i32) -> (res: Error) {
        Error::ComError(hr)
    }
}

impl vstd::std_specs::convert::FromSpecImpl<i32> for Error {
    open spec fn obeys_from_spec() -> bool {
        true
    }

    open spec fn from_spec(hr: i32) -> Error {
        Error::ComError(hr)
    }
}

} // verus!
