//! Status codes of both APIs and the library's view of a failed call.
use vstd::prelude::*;

verus! {

/// `VK_SUCCESS`.
pub const VK_SUCCESS: i32 = 0;

/// The status that made a call fail.
#[derive(Debug, Clone, Copy, PartialEq, Eq, Structural)]
pub enum Status {
    /// A result code of the graphics API other than success.
    Graphics(i32),
    /// A failing `HRESULT` of the OS compositor API.
    Os(i32),
}

/// Relies on bedrock's `VkResultHandler::into_result` for `VkResult`: success
/// becomes `Ok`, every other code is handed back in a `VkResultBox` unchanged.
#[verifier::external_body]
fn vk_into_result(code: i32) -> (r: Result<(), i32>)
    ensures
        r is Ok <==> code == VK_SUCCESS,
        r matches Err(c) ==> c == code,
{
    bedrock::VkResultHandler::into_result(code).map_err(|e| e.0)
}

/// Maps a graphics-API result code to `Ok` on success and to the failing status otherwise.
pub fn check_vk(code: i32) -> (r: Result<(), Status>)
    ensures
        code == VK_SUCCESS <==> r is Ok,
        code != VK_SUCCESS ==> r == Err::<(), Status>(Status::Graphics(code)),
{
    match vk_into_result(code) {
        Ok(()) => Ok(()),
        Err(c) => Err(Status::Graphics(c)),
    }
}

/// Whether an `HRESULT` denotes failure: its severity bit, that is its sign, is set.
pub open spec fn hresult_failed(hr: i32) -> bool {
    hr < 0
}

/// Maps an `HRESULT` to `Ok` unless it denotes failure.
pub fn check_hr(hr: i32) -> (r: Result<(), Status>)
    ensures
        !hresult_failed(hr) <==> r is Ok,
        hresult_failed(hr) ==> r == Err::<(), Status>(Status::Os(hr)),
{
    if hr < 0 {
        Err(Status::Os(hr))
    } else {
        Ok(())
    }
}

/// Whether a fence-status query reported the fence as signaled.
pub fn fence_signaled(code: i32) -> (r: bool)
    ensures
        r == (code == VK_SUCCESS),
{
    check_vk(code).is_ok()
}

/// `VK_DEBUG_REPORT_ERROR_BIT_EXT`.
pub const DEBUG_REPORT_ERROR_BIT: u32 = 0x08;

/// Whether the debug-report callback asks the driver to abort the reported
/// call: exactly when the report carries the error bit; warnings go on.
pub fn debug_report_aborts(flags: u32) -> (r: bool)
    ensures
        r == (flags & DEBUG_REPORT_ERROR_BIT != 0),
{
    flags & DEBUG_REPORT_ERROR_BIT != 0
}

} // verus!
