//! The renderer's errors and how Vulkan result codes map onto them.

use vstd::prelude::*;
use crate::types::{
    RESULT_ERROR_DEVICE_LOST, RESULT_ERROR_OUT_OF_DATE, RESULT_ERROR_OUT_OF_DEVICE_MEMORY,
    RESULT_ERROR_OUT_OF_HOST_MEMORY, RESULT_ERROR_SURFACE_LOST, RESULT_NOT_READY,
};

verus! {

/// An error of the device.
#[derive(Clone, Copy, Debug, PartialEq, Eq, Structural)]
pub enum DeviceError {
    /// Host or device memory ran out.
    OutOfMemory,
    /// The device was lost.
    Lost,
    /// None of the candidate formats supports what was asked of it.
    Unsupported,
    /// Any other Vulkan result code, kept as it came.
    Other(i32),
}

/// An error of the surface a swapchain presents to.
#[derive(Clone, Copy, Debug, PartialEq, Eq, Structural)]
pub enum SurfaceError {
    /// The surface was lost.
    Lost,
    /// The swapchain no longer matches the surface and must be recreated.
    OutOfDate,
    /// The device failed.
    Device(DeviceError),
}

/// The device error that a Vulkan result code stands for.
pub open spec fn spec_device_error(code: i32) -> DeviceError {
    if code == RESULT_ERROR_OUT_OF_HOST_MEMORY || code == RESULT_ERROR_OUT_OF_DEVICE_MEMORY {
        DeviceError::OutOfMemory
    } else if code == RESULT_ERROR_DEVICE_LOST {
        DeviceError::Lost
    } else {
        DeviceError::Other(code)
    }
}

/// The surface error that a failed acquire or present reports: out of date (also when
/// the image is not ready), lost surface, or else the device error of the code.
pub open spec fn spec_surface_error(code: i32) -> SurfaceError {
    if code == RESULT_ERROR_OUT_OF_DATE || code == RESULT_NOT_READY {
        SurfaceError::OutOfDate
    } else if code == RESULT_ERROR_SURFACE_LOST {
        SurfaceError::Lost
    } else {
        SurfaceError::Device(spec_device_error(code))
    }
}

impl DeviceError {
    /// The device error that a Vulkan result code stands for.
    pub fn from_vk_result(code: i32) -> (r: DeviceError)
        ensures
            r == spec_device_error(code),
            code == RESULT_ERROR_OUT_OF_HOST_MEMORY ==> r == DeviceError::OutOfMemory,
            code == RESULT_ERROR_OUT_OF_DEVICE_MEMORY ==> r == DeviceError::OutOfMemory,
            code == RESULT_ERROR_DEVICE_LOST ==> r == DeviceError::Lost,
            code != RESULT_ERROR_OUT_OF_HOST_MEMORY && code != RESULT_ERROR_OUT_OF_DEVICE_MEMORY
                && code != RESULT_ERROR_DEVICE_LOST ==> r == DeviceError::Other(code),
    {
        if code == RESULT_ERROR_OUT_OF_HOST_MEMORY || code == RESULT_ERROR_OUT_OF_DEVICE_MEMORY {
            DeviceError::OutOfMemory
        } else if code == RESULT_ERROR_DEVICE_LOST {
            DeviceError::Lost
        } else {
            DeviceError::Other(code)
        }
    }
}

impl SurfaceError {
    /// The surface error that a failed acquire or present reports.
    pub fn from_vk_result(code: i32) -> (r: SurfaceError)
        ensures
            r == spec_surface_error(code),
            code == RESULT_ERROR_OUT_OF_DATE ==> r == SurfaceError::OutOfDate,
            code == RESULT_NOT_READY ==> r == SurfaceError::OutOfDate,
            code == RESULT_ERROR_SURFACE_LOST ==> r == SurfaceError::Lost,
            code == RESULT_ERROR_OUT_OF_HOST_MEMORY ==> r == SurfaceError::Device(
                DeviceError::OutOfMemory,
            ),
            code == RESULT_ERROR_OUT_OF_DEVICE_MEMORY ==> r == SurfaceError::Device(
                DeviceError::OutOfMemory,
            ),
            code == RESULT_ERROR_DEVICE_LOST ==> r == SurfaceError::Device(DeviceError::Lost),
            code != RESULT_ERROR_OUT_OF_DATE && code != RESULT_NOT_READY && code
                != RESULT_ERROR_SURFACE_LOST && code != RESULT_ERROR_OUT_OF_HOST_MEMORY && code
                != RESULT_ERROR_OUT_OF_DEVICE_MEMORY && code != RESULT_ERROR_DEVICE_LOST ==> r
                == SurfaceError::Device(DeviceError::Other(code)),
    {
        if code == RESULT_ERROR_OUT_OF_DATE || code == RESULT_NOT_READY {
            SurfaceError::OutOfDate
        } else if code == RESULT_ERROR_SURFACE_LOST {
            SurfaceError::Lost
        } else {
            SurfaceError::Device(DeviceError::from_vk_result(code))
        }
    }
}

/// What a call that presents or acquires reports: its value on success, else the
/// surface error of its result code.
pub open spec fn spec_surface_outcome<T>(result: Result<T, i32>) -> Result<T, SurfaceError> {
    match result {
        Ok(value) => Ok(value),
        Err(code) => Err(spec_surface_error(code)),
    }
}

/// What acquiring the next image reports: the image index and whether the swapchain is
/// suboptimal on success, else the surface error of the failed call's result code.
pub fn acquire_outcome(result: Result<(u32, bool), i32>) -> (r: Result<(u32, bool), SurfaceError>)
    ensures
        r == spec_surface_outcome(result),
        result is Ok ==> r is Ok && r->Ok_0 == result->Ok_0,
        result is Err ==> r is Err && r->Err_0 == spec_surface_error(result->Err_0),
{
    match result {
        Ok(pair) => Ok(pair),
        Err(code) => Err(SurfaceError::from_vk_result(code)),
    }
}

/// What presenting reports: whether the swapchain is suboptimal on success, else the
/// surface error of the failed call's result code.
pub fn present_outcome(result: Result<bool, i32>) -> (r: Result<bool, SurfaceError>)
    ensures
        r == spec_surface_outcome(result),
        result is Ok ==> r is Ok && r->Ok_0 == result->Ok_0,
        result is Err ==> r is Err && r->Err_0 == spec_surface_error(result->Err_0),
{
    match result {
        Ok(suboptimal) => Ok(suboptimal),
        Err(code) => Err(SurfaceError::from_vk_result(code)),
    }
}

/// Acquiring and presenting report a failure with the same result code as the same
/// surface error.
pub proof fn lemma_acquire_and_present_fail_alike(code: i32)
    ensures
        spec_surface_outcome(Err::<(u32, bool), i32>(code)) matches Err(a) && spec_surface_outcome(
            Err::<bool, i32>(code),
        ) matches Err(p) && a == p,
{
}

/// An image that is not ready is reported as an out-of-date swapchain; only the
/// surface-specific codes give surface errors, every other code is a device error
/// carrying that code's device error.
pub proof fn lemma_surface_error_classes(code: i32)
    ensures
        spec_surface_error(RESULT_NOT_READY) == spec_surface_error(RESULT_ERROR_OUT_OF_DATE),
        spec_surface_error(code) == SurfaceError::Lost <==> code == RESULT_ERROR_SURFACE_LOST,
        spec_surface_error(code) == SurfaceError::OutOfDate <==> (code == RESULT_ERROR_OUT_OF_DATE
            || code == RESULT_NOT_READY),
        spec_surface_error(code) is Device <==> (code != RESULT_ERROR_SURFACE_LOST && code
            != RESULT_ERROR_OUT_OF_DATE && code != RESULT_NOT_READY),
        spec_surface_error(code) is Device ==> spec_surface_error(code) == SurfaceError::Device(
            spec_device_error(code),
        ),
{
}

/// Running out of host or device memory is `OutOfMemory`, a lost device is `Lost`; only
/// unrecognised codes become `Other`, and they keep their code.
pub proof fn lemma_device_error_keeps_unrecognised_codes(code: i32)
    ensures
        spec_device_error(RESULT_ERROR_OUT_OF_HOST_MEMORY) == DeviceError::OutOfMemory,
        spec_device_error(RESULT_ERROR_OUT_OF_DEVICE_MEMORY) == DeviceError::OutOfMemory,
        spec_device_error(RESULT_ERROR_DEVICE_LOST) == DeviceError::Lost,
        spec_device_error(code) == DeviceError::Other(code) <==> (code
            != RESULT_ERROR_OUT_OF_HOST_MEMORY && code != RESULT_ERROR_OUT_OF_DEVICE_MEMORY && code
            != RESULT_ERROR_DEVICE_LOST),
        spec_device_error(code) != DeviceError::Unsupported,
{
}

} // verus!
