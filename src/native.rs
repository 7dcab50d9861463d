//! Thin trusted bridges to the `openxr-sys` and `ash` crates: result codes,
//! fixed buffer sizes and flag bits that the rest of the library reasons about
//! as plain integers.
use vstd::prelude::*;

verus! {

/// Relies on `openxr_sys::Result::from_raw` and `openxr_sys::Result::SUCCESS`:
/// a result code counts as success exactly when it equals `XR_SUCCESS`, which is
/// the raw value 0.
#[verifier::external_body]
pub(crate) fn xr_result_is_success(code: i32) -> (r: bool)
    ensures
        r == (code == 0),
{
    openxr_sys::Result::from_raw(code) == openxr_sys::Result::SUCCESS
}

/// Relies on `openxr_sys::MAX_APPLICATION_NAME_SIZE`, the byte capacity of the
/// application-name field of `XrApplicationInfo` (128).
#[verifier::external_body]
pub(crate) fn application_name_capacity() -> (r: usize)
    ensures
        r == 128,
{
    openxr_sys::MAX_APPLICATION_NAME_SIZE
}

/// Relies on `openxr_sys::MAX_ENGINE_NAME_SIZE`, the byte capacity of the
/// engine-name field of `XrApplicationInfo` (128).
#[verifier::external_body]
pub(crate) fn engine_name_capacity() -> (r: usize)
    ensures
        r == 128,
{
    openxr_sys::MAX_ENGINE_NAME_SIZE
}

/// Relies on `ash::vk::QueueFlags::from_raw`, `QueueFlags::contains` (which is
/// `self & other == other`) and `QueueFlags::GRAPHICS` (bit `0b1`).
#[verifier::external_body]
pub(crate) fn queue_flags_have_graphics(bits: u32) -> (r: bool)
    ensures
        r == (bits & 1 == 1),
{
    ash::vk::QueueFlags::from_raw(bits).contains(ash::vk::QueueFlags::GRAPHICS)
}

/// Relies on `ash::vk::API_VERSION_1_0`, which is `make_version(1, 0, 0)`,
/// that is `1 << 22`.
#[verifier::external_body]
pub(crate) fn vulkan_api_version_1_0() -> (r: u32)
    ensures
        r == 0x40_0000,
{
    ash::vk::API_VERSION_1_0
}

} // verus!
