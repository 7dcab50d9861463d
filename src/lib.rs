//! Verified core of an OpenXR-on-Android bring-up: the decisions, buffers and
//! descriptors that sit between the native calls into the XR runtime and the
//! Vulkan driver.

pub mod native;
pub mod queue;
pub mod app_info;
pub mod extensions;
pub mod descriptors;
pub mod bring_up;
