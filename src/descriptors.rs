//! The creation-info blocks that the native calls receive, with every native
//! handle held as a plain integer address.
use vstd::prelude::*;
use vstd::string::StringSliceAdditionalSpecFns;
use crate::app_info::ApplicationDescriptor;
use crate::extensions::{device_extensions, vulkan_instance_extensions, xr_instance_extensions,
    XR_VULKAN_ENABLE, XR_ANDROID_CREATE_INSTANCE, c_names, views,
    VK_SWAPCHAIN, VK_EXTERNAL_MEMORY, VK_EXTERNAL_MEMORY_FD, VK_DEBUG_REPORT};
use crate::native::vulkan_api_version_1_0;
use crate::queue::{find_queue_family, supports_graphics, QueueFamily};

verus! {

/// The host platform's handles: the Java VM and the activity object.
#[derive(Clone, Copy, Debug, PartialEq, Eq, Structural)]
pub struct PlatformHandles {
    pub vm: usize,
    pub activity: usize,
}

/// `XrLoaderInitInfoAndroidKHR`, without its structure type and chain.
#[derive(Clone, Copy, Debug, PartialEq, Eq, Structural)]
pub struct LoaderInitInfo {
    pub application_vm: usize,
    pub application_context: usize,
}

/// `XrInstanceCreateInfoAndroidKHR`, without its structure type and chain.
#[derive(Clone, Copy, Debug, PartialEq, Eq, Structural)]
pub struct AndroidInstanceInfo {
    pub application_vm: usize,
    pub application_activity: usize,
}

pub open spec fn loader_init_of(h: PlatformHandles) -> LoaderInitInfo {
    LoaderInitInfo { application_vm: h.vm, application_context: h.activity }
}

pub open spec fn android_instance_of(h: PlatformHandles) -> AndroidInstanceInfo {
    AndroidInstanceInfo { application_vm: h.vm, application_activity: h.activity }
}

/// The loader-initialisation block: the VM and the activity, as given.
pub fn loader_init_info(handles: PlatformHandles) -> (r: LoaderInitInfo)
    ensures
        r == loader_init_of(handles),
{
    LoaderInitInfo { application_vm: handles.vm, application_context: handles.activity }
}

/// The Android block chained to instance creation: the VM and the activity, as given.
pub fn android_instance_info(handles: PlatformHandles) -> (r: AndroidInstanceInfo)
    ensures
        r == android_instance_of(handles),
{
    AndroidInstanceInfo { application_vm: handles.vm, application_activity: handles.activity }
}

/// Both platform blocks carry the host's handles unchanged: reading either
/// back gives the VM and activity it was built from, and the two agree.
pub proof fn lemma_platform_handles_unchanged(handles: PlatformHandles)
    ensures
        loader_init_of(handles).application_vm == handles.vm,
        loader_init_of(handles).application_context == handles.activity,
        android_instance_of(handles).application_vm == handles.vm,
        android_instance_of(handles).application_activity == handles.activity,
        loader_init_of(handles).application_vm == android_instance_of(handles).application_vm,
        loader_init_of(handles).application_context == android_instance_of(
            handles,
        ).application_activity,
{
}

/// `XrInstanceCreateInfo` with the Android block chained to it.
#[derive(Debug)]
pub struct InstanceDescriptor {
    pub application: ApplicationDescriptor,
    pub api_layers: Vec<Vec<u8>>,
    pub extensions: Vec<Vec<u8>>,
    pub android: AndroidInstanceInfo,
}

/// The XR instance to create: the checked application descriptor, no API
/// layers, the platform extensions followed by the caller's, and the host's
/// handles in the chained Android block.
pub fn instance_descriptor(
    application: ApplicationDescriptor,
    extra_extensions: &Vec<Vec<u8>>,
    handles: PlatformHandles,
) -> (r: InstanceDescriptor)
    ensures
        r.application == application,
        r.api_layers@.len() == 0,
        views(r.extensions@) == seq![
            XR_VULKAN_ENABLE.spec_bytes(),
            XR_ANDROID_CREATE_INSTANCE.spec_bytes(),
        ] + c_names(views(extra_extensions@)),
        r.android == android_instance_of(handles),
{
    InstanceDescriptor {
        application,
        api_layers: Vec::new(),
        extensions: xr_instance_extensions(extra_extensions),
        android: android_instance_info(handles),
    }
}

/// Name the Vulkan instance is created under.
pub const VK_APPLICATION_NAME: &'static str = "openxr-test";

/// Engine name the Vulkan instance is created under.
pub const VK_ENGINE_NAME: &'static str = "Vulkan Engine";

/// `VkInstanceCreateInfo` with its `VkApplicationInfo`.
#[derive(Debug)]
pub struct VulkanInstanceDescriptor {
    pub application_name: &'static str,
    pub application_version: u32,
    pub engine_name: &'static str,
    pub engine_version: u32,
    pub api_version: u32,
    pub extensions: Vec<Vec<u8>>,
}

/// The Vulkan instance the runtime is handed: fixed metadata, API version 1.0,
/// debug reporting and then the extensions the runtime requires.
pub fn vulkan_instance_descriptor(required: &Vec<Vec<u8>>) -> (r: VulkanInstanceDescriptor)
    ensures
        r.application_name == VK_APPLICATION_NAME,
        r.application_version == 1,
        r.engine_name == VK_ENGINE_NAME,
        r.engine_version == 1,
        r.api_version == 0x40_0000,
        views(r.extensions@) == seq![VK_DEBUG_REPORT.spec_bytes()] + c_names(views(required@)),
{
    VulkanInstanceDescriptor {
        application_name: VK_APPLICATION_NAME,
        application_version: 1,
        engine_name: VK_ENGINE_NAME,
        engine_version: 1,
        api_version: vulkan_api_version_1_0(),
        extensions: vulkan_instance_extensions(required),
    }
}

/// `VkDeviceCreateInfo` with its one `VkDeviceQueueCreateInfo`; the queue
/// priority (1.0) and the all-disabled feature set are fixed.
#[derive(Debug)]
pub struct DeviceDescriptor {
    pub queue_family_index: u32,
    pub queue_count: u32,
    pub extensions: Vec<Vec<u8>>,
}

/// The logical device to create on a physical device with the given queue
/// families: one queue of the first graphics-capable family, and the fixed
/// device extensions. `None` when no family can serve graphics.
pub fn device_descriptor(families: &Vec<QueueFamily>) -> (r: Option<DeviceDescriptor>)
    requires
        families@.len() <= u32::MAX,
    ensures
        r is None <==> forall|j: int|
            0 <= j < families@.len() ==> !supports_graphics(#[trigger] families@[j]),
        r matches Some(d) ==> {
            &&& d.queue_family_index < families@.len()
            &&& supports_graphics(families@[d.queue_family_index as int])
            &&& forall|j: int|
                0 <= j < d.queue_family_index ==> !supports_graphics(#[trigger] families@[j])
            &&& d.queue_count == 1
            &&& views(d.extensions@) == seq![
                VK_SWAPCHAIN.spec_bytes(),
                VK_EXTERNAL_MEMORY.spec_bytes(),
                VK_EXTERNAL_MEMORY_FD.spec_bytes(),
            ]
        },
{
    let indices = find_queue_family(families);
    match indices.graphics_family {
        Some(index) => Some(
            DeviceDescriptor { queue_family_index: index, queue_count: 1, extensions: device_extensions() },
        ),
        None => None,
    }
}

/// `XrGraphicsBindingVulkanKHR`: the Vulkan objects an XR session is bound to.
#[derive(Clone, Copy, Debug, PartialEq, Eq, Structural)]
pub struct GraphicsBinding {
    pub instance: u64,
    pub physical_device: u64,
    pub device: u64,
    pub queue_family_index: u32,
    pub queue_index: u32,
}

/// Binds the session to the given Vulkan instance, physical device and logical
/// device, on queue family 0, queue 0.
pub fn graphics_binding(instance: u64, physical_device: u64, device: u64) -> (r: GraphicsBinding)
    ensures
        r == (GraphicsBinding {
            instance,
            physical_device,
            device,
            queue_family_index: 0,
            queue_index: 0,
        }),
{
    GraphicsBinding { instance, physical_device, device, queue_family_index: 0, queue_index: 0 }
}

} // verus!
