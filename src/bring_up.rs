//! The bring-up protocol as a state machine. The caller performs each native
//! call that `next_call` names and reports how it went; the machine decides
//! what comes next, and stops for good at the first failure.
use vstd::prelude::*;
use crate::app_info::{
    application_info, application_info_error, describes, ApplicationDescriptor,
    ApplicationInfoError,
};
use crate::descriptors::{device_descriptor, DeviceDescriptor};
use crate::extensions::{
    available_extension_names, has_nul, required_extension_names, extension_string_in_range,
    split_ascii_whitespace, terminated_name, views,
};
use crate::native::xr_result_is_success;
use crate::queue::{supports_graphics, QueueFamily};

verus! {

/// The native calls of the bring-up, in the order they are made.
#[derive(Clone, Copy, Debug, PartialEq, Eq, Structural)]
pub enum Step {
    /// Load the runtime library and resolve its core entry points.
    LoadEntryPoints,
    /// `xrInitializeLoaderKHR` with the platform handles.
    InitializeLoader,
    /// `xrEnumerateInstanceExtensionProperties` with no buffer, for the count.
    CountInstanceExtensions,
    /// `xrEnumerateInstanceExtensionProperties` into a buffer of that count.
    ListInstanceExtensions,
    /// `xrCreateInstance`.
    CreateInstance,
    /// Resolve the instance-level entry points.
    ResolveInstanceFunctions,
    /// `xrGetSystem` for a head-mounted display.
    GetSystem,
    /// `xrGetVulkanGraphicsRequirementsKHR`.
    GetGraphicsRequirements,
    /// `xrGetVulkanInstanceExtensionsKHR`.
    GetInstanceExtensions,
    /// `vkCreateInstance`.
    CreateGraphicsInstance,
    /// `xrGetVulkanGraphicsDeviceKHR`.
    GetGraphicsDevice,
    /// `xrGetVulkanDeviceExtensionsKHR`.
    GetDeviceExtensions,
    /// `vkGetPhysicalDeviceQueueFamilyProperties`, then the choice of family.
    SelectQueueFamily,
    /// `vkCreateDevice` and `vkGetDeviceQueue`.
    CreateDevice,
    /// `xrCreateSession` with the Vulkan graphics binding.
    CreateSession,
}

/// Position of a step in the protocol, from 0.
pub open spec fn step_index(s: Step) -> nat {
    match s {
        Step::LoadEntryPoints => 0,
        Step::InitializeLoader => 1,
        Step::CountInstanceExtensions => 2,
        Step::ListInstanceExtensions => 3,
        Step::CreateInstance => 4,
        Step::ResolveInstanceFunctions => 5,
        Step::GetSystem => 6,
        Step::GetGraphicsRequirements => 7,
        Step::GetInstanceExtensions => 8,
        Step::CreateGraphicsInstance => 9,
        Step::GetGraphicsDevice => 10,
        Step::GetDeviceExtensions => 11,
        Step::SelectQueueFamily => 12,
        Step::CreateDevice => 13,
        Step::CreateSession => 14,
    }
}

/// The step after `s`, or `None` after the last one.
pub open spec fn successor(s: Step) -> Option<Step> {
    match s {
        Step::LoadEntryPoints => Some(Step::InitializeLoader),
        Step::InitializeLoader => Some(Step::CountInstanceExtensions),
        Step::CountInstanceExtensions => Some(Step::ListInstanceExtensions),
        Step::ListInstanceExtensions => Some(Step::CreateInstance),
        Step::CreateInstance => Some(Step::ResolveInstanceFunctions),
        Step::ResolveInstanceFunctions => Some(Step::GetSystem),
        Step::GetSystem => Some(Step::GetGraphicsRequirements),
        Step::GetGraphicsRequirements => Some(Step::GetInstanceExtensions),
        Step::GetInstanceExtensions => Some(Step::CreateGraphicsInstance),
        Step::CreateGraphicsInstance => Some(Step::GetGraphicsDevice),
        Step::GetGraphicsDevice => Some(Step::GetDeviceExtensions),
        Step::GetDeviceExtensions => Some(Step::SelectQueueFamily),
        Step::SelectQueueFamily => Some(Step::CreateDevice),
        Step::CreateDevice => Some(Step::CreateSession),
        Step::CreateSession => None,
    }
}

/// Where the bring-up stands.
#[derive(Clone, Copy, Debug, PartialEq, Eq, Structural)]
pub enum Progress {
    /// The given call is the next to make.
    Pending(Step),
    /// Every call succeeded; the session exists.
    Finished,
    /// The given call failed; nothing more is to be done.
    Aborted(Step),
}

/// The progress after the pending call, if any, succeeded or failed.
pub open spec fn advance(p: Progress, succeeded: bool) -> Progress {
    match p {
        Progress::Pending(s) => if !succeeded {
            Progress::Aborted(s)
        } else {
            match successor(s) {
                Some(t) => Progress::Pending(t),
                None => Progress::Finished,
            }
        },
        _ => p,
    }
}

/// The progress after a series of reported outcomes.
pub open spec fn run(p: Progress, outcomes: Seq<bool>) -> Progress
    decreases outcomes.len(),
{
    if outcomes.len() == 0 {
        p
    } else {
        run(advance(p, outcomes[0]), outcomes.drop_first())
    }
}

/// How many native calls a series of reported outcomes lets through.
pub open spec fn calls_made(p: Progress, outcomes: Seq<bool>) -> nat
    decreases outcomes.len(),
{
    if outcomes.len() == 0 {
        0
    } else if p is Pending {
        1 + calls_made(advance(p, outcomes[0]), outcomes.drop_first())
    } else {
        0
    }
}

/// Once the bring-up has stopped, whatever is reported leaves it where it is
/// and lets no further call through.
pub proof fn lemma_stopped_is_final(p: Progress, outcomes: Seq<bool>)
    requires
        !(p is Pending),
    ensures
        run(p, outcomes) == p,
        calls_made(p, outcomes) == 0,
    decreases outcomes.len(),
{
    if outcomes.len() > 0 {
        lemma_stopped_is_final(p, outcomes.drop_first());
    }
}

/// A failed call stops the bring-up at that call: after it, no report moves
/// the progress and no later call is made.
pub proof fn lemma_failure_stops(s: Step, outcomes: Seq<bool>)
    ensures
        advance(Progress::Pending(s), false) == Progress::Aborted(s),
        run(Progress::Pending(s), seq![false] + outcomes) == Progress::Aborted(s),
        calls_made(Progress::Pending(s), seq![false] + outcomes) == 1,
{
    assert((seq![false] + outcomes).drop_first() =~= outcomes);
    lemma_stopped_is_final(Progress::Aborted(s), outcomes);
}

/// Calls are made strictly in protocol order: a success moves on to the next
/// step and to no other, and the session is the last.
pub proof fn lemma_steps_in_order(s: Step)
    ensures
        match advance(Progress::Pending(s), true) {
            Progress::Pending(t) => step_index(t) == step_index(s) + 1,
            Progress::Finished => s == Step::CreateSession,
            Progress::Aborted(_) => false,
        },
{
}

/// The state of one bring-up.
pub struct BringUp {
    pub progress: Progress,
    /// The application descriptor, checked before any native call.
    pub application: ApplicationDescriptor,
    /// Buffer size for the listing of instance extensions: the count the
    /// counting call reported.
    pub extension_capacity: u32,
}

impl BringUp {
    /// Checks the application and engine names and, when they are acceptable,
    /// starts a bring-up whose first call is loading the entry points. When they
    /// are not, no bring-up exists and so no native call is made.
    pub fn start(
        name: &str,
        version: u32,
        engine_name: Option<&str>,
        engine_version: Option<u32>,
    ) -> (r: Result<BringUp, ApplicationInfoError>)
        ensures
            match application_info_error(name, engine_name) {
                Some(e) => r == Err::<BringUp, ApplicationInfoError>(e),
                None => r matches Ok(b) && {
                    &&& b.progress == Progress::Pending(Step::LoadEntryPoints)
                    &&& describes(b.application, name, version, engine_name, engine_version)
                    &&& b.extension_capacity == 0
                },
            },
    {
        match application_info(name, version, engine_name, engine_version) {
            Ok(application) => Ok(
                BringUp {
                    progress: Progress::Pending(Step::LoadEntryPoints),
                    application,
                    extension_capacity: 0,
                },
            ),
            Err(e) => Err(e),
        }
    }

    /// The call to make next, if the bring-up is still under way.
    pub fn next_call(&self) -> (r: Option<Step>)
        ensures
            match self.progress {
                Progress::Pending(s) => r == Some(s),
                _ => r is None,
            },
    {
        match self.progress {
            Progress::Pending(s) => Some(s),
            _ => None,
        }
    }

    /// Reports whether the pending call succeeded.
    pub fn record(&mut self, succeeded: bool)
        ensures
            final(self).progress == advance(old(self).progress, succeeded),
            final(self).application == old(self).application,
            final(self).extension_capacity == old(self).extension_capacity,
    {
        match self.progress {
            Progress::Pending(s) => {
                if !succeeded {
                    self.progress = Progress::Aborted(s);
                } else {
                    self.progress = match s {
                        Step::LoadEntryPoints => Progress::Pending(Step::InitializeLoader),
                        Step::InitializeLoader => Progress::Pending(Step::CountInstanceExtensions),
                        Step::CountInstanceExtensions => Progress::Pending(
                            Step::ListInstanceExtensions,
                        ),
                        Step::ListInstanceExtensions => Progress::Pending(Step::CreateInstance),
                        Step::CreateInstance => Progress::Pending(Step::ResolveInstanceFunctions),
                        Step::ResolveInstanceFunctions => Progress::Pending(Step::GetSystem),
                        Step::GetSystem => Progress::Pending(Step::GetGraphicsRequirements),
                        Step::GetGraphicsRequirements => Progress::Pending(
                            Step::GetInstanceExtensions,
                        ),
                        Step::GetInstanceExtensions => Progress::Pending(
                            Step::CreateGraphicsInstance,
                        ),
                        Step::CreateGraphicsInstance => Progress::Pending(Step::GetGraphicsDevice),
                        Step::GetGraphicsDevice => Progress::Pending(Step::GetDeviceExtensions),
                        Step::GetDeviceExtensions => Progress::Pending(Step::SelectQueueFamily),
                        Step::SelectQueueFamily => Progress::Pending(Step::CreateDevice),
                        Step::CreateDevice => Progress::Pending(Step::CreateSession),
                        Step::CreateSession => Progress::Finished,
                    };
                }
            },
            _ => {},
        }
    }

    /// Reports the `XrResult` code of the pending call; only `XR_SUCCESS`
    /// counts as success.
    pub fn record_xr_result(&mut self, code: i32)
        ensures
            final(self).progress == advance(old(self).progress, code == 0),
            final(self).application == old(self).application,
            final(self).extension_capacity == old(self).extension_capacity,
    {
        let ok = xr_result_is_success(code);
        self.record(ok);
    }

    /// Reports the counting call of the instance-extension enumeration. On
    /// success the count becomes the size of the buffer the listing call gets.
    pub fn record_extension_count(&mut self, code: i32, count: u32)
        ensures
            final(self).progress == advance(old(self).progress, code == 0),
            final(self).application == old(self).application,
            final(self).extension_capacity == if old(self).progress == Progress::Pending(
                Step::CountInstanceExtensions,
            ) && code == 0 {
                count
            } else {
                old(self).extension_capacity
            },
    {
        let counting = match self.progress {
            Progress::Pending(Step::CountInstanceExtensions) => true,
            _ => false,
        };
        let ok = xr_result_is_success(code);
        if counting && ok {
            self.extension_capacity = count;
        }
        self.record(ok);
    }

    /// Reports the listing call of the instance-extension enumeration: its
    /// code, the count it reported and the entries it wrote. Succeeds, with
    /// exactly `count` names, when the call did and every listed entry holds a
    /// NUL-terminated name within the buffer it was given.
    pub fn record_extension_list(&mut self, code: i32, count: u32, entries: &Vec<Vec<u8>>) -> (r:
        Option<Vec<Vec<u8>>>)
        ensures
            old(self).progress == Progress::Pending(Step::ListInstanceExtensions) ==> {
                let ok = code == 0 && extension_list_readable(
                    old(self).extension_capacity,
                    count,
                    entries@,
                );
                &&& final(self).progress == advance(old(self).progress, ok)
                &&& r is Some <==> ok
                &&& r matches Some(names) ==> {
                    &&& names@.len() == count
                    &&& forall|k: int|
                        0 <= k < count ==> terminated_name(#[trigger] names@[k]@, entries@[k]@)
                }
            },
            old(self).progress != Progress::Pending(Step::ListInstanceExtensions) ==> {
                &&& final(self).progress == old(self).progress
                &&& r is None
            },
            final(self).application == old(self).application,
            final(self).extension_capacity == old(self).extension_capacity,
    {
        match self.progress {
            Progress::Pending(Step::ListInstanceExtensions) => {},
            _ => {
                return None;
            },
        }
        if !xr_result_is_success(code) {
            self.record(false);
            return None;
        }
        match available_extension_names(self.extension_capacity, count, entries) {
            Ok(names) => {
                self.record(true);
                Some(names)
            },
            Err(_) => {
                self.record(false);
                None
            },
        }
    }

    /// Reports a call that wrote a space-separated list of Vulkan extension
    /// names (`GetInstanceExtensions` or `GetDeviceExtensions`): its code, the
    /// buffer and the byte count it reported, its NUL included. Succeeds, with
    /// the names in order, when the call did and the string is readable.
    pub fn record_required_extensions(&mut self, code: i32, buffer: &Vec<u8>, count: u32) -> (r:
        Option<Vec<Vec<u8>>>)
        ensures
            is_extension_string_step(old(self).progress) ==> {
                let ok = code == 0 && extension_string_readable(buffer@, count);
                &&& final(self).progress == advance(old(self).progress, ok)
                &&& r is Some <==> ok
                &&& r matches Some(names) ==> views(names@) == split_ascii_whitespace(
                    buffer@.take(count - 1),
                )
            },
            !is_extension_string_step(old(self).progress) ==> {
                &&& final(self).progress == old(self).progress
                &&& r is None
            },
            final(self).application == old(self).application,
            final(self).extension_capacity == old(self).extension_capacity,
    {
        match self.progress {
            Progress::Pending(Step::GetInstanceExtensions) => {},
            Progress::Pending(Step::GetDeviceExtensions) => {},
            _ => {
                return None;
            },
        }
        if !xr_result_is_success(code) {
            self.record(false);
            return None;
        }
        match required_extension_names(buffer, count) {
            Ok(names) => {
                self.record(true);
                Some(names)
            },
            Err(_) => {
                self.record(false);
                None
            },
        }
    }

    /// Reports the queue families of the physical device and chooses the
    /// logical device to create; fails when no family can serve graphics.
    pub fn record_queue_families(&mut self, families: &Vec<QueueFamily>) -> (r: Option<
        DeviceDescriptor,
    >)
        requires
            families@.len() <= u32::MAX,
        ensures
            old(self).progress == Progress::Pending(Step::SelectQueueFamily) ==> {
                let ok = exists|j: int|
                    0 <= j < families@.len() && supports_graphics(#[trigger] families@[j]);
                &&& final(self).progress == advance(old(self).progress, ok)
                &&& r is Some <==> ok
                &&& r matches Some(d) ==> {
                    &&& d.queue_family_index < families@.len()
                    &&& supports_graphics(families@[d.queue_family_index as int])
                    &&& forall|j: int|
                        0 <= j < d.queue_family_index ==> !supports_graphics(
                            #[trigger] families@[j],
                        )
                    &&& d.queue_count == 1
                }
            },
            old(self).progress != Progress::Pending(Step::SelectQueueFamily) ==> {
                &&& final(self).progress == old(self).progress
                &&& r is None
            },
            final(self).application == old(self).application,
            final(self).extension_capacity == old(self).extension_capacity,
    {
        match self.progress {
            Progress::Pending(Step::SelectQueueFamily) => {},
            _ => {
                return None;
            },
        }
        let r = device_descriptor(families);
        self.record(r.is_some());
        r
    }
}

/// Whether the listing call's entries can be read: the count fits the buffer
/// it was given and every listed entry holds a NUL.
pub open spec fn extension_list_readable(capacity: u32, count: u32, entries: Seq<Vec<u8>>) -> bool {
    &&& count <= capacity
    &&& count <= entries.len()
    &&& forall|k: int| 0 <= k < count ==> has_nul(#[trigger] entries[k]@)
}

/// Whether a space-separated extension string can be read: its reported
/// length lies in the buffer and it holds no NUL before its end.
pub open spec fn extension_string_readable(buffer: Seq<u8>, count: u32) -> bool {
    extension_string_in_range(buffer, count) && !has_nul(buffer.take(count - 1))
}

pub open spec fn is_extension_string_step(p: Progress) -> bool {
    p == Progress::Pending(Step::GetInstanceExtensions) || p == Progress::Pending(
        Step::GetDeviceExtensions,
    )
}

} // verus!
