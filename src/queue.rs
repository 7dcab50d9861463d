//! Selection of the queue family that the logical device is created on.
use vstd::prelude::*;
use crate::native::queue_flags_have_graphics;

verus! {

/// What the bring-up reads of one `VkQueueFamilyProperties` entry.
#[derive(Clone, Copy, Debug, PartialEq, Eq, Structural)]
pub struct QueueFamily {
    /// Raw `VkQueueFlags` bits.
    pub queue_flags: u32,
    /// Number of queues the family offers.
    pub queue_count: u32,
}

/// A family is usable when it advertises graphics work and has a queue at all.
pub open spec fn supports_graphics(f: QueueFamily) -> bool {
    f.queue_count > 0 && f.queue_flags & 1 == 1
}

/// The queue families that the device needs; only graphics for now.
#[derive(Clone, Copy, Debug, PartialEq, Eq, Structural)]
pub struct QueueFamilyIndices {
    pub graphics_family: Option<u32>,
}

impl QueueFamilyIndices {
    /// Every family that the device needs has been found.
    pub fn is_complete(&self) -> (r: bool)
        ensures
            r == self.graphics_family is Some,
    {
        self.graphics_family.is_some()
    }
}

/// Whether one family can serve graphics queues.
pub fn family_supports_graphics(f: &QueueFamily) -> (r: bool)
    ensures
        r == supports_graphics(*f),
{
    f.queue_count > 0 && queue_flags_have_graphics(f.queue_flags)
}

/// Picks the first family, in the order the driver lists them, that has at
/// least one queue and advertises graphics work; no scoring beyond that.
pub fn find_queue_family(families: &Vec<QueueFamily>) -> (r: QueueFamilyIndices)
    requires
        families@.len() <= u32::MAX,
    ensures
        match r.graphics_family {
            Some(i) => {
                &&& i < families@.len()
                &&& supports_graphics(families@[i as int])
                &&& forall|j: int| 0 <= j < i ==> !supports_graphics(#[trigger] families@[j])
            },
            None => forall|j: int|
                0 <= j < families@.len() ==> !supports_graphics(#[trigger] families@[j]),
        },
{
    let mut indices = QueueFamilyIndices { graphics_family: None };
    let mut index: usize = 0;
    while index < families.len()
        invariant
            index <= families@.len() <= u32::MAX,
            indices.graphics_family is None,
            forall|j: int| 0 <= j < index ==> !supports_graphics(#[trigger] families@[j]),
        decreases families@.len() - index,
    {
        if family_supports_graphics(&families[index]) {
            indices.graphics_family = Some(index as u32);
        }
        if indices.is_complete() {
            return indices;
        }
        index = index + 1;
    }
    indices
}

} // verus!
