//! Verified core of a step-by-step Vulkan bootstrap: the pure decisions of
//! instance setup (validation-layer checking, device-extension selection,
//! queue-family lookup, physical-device picking) carry contracts and are
//! verified; the driver calls themselves stay at the edge of the program.
use vstd::prelude::*;

pub mod constant;
pub mod device_extensions;
pub mod event;
pub mod tool;
pub mod validation;

verus! {

/// The bit a queue family's flags carry when the family supports graphics
/// work.
pub const QUEUE_GRAPHICS_BIT: u32 = 1;

/// Whether a queue family's flag word marks a graphics-capable family.
pub open spec fn spec_has_graphics(flags: u32) -> bool {
    flags & QUEUE_GRAPHICS_BIT != 0
}

/// Whether a device whose queue families carry these flag words can run the
/// application: it must have at least one graphics-capable family.
pub open spec fn spec_suitable(family_flags: Seq<u32>) -> bool {
    exists|i: int| 0 <= i < family_flags.len() && spec_has_graphics(#[trigger] family_flags[i])
}

/// The queue-family indices a logical device needs; only a graphics
/// queue family is looked up at this stage of the bootstrap.
#[derive(Copy, Clone, Debug)]
pub struct QueueFamilyIndicies {
    pub graphics: Option<u32>,
}

impl QueueFamilyIndicies {
    /// A set of indices is complete when every required family was found.
    pub fn is_complete(self) -> (r: bool)
        ensures
            r == self.graphics is Some,
    {
        self.graphics.is_some()
    }

    /// Scans a device's queue-family flag words for the first
    /// graphics-capable family.
    pub fn for_device(queue_family_flags: &Vec<u32>) -> (r: Self)
        requires
            queue_family_flags@.len() <= u32::MAX,
        ensures
            r.graphics matches Some(i) ==> 0 <= i < queue_family_flags@.len()
                && spec_has_graphics(queue_family_flags@[i as int]) && (forall|j: int|
                0 <= j < i ==> !spec_has_graphics(#[trigger] queue_family_flags@[j])),
            r.graphics is None ==> forall|j: int|
                0 <= j < queue_family_flags@.len() ==> !spec_has_graphics(
                    #[trigger] queue_family_flags@[j],
                ),
    {
        let mut k: usize = 0;
        while k < queue_family_flags.len()
            invariant
                0 <= k <= queue_family_flags@.len() <= u32::MAX,
                forall|j: int| 0 <= j < k ==> !spec_has_graphics(#[trigger] queue_family_flags@[j]),
            decreases queue_family_flags@.len() - k,
        {
            if queue_family_flags[k] & QUEUE_GRAPHICS_BIT != 0 {
                return QueueFamilyIndicies { graphics: Some(k as u32) };
            }
            k = k + 1;
        }
        QueueFamilyIndicies { graphics: None }
    }
}

/// Whether the application can run on a device with these queue-family flag
/// words.
pub fn is_device_suitable(queue_family_flags: &Vec<u32>) -> (r: bool)
    requires
        queue_family_flags@.len() <= u32::MAX,
    ensures
        r == spec_suitable(queue_family_flags@),
{
    let indicies = QueueFamilyIndicies::for_device(queue_family_flags);
    proof {
        if indicies.graphics is Some {
            let i = indicies.graphics->0;
            assert(spec_has_graphics(queue_family_flags@[i as int]));
        }
    }
    indicies.is_complete()
}

/// Picks the first suitable device: `devices` holds, for each physical
/// device the driver listed, the flag words of its queue families; the
/// result is the position of the first device with a graphics family.
pub fn pick_physical_device(devices: &Vec<Vec<u32>>) -> (r: Option<usize>)
    requires
        forall|d: int| 0 <= d < devices@.len() ==> (#[trigger] devices@[d])@.len() <= u32::MAX,
    ensures
        r matches Some(d) ==> 0 <= d < devices@.len() && spec_suitable(devices@[d as int]@) && (
        forall|j: int| 0 <= j < d ==> !spec_suitable(#[trigger] devices@[j]@)),
        r is None ==> forall|j: int|
            0 <= j < devices@.len() ==> !spec_suitable(#[trigger] devices@[j]@),
{
    let mut k: usize = 0;
    while k < devices.len()
        invariant
            0 <= k <= devices@.len(),
            forall|d: int| 0 <= d < devices@.len() ==> (#[trigger] devices@[d])@.len() <= u32::MAX,
            forall|j: int| 0 <= j < k ==> !spec_suitable(#[trigger] devices@[j]@),
        decreases devices@.len() - k,
    {
        if is_device_suitable(&devices[k]) {
            return Some(k);
        }
        k = k + 1;
    }
    None
}

} // verus!
