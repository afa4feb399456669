//! Choosing the device and the queue family to render with.

use vstd::prelude::*;
use crate::device::types::QUEUE_GRAPHICS;
use crate::error::Error;

verus! {

/// What is known of one queue family of a physical device: its capability
/// flags, and whether it can present to the surface.
#[derive(Clone, Copy, PartialEq, Eq, Structural, Debug)]
pub struct QueueFamily {
    pub flags: u32,
    pub supports_surface: bool,
}

/// Whether a queue family can both draw and present.
pub open spec fn can_render(family: QueueFamily) -> bool {
    family.flags & QUEUE_GRAPHICS == QUEUE_GRAPHICS && family.supports_surface
}

/// The physical device and queue family that were chosen.
#[derive(Clone, Copy, PartialEq, Eq, Structural, Debug)]
pub struct Selection {
    pub physical_device: usize,
    pub queue_family: u32,
}

/// Whether `(device, family)` comes before `(other_device, other_family)`
/// in enumeration order.
pub open spec fn comes_before(device: int, family: int, other_device: int, other_family: int) -> bool {
    device < other_device || (device == other_device && family < other_family)
}

/// Chooses the first queue family, in enumeration order over the devices
/// and their families, that can both draw and present. Without one there is
/// no support for rendering.
pub fn select_physical_device_and_graphics_queue(devices: &Vec<Vec<QueueFamily>>) -> (selected: Result<
    Selection,
    Error,
>)
    ensures
        selected matches Err(e) ==> e == Error::VkSupport,
        selected is Err <==> forall|d: int, f: int|
            0 <= d < devices@.len() && 0 <= f < devices@[d]@.len() && f <= u32::MAX ==> !can_render(
                #[trigger] devices@[d]@[f],
            ),
        selected matches Ok(chosen) ==> {
            &&& chosen.physical_device < devices@.len()
            &&& chosen.queue_family < devices@[chosen.physical_device as int]@.len()
            &&& can_render(devices@[chosen.physical_device as int]@[chosen.queue_family as int])
            &&& forall|d: int, f: int|
                0 <= d < devices@.len() && 0 <= f < devices@[d]@.len() && f <= u32::MAX
                    && comes_before(
                    d,
                    f,
                    chosen.physical_device as int,
                    chosen.queue_family as int,
                ) ==> !can_render(#[trigger] devices@[d]@[f])
        },
{
    let mut device: usize = 0;
    while device < devices.len()
        invariant
            device <= devices@.len(),
            forall|d: int, f: int|
                0 <= d < device && 0 <= f < devices@[d]@.len() && f <= u32::MAX ==> !can_render(
                    #[trigger] devices@[d]@[f],
                ),
        decreases devices@.len() - device,
    {
        let families = &devices[device];
        let mut family: usize = 0;
        while family < families.len() && family <= u32::MAX as usize
            invariant
                family <= families@.len(),
                0 <= device < devices@.len(),
                families == devices@[device as int],
                forall|d: int, f: int|
                    0 <= d < device && 0 <= f < devices@[d]@.len() && f <= u32::MAX
                        ==> !can_render(#[trigger] devices@[d]@[f]),
                forall|f: int| 0 <= f < family ==> !can_render(#[trigger] devices@[device as int]@[f]),
            decreases families@.len() - family,
        {
            if families[family].flags & QUEUE_GRAPHICS == QUEUE_GRAPHICS
                && families[family].supports_surface {
                return Ok(Selection { physical_device: device, queue_family: family as u32 });
            }
            family = family + 1;
        }
        device = device + 1;
    }
    Err(Error::VkSupport)
}

} // verus!
