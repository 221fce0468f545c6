//! Choosing the device to render with among those the machine offers.

use vstd::prelude::*;
use crate::resources::InitError;

verus! {

/// The kinds of device, from the most to the least preferred.
#[derive(Clone, Copy, Debug, PartialEq, Eq, Structural)]
pub enum DeviceKind {
    DiscreteGpu,
    IntegratedGpu,
    VirtualGpu,
    Cpu,
    Other,
}

/// What one queue family of a device can do.
#[derive(Clone, Copy, Debug, PartialEq, Eq, Structural)]
pub struct QueueFamily {
    pub supports_graphics: bool,
    /// The family can present to the window's surface.
    pub supports_surface: bool,
}

/// One device of the machine, with what the choice depends on.
#[derive(Debug)]
pub struct DeviceCandidate {
    pub kind: DeviceKind,
    /// The device supports presenting through a swapchain.
    pub supports_swapchain: bool,
    pub queue_families: Vec<QueueFamily>,
}

/// The chosen device and queue family, by their places in the lists.
#[derive(Clone, Copy, Debug, PartialEq, Eq, Structural)]
pub struct DeviceChoice {
    pub device: usize,
    pub queue_family: usize,
}

/// The place of a kind in the order of preference; lower is better.
pub open spec fn rank(kind: DeviceKind) -> int {
    match kind {
        DeviceKind::DiscreteGpu => 0,
        DeviceKind::IntegratedGpu => 1,
        DeviceKind::VirtualGpu => 2,
        DeviceKind::Cpu => 3,
        DeviceKind::Other => 4,
    }
}

/// A family that can both draw and present.
pub open spec fn usable(family: QueueFamily) -> bool {
    family.supports_graphics && family.supports_surface
}

/// `i` is the first usable family of the list.
pub open spec fn first_usable(families: Seq<QueueFamily>, i: int) -> bool {
    &&& 0 <= i < families.len()
    &&& usable(families[i])
    &&& forall|j: int| 0 <= j < i ==> !usable(#[trigger] families[j])
}

/// No family of the list is usable.
pub open spec fn none_usable(families: Seq<QueueFamily>) -> bool {
    forall|j: int| 0 <= j < families.len() ==> !usable(#[trigger] families[j])
}

/// A device that can be rendered with: it has a swapchain and a usable
/// queue family.
pub open spec fn eligible(candidate: DeviceCandidate) -> bool {
    candidate.supports_swapchain && !none_usable(candidate.queue_families@)
}

/// `choice` names the most preferred eligible device, the first of them
/// where several are of the same kind, and its first usable family.
pub open spec fn is_best(candidates: Seq<DeviceCandidate>, choice: DeviceChoice) -> bool {
    &&& choice.device < candidates.len()
    &&& candidates[choice.device as int].supports_swapchain
    &&& first_usable(candidates[choice.device as int].queue_families@, choice.queue_family as int)
    &&& forall|j: int|
        0 <= j < candidates.len() && eligible(#[trigger] candidates[j]) ==> rank(
            candidates[choice.device as int].kind,
        ) <= rank(candidates[j].kind)
    &&& forall|j: int|
        0 <= j < choice.device && eligible(#[trigger] candidates[j]) ==> rank(
            candidates[choice.device as int].kind,
        ) < rank(candidates[j].kind)
}

/// The place of a kind in the order of preference.
pub fn kind_rank(kind: DeviceKind) -> (r: u8)
    ensures
        r == rank(kind),
{
    match kind {
        DeviceKind::DiscreteGpu => 0,
        DeviceKind::IntegratedGpu => 1,
        DeviceKind::VirtualGpu => 2,
        DeviceKind::Cpu => 3,
        DeviceKind::Other => 4,
    }
}

/// The first family that can both draw and present, if there is one.
pub fn find_queue_family(families: &Vec<QueueFamily>) -> (r: Option<usize>)
    ensures
        match r {
            Some(i) => first_usable(families@, i as int),
            None => none_usable(families@),
        },
{
    let mut i: usize = 0;
    while i < families.len()
        invariant
            i <= families.len(),
            forall|j: int| 0 <= j < i ==> !usable(#[trigger] families@[j]),
        decreases families.len() - i,
    {
        if families[i].supports_graphics && families[i].supports_surface {
            return Some(i);
        }
        i += 1;
    }
    None
}

/// Chooses the device to render with: among the eligible devices the one
/// of the most preferred kind, and the first of these. Without an eligible
/// device the engine cannot start.
pub fn select_device(candidates: &Vec<DeviceCandidate>) -> (r: Result<DeviceChoice, InitError>)
    ensures
        match r {
            Ok(choice) => is_best(candidates@, choice),
            Err(e) => e == InitError::NoCapableDevice && forall|j: int|
                0 <= j < candidates@.len() ==> !eligible(#[trigger] candidates@[j]),
        },
{
    let mut best: Option<DeviceChoice> = None;
    let mut best_rank: u8 = 0;
    let mut i: usize = 0;
    while i < candidates.len()
        invariant
            i <= candidates.len(),
            match best {
                Some(choice) => {
                    &&& choice.device < i
                    &&& candidates@[choice.device as int].supports_swapchain
                    &&& first_usable(
                        candidates@[choice.device as int].queue_families@,
                        choice.queue_family as int,
                    )
                    &&& best_rank == rank(candidates@[choice.device as int].kind)
                    &&& forall|j: int|
                        0 <= j < i && eligible(#[trigger] candidates@[j]) ==> best_rank <= rank(
                            candidates@[j].kind,
                        )
                    &&& forall|j: int|
                        0 <= j < choice.device && eligible(#[trigger] candidates@[j])
                            ==> best_rank < rank(candidates@[j].kind)
                },
                None => forall|j: int| 0 <= j < i ==> !eligible(#[trigger] candidates@[j]),
            },
        decreases candidates.len() - i,
    {
        let candidate = &candidates[i];
        if candidate.supports_swapchain {
            match find_queue_family(&candidate.queue_families) {
                Some(queue_family) => {
                    let r: u8 = kind_rank(candidate.kind);
                    if best.is_none() || r < best_rank {
                        best = Some(DeviceChoice { device: i, queue_family });
                        best_rank = r;
                    }
                },
                None => {},
            }
        }
        i += 1;
    }
    match best {
        Some(choice) => Ok(choice),
        None => Err(InitError::NoCapableDevice),
    }
}

} // verus!
