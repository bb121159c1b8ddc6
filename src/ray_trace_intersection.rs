use vstd::prelude::*;

use crate::buffers::{capacity_step, ensure_capacity};
use crate::config::RenderConfig;
use crate::gpu::{Vec3Bits, Vec4Bits};
use crate::layout::{Access, LayoutEntry, ResourceKind};

verus! {

/// What a ray hit, and the colour carried along its path across bounces.
#[derive(Clone, Copy, Debug, PartialEq, Eq, Structural)]
pub struct IntersectionGPU {
    pub color: Vec4Bits,
    pub point: Vec3Bits,
    pub t: u32,
    pub normal: Vec3Bits,
    pub material: u32,
    pub front_face: u32,
}

/// Host-side owner of the intersection buffer: one slot per ray slot.
#[derive(Debug)]
pub struct IntersectionGPUStorage {
    pub buffer: Vec<IntersectionGPU>,
}

impl IntersectionGPU {
    pub open spec fn spec_zeroed() -> IntersectionGPU {
        IntersectionGPU {
            color: Vec4Bits { x: 0, y: 0, z: 0, w: 0 },
            point: Vec3Bits { x: 0, y: 0, z: 0 },
            t: 0,
            normal: Vec3Bits { x: 0, y: 0, z: 0 },
            material: 0,
            front_face: 0,
        }
    }

    /// An intersection with every field zero, as freshly allocated slots hold.
    pub fn zeroed() -> (r: IntersectionGPU)
        ensures
            r == Self::spec_zeroed(),
    {
        IntersectionGPU {
            color: Vec4Bits::zero(),
            point: Vec3Bits::zero(),
            t: 0,
            normal: Vec3Bits::zero(),
            material: 0,
            front_face: 0,
        }
    }
}

impl IntersectionGPUStorage {
    /// An empty intersection buffer.
    pub fn new() -> (r: IntersectionGPUStorage)
        ensures
            r.buffer@.len() == 0,
    {
        IntersectionGPUStorage { buffer: Vec::new() }
    }
}

/// Sizes the intersection buffer to as many slots as there are rays. It is
/// reallocated (and must be re-uploaded) only when that count changed.
pub fn prepare(intersections: &mut IntersectionGPUStorage, config: &RenderConfig) -> (reallocated:
    bool)
    requires
        config.wf(),
    ensures
        (final(intersections).buffer@, reallocated) == capacity_step(
            old(intersections).buffer@,
            config.total_rays(),
            IntersectionGPU::spec_zeroed(),
        ),
{
    let ray_count = config.ray_count();
    ensure_capacity(&mut intersections.buffer, ray_count as usize, IntersectionGPU::zeroed())
}

/// Slot of the intersection buffer: read and written by the kernels.
pub fn describe(binding: u32) -> (r: LayoutEntry)
    ensures
        r == (LayoutEntry { binding, access: Access::ReadWrite, kind: ResourceKind::StorageBuffer }),
{
    LayoutEntry::new(binding, Access::ReadWrite, ResourceKind::StorageBuffer)
}

} // verus!
