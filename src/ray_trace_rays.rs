use vstd::prelude::*;

use crate::buffers::{capacity_step, ensure_capacity};
use crate::config::RenderConfig;
use crate::gpu::Vec3Bits;
use crate::layout::{Access, LayoutEntry, ResourceKind};

verus! {

/// One ray as the kernels see it: origin, direction and the pixel it was shot for.
#[derive(Clone, Copy, Debug, PartialEq, Eq, Structural)]
pub struct RayGPU {
    pub origin: Vec3Bits,
    pub dir: Vec3Bits,
    pub pixel: u32,
}

/// The ray buffer: a count header followed by the rays.
#[derive(Debug)]
pub struct RayBufGPU {
    pub ray_count: u32,
    pub rays: Vec<RayGPU>,
}

/// Host-side owner of the ray buffer.
#[derive(Debug)]
pub struct RayBufGPUStorage {
    pub buffer: RayBufGPU,
}

impl RayGPU {
    pub open spec fn spec_zeroed() -> RayGPU {
        RayGPU {
            origin: Vec3Bits { x: 0, y: 0, z: 0 },
            dir: Vec3Bits { x: 0, y: 0, z: 0 },
            pixel: 0,
        }
    }

    /// A ray with every field zero, as freshly allocated slots hold.
    pub fn zeroed() -> (r: RayGPU)
        ensures
            r == Self::spec_zeroed(),
    {
        RayGPU { origin: Vec3Bits::zero(), dir: Vec3Bits::zero(), pixel: 0 }
    }
}

impl RayBufGPU {
    /// The header counts the rays that follow it.
    pub open spec fn wf(&self) -> bool {
        self.ray_count as nat == self.rays@.len()
    }
}

impl RayBufGPUStorage {
    /// An empty ray buffer.
    pub fn new() -> (r: RayBufGPUStorage)
        ensures
            r.buffer.wf(),
            r.buffer.rays@.len() == 0,
    {
        RayBufGPUStorage { buffer: RayBufGPU { ray_count: 0, rays: Vec::new() } }
    }
}

/// Sizes the ray buffer to one slot per ray of the frame. The buffer is reallocated
/// (and must be re-uploaded) only when that count changed; the result says whether.
pub fn prepare(ray_buf: &mut RayBufGPUStorage, config: &RenderConfig) -> (reallocated: bool)
    requires
        old(ray_buf).buffer.wf(),
        config.wf(),
    ensures
        (final(ray_buf).buffer.rays@, reallocated) == capacity_step(
            old(ray_buf).buffer.rays@,
            config.total_rays(),
            RayGPU::spec_zeroed(),
        ),
        final(ray_buf).buffer.wf(),
        final(ray_buf).buffer.ray_count == config.total_rays(),
{
    let ray_count = config.ray_count();
    let reallocated = ensure_capacity(&mut ray_buf.buffer.rays, ray_count as usize, RayGPU::zeroed());
    ray_buf.buffer.ray_count = ray_count;
    reallocated
}

/// Slot of the ray buffer: read and written by the kernels.
pub fn describe(binding: u32) -> (r: LayoutEntry)
    ensures
        r == (LayoutEntry { binding, access: Access::ReadWrite, kind: ResourceKind::StorageBuffer }),
{
    LayoutEntry::new(binding, Access::ReadWrite, ResourceKind::StorageBuffer)
}

} // verus!
