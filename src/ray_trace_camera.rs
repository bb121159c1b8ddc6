use vstd::prelude::*;

use crate::gpu::{Mat4Bits, Vec3Bits};
use crate::layout::{Access, LayoutEntry, ResourceKind};

verus! {

/// The camera uniform: transform, basis vectors, position and lens settings.
#[derive(Clone, Copy, Debug, PartialEq, Eq, Structural)]
pub struct CameraGPU {
    pub transform: Mat4Bits,
    pub forward: Vec3Bits,
    pub fov: u32,
    pub up: Vec3Bits,
    pub image_plane_distance: u32,
    pub right: Vec3Bits,
    pub lens_focal_length: u32,
    pub position: Vec3Bits,
    pub fstop: u32,
}

/// Host-side owner of the camera uniform buffer.
#[derive(Debug)]
pub struct CameraGPUStorage {
    pub buffer: Vec<CameraGPU>,
}

impl CameraGPUStorage {
    /// A camera buffer that holds no uniform yet.
    pub fn new() -> (r: CameraGPUStorage)
        ensures
            r.buffer@.len() == 0,
    {
        CameraGPUStorage { buffer: Vec::new() }
    }
}

/// Replaces the camera uniform with this frame's: afterwards the buffer holds
/// exactly that one record, whatever it held before.
pub fn prepare(camera_gpu: &mut CameraGPUStorage, camera: CameraGPU)
    ensures
        final(camera_gpu).buffer@ == seq![camera],
{
    camera_gpu.buffer.clear();
    camera_gpu.buffer.push(camera);
    assert(camera_gpu.buffer@ =~= seq![camera]);
}

/// Slot of the camera uniform: read-only.
pub fn describe(binding: u32) -> (r: LayoutEntry)
    ensures
        r == (LayoutEntry { binding, access: Access::ReadOnly, kind: ResourceKind::UniformBuffer }),
{
    LayoutEntry::new(binding, Access::ReadOnly, ResourceKind::UniformBuffer)
}

} // verus!
