use vstd::prelude::*;

use crate::gpu::Vec3Bits;
use crate::layout::{Access, LayoutEntry, ResourceKind};

verus! {

/// A sphere as the kernels see it.
#[derive(Clone, Copy, Debug, PartialEq, Eq, Structural)]
pub struct SphereGPU {
    pub center: Vec3Bits,
    pub radius: u32,
    pub material: u32,
}

/// The object list written each frame: a count header and the live spheres.
#[derive(Debug)]
pub struct ObjectListGPU {
    pub sphere_count: u32,
    pub spheres: Vec<SphereGPU>,
}

/// Host-side owner of the object buffer that the kernels read.
#[derive(Debug)]
pub struct ObjectListStorage {
    pub buffer: ObjectListGPU,
}

/// A sphere of the scene: its radius, and the index of its material in the
/// material table. Its center comes from the scene's transform.
#[derive(Clone, Copy, Debug, PartialEq, Eq, Structural)]
pub struct Sphere {
    pub radius: u32,
    pub material: u32,
}

/// The device record of a scene sphere placed at `center`.
pub open spec fn sphere_record(sphere: Sphere, center: Vec3Bits) -> SphereGPU {
    SphereGPU { center, radius: sphere.radius, material: sphere.material }
}

impl SphereGPU {
    /// The device record of a scene sphere placed at `center`.
    pub fn from_sphere(sphere: &Sphere, center: Vec3Bits) -> (r: SphereGPU)
        ensures
            r == sphere_record(*sphere, center),
    {
        SphereGPU { center, radius: sphere.radius, material: sphere.material }
    }
}

impl ObjectListGPU {
    /// An object list that holds no sphere.
    pub fn new() -> (r: ObjectListGPU)
        ensures
            r.sphere_count == 0,
            r.spheres@.len() == 0,
    {
        ObjectListGPU { sphere_count: 0, spheres: Vec::new() }
    }

    /// The header counts the spheres that follow it.
    pub open spec fn wf(&self) -> bool {
        self.sphere_count as nat == self.spheres@.len()
    }
}

impl ObjectListStorage {
    /// An object buffer that holds no sphere.
    pub fn new() -> (r: ObjectListStorage)
        ensures
            r.buffer.wf(),
            r.buffer.spheres@.len() == 0,
    {
        ObjectListStorage { buffer: ObjectListGPU::new() }
    }
}

/// Rebuilds the object list from the live scene: it is cleared, then holds one
/// record per live sphere, in the order given.
pub fn extract(object_list: &mut ObjectListGPU, live: &Vec<(Sphere, Vec3Bits)>)
    ensures
        final(object_list).sphere_count == old(object_list).sphere_count,
        final(object_list).spheres@.len() == live@.len(),
        forall|i: int|
            0 <= i < live@.len() ==> #[trigger] final(object_list).spheres@[i] == sphere_record(
                live@[i].0,
                live@[i].1,
            ),
{
    object_list.spheres.clear();
    let mut i: usize = 0;
    while i < live.len()
        invariant
            i <= live@.len(),
            object_list.sphere_count == old(object_list).sphere_count,
            object_list.spheres@.len() == i,
            forall|j: int|
                0 <= j < i ==> #[trigger] object_list.spheres@[j] == sphere_record(
                    live@[j].0,
                    live@[j].1,
                ),
        decreases live@.len() - i,
    {
        let entry = &live[i];
        let record = SphereGPU::from_sphere(&entry.0, entry.1);
        object_list.spheres.push(record);
        i = i + 1;
    }
}

/// Moves the extracted spheres into the object buffer and sets its count. The
/// extracted list is left empty. Returns whether the element count changed, in
/// which case the buffer was reallocated and its bind group must be rebuilt.
pub fn prepare(object_list: &mut ObjectListGPU, storage: &mut ObjectListStorage) -> (reallocated:
    bool)
    requires
        old(object_list).spheres@.len() <= u32::MAX,
    ensures
        final(storage).buffer.spheres@ == old(object_list).spheres@,
        final(storage).buffer.wf(),
        final(object_list).spheres@.len() == 0,
        final(object_list).sphere_count == old(object_list).sphere_count,
        reallocated == (old(storage).buffer.spheres@.len() != old(object_list).spheres@.len()),
{
    let reallocated = storage.buffer.spheres.len() != object_list.spheres.len();
    storage.buffer.sphere_count = object_list.spheres.len() as u32;
    storage.buffer.spheres.clear();
    storage.buffer.spheres.append(&mut object_list.spheres);
    assert(storage.buffer.spheres@ =~= old(object_list).spheres@);
    reallocated
}

/// Slot of the object buffer: read-only to the kernels.
pub fn describe(binding: u32) -> (r: LayoutEntry)
    ensures
        r == (LayoutEntry { binding, access: Access::ReadOnly, kind: ResourceKind::StorageBuffer }),
{
    LayoutEntry::new(binding, Access::ReadOnly, ResourceKind::StorageBuffer)
}

} // verus!
