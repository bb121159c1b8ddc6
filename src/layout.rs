use vstd::prelude::*;

verus! {

/// How a kernel may touch a bound resource.
#[derive(Clone, Copy, Debug, PartialEq, Eq, Structural)]
pub enum Access {
    ReadOnly,
    ReadWrite,
}

/// The kind of resource a binding slot holds.
#[derive(Clone, Copy, Debug, PartialEq, Eq, Structural)]
pub enum ResourceKind {
    /// A uniform buffer (always read-only).
    UniformBuffer,
    /// A structured storage buffer.
    StorageBuffer,
    /// A two-dimensional RGBA 32-bit float storage image.
    StorageImage,
}

/// One slot of a bind layout, visible to compute kernels.
#[derive(Clone, Copy, Debug, PartialEq, Eq, Structural)]
pub struct LayoutEntry {
    pub binding: u32,
    pub access: Access,
    pub kind: ResourceKind,
}

/// The four bind layouts the kernels are compiled against.
#[derive(Clone, Copy, Debug, PartialEq, Eq, Structural)]
pub enum LayoutGroup {
    CameraGlobals,
    RaysIntersections,
    ObjectsMaterials,
    Output,
}

impl LayoutEntry {
    /// A compute-visible slot.
    pub fn new(binding: u32, access: Access, kind: ResourceKind) -> (r: LayoutEntry)
        ensures
            r == (LayoutEntry { binding, access, kind }),
    {
        LayoutEntry { binding, access, kind }
    }
}

impl LayoutGroup {
    /// The slots of each layout, in slot order.
    pub open spec fn spec_entries(self) -> Seq<LayoutEntry> {
        match self {
            LayoutGroup::CameraGlobals => seq![
                LayoutEntry { binding: 0, access: Access::ReadOnly, kind: ResourceKind::UniformBuffer },
                LayoutEntry { binding: 1, access: Access::ReadWrite, kind: ResourceKind::StorageBuffer },
            ],
            LayoutGroup::RaysIntersections => seq![
                LayoutEntry { binding: 0, access: Access::ReadWrite, kind: ResourceKind::StorageBuffer },
                LayoutEntry { binding: 1, access: Access::ReadWrite, kind: ResourceKind::StorageBuffer },
            ],
            LayoutGroup::ObjectsMaterials => seq![
                LayoutEntry { binding: 0, access: Access::ReadOnly, kind: ResourceKind::StorageBuffer },
                LayoutEntry { binding: 1, access: Access::ReadOnly, kind: ResourceKind::StorageBuffer },
            ],
            LayoutGroup::Output => seq![
                LayoutEntry { binding: 0, access: Access::ReadWrite, kind: ResourceKind::StorageImage },
            ],
        }
    }

    /// Declares the slots of this layout, gathered from the resources bound there.
    pub fn entries(&self) -> (r: Vec<LayoutEntry>)
        ensures
            r@ == self.spec_entries(),
    {
        let r = match self {
            LayoutGroup::CameraGlobals => vec![
                crate::ray_trace_camera::describe(0),
                crate::ray_trace_globals::describe(1),
            ],
            LayoutGroup::RaysIntersections => vec![
                crate::ray_trace_rays::describe(0),
                crate::ray_trace_intersection::describe(1),
            ],
            LayoutGroup::ObjectsMaterials => vec![
                crate::sphere::describe(0),
                crate::ray_trace_materials::describe(1),
            ],
            LayoutGroup::Output => crate::ray_trace_output::describe(),
        };
        assert(r@ =~= self.spec_entries());
        r
    }

    /// Name of the layout, for labelling device objects.
    pub fn label(&self) -> (r: &'static str)
        ensures
            r@ == self.spec_label(),
    {
        match self {
            LayoutGroup::CameraGlobals => "camera_globals",
            LayoutGroup::RaysIntersections => "rays_intersections",
            LayoutGroup::ObjectsMaterials => "objects_materials",
            LayoutGroup::Output => "output",
        }
    }

    pub open spec fn spec_label(self) -> Seq<char> {
        match self {
            LayoutGroup::CameraGlobals => "camera_globals"@,
            LayoutGroup::RaysIntersections => "rays_intersections"@,
            LayoutGroup::ObjectsMaterials => "objects_materials"@,
            LayoutGroup::Output => "output"@,
        }
    }
}

} // verus!
