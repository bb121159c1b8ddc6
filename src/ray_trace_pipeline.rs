use vstd::prelude::*;

use crate::layout::{LayoutEntry, LayoutGroup};

verus! {

/// The compute kernels of a frame, one pipeline each.
#[derive(Clone, Copy, Debug, PartialEq, Eq, Structural)]
pub enum Pass {
    Clear,
    Prepass,
    Generate,
    Intersect,
    Shade,
    Collect,
}

impl Pass {
    /// The bind layouts each kernel is compiled against, in group order.
    pub open spec fn spec_layouts(self) -> Seq<LayoutGroup> {
        match self {
            Pass::Clear => seq![
                LayoutGroup::CameraGlobals,
                LayoutGroup::RaysIntersections,
                LayoutGroup::Output,
            ],
            Pass::Generate => seq![LayoutGroup::CameraGlobals, LayoutGroup::RaysIntersections],
            Pass::Prepass => seq![
                LayoutGroup::CameraGlobals,
                LayoutGroup::RaysIntersections,
                LayoutGroup::Output,
            ],
            Pass::Intersect => seq![
                LayoutGroup::CameraGlobals,
                LayoutGroup::RaysIntersections,
                LayoutGroup::ObjectsMaterials,
            ],
            Pass::Shade => seq![
                LayoutGroup::CameraGlobals,
                LayoutGroup::RaysIntersections,
                LayoutGroup::ObjectsMaterials,
                LayoutGroup::Output,
            ],
            Pass::Collect => seq![
                LayoutGroup::CameraGlobals,
                LayoutGroup::RaysIntersections,
                LayoutGroup::Output,
            ],
        }
    }

    /// The bind layouts this kernel is compiled against; a dispatch binds group
    /// `i` of the result at index `i`.
    pub fn layouts(&self) -> (r: Vec<LayoutGroup>)
        ensures
            r@ == self.spec_layouts(),
    {
        let r = match self {
            Pass::Clear => vec![
                LayoutGroup::CameraGlobals,
                LayoutGroup::RaysIntersections,
                LayoutGroup::Output,
            ],
            Pass::Generate => vec![LayoutGroup::CameraGlobals, LayoutGroup::RaysIntersections],
            Pass::Prepass => vec![
                LayoutGroup::CameraGlobals,
                LayoutGroup::RaysIntersections,
                LayoutGroup::Output,
            ],
            Pass::Intersect => vec![
                LayoutGroup::CameraGlobals,
                LayoutGroup::RaysIntersections,
                LayoutGroup::ObjectsMaterials,
            ],
            Pass::Shade => vec![
                LayoutGroup::CameraGlobals,
                LayoutGroup::RaysIntersections,
                LayoutGroup::ObjectsMaterials,
                LayoutGroup::Output,
            ],
            Pass::Collect => vec![
                LayoutGroup::CameraGlobals,
                LayoutGroup::RaysIntersections,
                LayoutGroup::Output,
            ],
        };
        assert(r@ =~= self.spec_layouts());
        r
    }

    pub open spec fn spec_label(self) -> Seq<char> {
        match self {
            Pass::Clear => "clear"@,
            Pass::Prepass => "prepass"@,
            Pass::Generate => "generate"@,
            Pass::Intersect => "intersect"@,
            Pass::Shade => "shade"@,
            Pass::Collect => "collect"@,
        }
    }

    pub open spec fn spec_shader_path(self) -> Seq<char> {
        match self {
            Pass::Clear => "shaders/clear.wgsl"@,
            Pass::Prepass => "shaders/prepass.wgsl"@,
            Pass::Generate => "shaders/generate.wgsl"@,
            Pass::Intersect => "shaders/intersect.wgsl"@,
            Pass::Shade => "shaders/shade.wgsl"@,
            Pass::Collect => "shaders/collect.wgsl"@,
        }
    }

    /// The kernel's name, used as its pipeline label.
    pub fn label(&self) -> (r: &'static str)
        ensures
            r@ == self.spec_label(),
    {
        match self {
            Pass::Clear => "clear",
            Pass::Prepass => "prepass",
            Pass::Generate => "generate",
            Pass::Intersect => "intersect",
            Pass::Shade => "shade",
            Pass::Collect => "collect",
        }
    }

    /// The shader asset holding the kernel.
    pub fn shader_path(&self) -> (r: &'static str)
        ensures
            r@ == self.spec_shader_path(),
    {
        match self {
            Pass::Clear => "shaders/clear.wgsl",
            Pass::Prepass => "shaders/prepass.wgsl",
            Pass::Generate => "shaders/generate.wgsl",
            Pass::Intersect => "shaders/intersect.wgsl",
            Pass::Shade => "shaders/shade.wgsl",
            Pass::Collect => "shaders/collect.wgsl",
        }
    }

    /// The kernel's entry point in its shader.
    pub fn entry_point(&self) -> (r: &'static str)
        ensures
            r@ == "main"@,
    {
        "main"
    }
}

/// Every kernel of the registry, in the order its pipelines are created.
pub open spec fn spec_registry() -> Seq<Pass> {
    seq![Pass::Clear, Pass::Prepass, Pass::Generate, Pass::Intersect, Pass::Shade, Pass::Collect]
}

/// Every kernel of the registry, in the order its pipelines are created.
pub fn registry() -> (r: Vec<Pass>)
    ensures
        r@ == spec_registry(),
{
    let r = vec![Pass::Clear, Pass::Prepass, Pass::Generate, Pass::Intersect, Pass::Shade, Pass::Collect];
    assert(r@ =~= spec_registry());
    r
}

/// The four bind layouts, declared once at startup and never changed.
#[derive(Debug)]
pub struct RayTraceBindGroups {
    pub camera_globals: Vec<LayoutEntry>,
    pub rays_intersections: Vec<LayoutEntry>,
    pub objects_materials: Vec<LayoutEntry>,
    pub output: Vec<LayoutEntry>,
}

impl RayTraceBindGroups {
    /// Declares every layout from the resources bound in it.
    pub fn describe() -> (r: RayTraceBindGroups)
        ensures
            r.camera_globals@ == LayoutGroup::CameraGlobals.spec_entries(),
            r.rays_intersections@ == LayoutGroup::RaysIntersections.spec_entries(),
            r.objects_materials@ == LayoutGroup::ObjectsMaterials.spec_entries(),
            r.output@ == LayoutGroup::Output.spec_entries(),
    {
        RayTraceBindGroups {
            camera_globals: LayoutGroup::CameraGlobals.entries(),
            rays_intersections: LayoutGroup::RaysIntersections.entries(),
            objects_materials: LayoutGroup::ObjectsMaterials.entries(),
            output: LayoutGroup::Output.entries(),
        }
    }
}

/// Handles of the compiled kernel pipelines, one per pass.
#[derive(Clone, Copy, Debug, PartialEq, Eq, Structural)]
pub struct RayTracePipelines {
    pub clear: usize,
    pub prepass: usize,
    pub generate: usize,
    pub intersect: usize,
    pub shade: usize,
    pub collect: usize,
}

impl RayTracePipelines {
    pub open spec fn spec_id_of(self, pass: Pass) -> usize {
        match pass {
            Pass::Clear => self.clear,
            Pass::Prepass => self.prepass,
            Pass::Generate => self.generate,
            Pass::Intersect => self.intersect,
            Pass::Shade => self.shade,
            Pass::Collect => self.collect,
        }
    }

    /// The handle of the pipeline that runs `pass`.
    pub fn id_of(&self, pass: Pass) -> (r: usize)
        ensures
            r == self.spec_id_of(pass),
    {
        match pass {
            Pass::Clear => self.clear,
            Pass::Prepass => self.prepass,
            Pass::Generate => self.generate,
            Pass::Intersect => self.intersect,
            Pass::Shade => self.shade,
            Pass::Collect => self.collect,
        }
    }

    /// Gathers the handles that pipeline creation returned, given in registry order.
    pub fn from_registry(ids: &Vec<usize>) -> (r: RayTracePipelines)
        requires
            ids@.len() == spec_registry().len(),
        ensures
            forall|i: int|
                0 <= i < ids@.len() ==> r.spec_id_of(#[trigger] spec_registry()[i]) == ids@[i],
    {
        let r = RayTracePipelines {
            clear: ids[0],
            prepass: ids[1],
            generate: ids[2],
            intersect: ids[3],
            shade: ids[4],
            collect: ids[5],
        };
        assert forall|i: int| 0 <= i < ids@.len() implies r.spec_id_of(
            #[trigger] spec_registry()[i],
        ) == ids@[i] by {
            assert(spec_registry()[0] == Pass::Clear);
            assert(spec_registry()[1] == Pass::Prepass);
            assert(spec_registry()[2] == Pass::Generate);
            assert(spec_registry()[3] == Pass::Intersect);
            assert(spec_registry()[4] == Pass::Shade);
            assert(spec_registry()[5] == Pass::Collect);
        }
        r
    }
}

} // verus!
