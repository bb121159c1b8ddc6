use vstd::prelude::*;

use crate::buffers::capacity_step;
use crate::config::RenderConfig;
use crate::gpu::Vec3Bits;
use crate::layout::LayoutGroup;
use crate::ray_trace_camera::{self, CameraGPU, CameraGPUStorage};
use crate::ray_trace_globals::{self, GlobalsGPUStorage};
use crate::ray_trace_intersection::{self, IntersectionGPU, IntersectionGPUStorage};
use crate::ray_trace_materials::{self, material_record, MaterialCache, MaterialGPUStorage};
use crate::ray_trace_node::{
    all_ready, frame_plan, next_state, Dispatch, RayTraceNode, RayTraceState,
};
use crate::ray_trace_rays::{self, RayBufGPUStorage, RayGPU};
use crate::sphere::{self, sphere_record, ObjectListGPU, ObjectListStorage, Sphere};

verus! {

/// Which bind groups exist and still point at the current buffers.
#[derive(Clone, Copy, Debug, PartialEq, Eq, Structural)]
pub struct BindGroupCache {
    pub camera_globals: bool,
    pub rays_intersections: bool,
    pub objects_materials: bool,
    pub output: bool,
}

/// The bind groups to (re)build this frame, in layout order: those never built,
/// and those whose buffers were reallocated.
pub open spec fn stale_groups(
    cache: BindGroupCache,
    rays_changed: bool,
    scene_changed: bool,
) -> Seq<LayoutGroup> {
    (if !cache.camera_globals {
        seq![LayoutGroup::CameraGlobals]
    } else {
        Seq::empty()
    }) + (if !cache.rays_intersections || rays_changed {
        seq![LayoutGroup::RaysIntersections]
    } else {
        Seq::empty()
    }) + (if !cache.objects_materials || scene_changed {
        seq![LayoutGroup::ObjectsMaterials]
    } else {
        Seq::empty()
    }) + (if !cache.output {
        seq![LayoutGroup::Output]
    } else {
        Seq::empty()
    })
}

/// What the host must do for one frame, in this order: upload the camera, the
/// globals and the object list (always rewritten) and the buffers flagged here;
/// rebuild the bind groups listed; then encode the dispatches in order.
#[derive(Debug)]
pub struct FramePlan {
    pub upload_rays: bool,
    pub upload_intersections: bool,
    pub upload_materials: bool,
    pub objects_resized: bool,
    pub rebuild: Vec<LayoutGroup>,
    pub dispatches: Vec<Dispatch>,
}

/// The state of a rendering session: its settings, the kernel orchestrator, every
/// host-side buffer mirror, and which bind groups are current.
#[derive(Debug)]
pub struct RayTraceSession {
    pub config: RenderConfig,
    pub node: RayTraceNode,
    pub camera: CameraGPUStorage,
    pub globals: GlobalsGPUStorage,
    pub rays: RayBufGPUStorage,
    pub intersections: IntersectionGPUStorage,
    pub objects: ObjectListGPU,
    pub object_storage: ObjectListStorage,
    pub materials: MaterialGPUStorage,
    pub bind_groups: BindGroupCache,
}

impl RayTraceSession {
    pub open spec fn wf(&self) -> bool {
        &&& self.config.wf()
        &&& self.rays.buffer.wf()
        &&& self.object_storage.buffer.wf()
    }

    /// A session that has drawn nothing: every buffer empty, no bind group built,
    /// the orchestrator loading, the frame counter at zero.
    pub fn new(config: RenderConfig) -> (r: RayTraceSession)
        requires
            config.wf(),
        ensures
            r.wf(),
            r.config == config,
            r.node@ == RayTraceState::Loading,
            r.globals.next_frame == 0,
            r.rays.buffer.rays@.len() == 0,
            r.intersections.buffer@.len() == 0,
            r.object_storage.buffer.spheres@.len() == 0,
            r.materials.buffer@.len() == 0,
            r.bind_groups == (BindGroupCache {
                camera_globals: false,
                rays_intersections: false,
                objects_materials: false,
                output: false,
            }),
    {
        RayTraceSession {
            config,
            node: RayTraceNode::default(),
            camera: CameraGPUStorage::new(),
            globals: GlobalsGPUStorage::new(),
            rays: RayBufGPUStorage::new(),
            intersections: IntersectionGPUStorage::new(),
            objects: ObjectListGPU::new(),
            object_storage: ObjectListStorage::new(),
            materials: MaterialGPUStorage::new(),
            bind_groups: BindGroupCache {
                camera_globals: false,
                rays_intersections: false,
                objects_materials: false,
                output: false,
            },
        }
    }

    /// Lists the stale bind groups and marks every group current.
    fn queue(&mut self, rays_changed: bool, scene_changed: bool) -> (r: Vec<LayoutGroup>)
        ensures
            r@ == stale_groups(old(self).bind_groups, rays_changed, scene_changed),
            final(self).bind_groups == (BindGroupCache {
                camera_globals: true,
                rays_intersections: true,
                objects_materials: true,
                output: true,
            }),
            final(self).config == old(self).config,
            final(self).node == old(self).node,
            final(self).camera == old(self).camera,
            final(self).globals == old(self).globals,
            final(self).rays == old(self).rays,
            final(self).intersections == old(self).intersections,
            final(self).objects == old(self).objects,
            final(self).object_storage == old(self).object_storage,
            final(self).materials == old(self).materials,
    {
        let c = self.bind_groups;
        let mut r: Vec<LayoutGroup> = Vec::new();
        if !c.camera_globals {
            r.push(LayoutGroup::CameraGlobals);
        }
        if !c.rays_intersections || rays_changed {
            r.push(LayoutGroup::RaysIntersections);
        }
        if !c.objects_materials || scene_changed {
            r.push(LayoutGroup::ObjectsMaterials);
        }
        if !c.output {
            r.push(LayoutGroup::Output);
        }
        assert(r@ =~= stale_groups(c, rays_changed, scene_changed));
        self.bind_groups = BindGroupCache {
            camera_globals: true,
            rays_intersections: true,
            objects_materials: true,
            output: true,
        };
        r
    }

    /// Runs the host side of one frame: mirrors the camera, the live spheres and
    /// the material table, advances the globals, sizes the ray and intersection
    /// buffers, lists the bind groups to rebuild, polls pipeline readiness, and
    /// plans the frame's dispatches (none while loading).
    pub fn tick(
        &mut self,
        readiness: &Vec<bool>,
        camera: CameraGPU,
        live: &Vec<(Sphere, Vec3Bits)>,
        cache: &MaterialCache,
    ) -> (plan: FramePlan)
        requires
            old(self).wf(),
            old(self).globals.next_frame < u32::MAX,
            live@.len() <= u32::MAX,
        ensures
            final(self).wf(),
            final(self).config == old(self).config,
            final(self).camera.buffer@ == seq![camera],
            final(self).globals.buffer.frame == old(self).globals.next_frame,
            final(self).globals.next_frame == old(self).globals.next_frame + 1,
            final(self).globals.buffer.cursors_reset(),
            final(self).globals.buffer.render_width == old(self).config.width,
            final(self).globals.buffer.render_height == old(self).config.height,
            final(self).globals.buffer.samples_per_ray == old(self).config.samples_per_ray,
            (final(self).rays.buffer.rays@, plan.upload_rays) == capacity_step(
                old(self).rays.buffer.rays@,
                old(self).config.total_rays(),
                RayGPU::spec_zeroed(),
            ),
            (final(self).intersections.buffer@, plan.upload_intersections) == capacity_step(
                old(self).intersections.buffer@,
                old(self).config.total_rays(),
                IntersectionGPU::spec_zeroed(),
            ),
            final(self).object_storage.buffer.sphere_count == live@.len(),
            final(self).object_storage.buffer.spheres@.len() == live@.len(),
            forall|i: int|
                0 <= i < live@.len() ==> #[trigger] final(self).object_storage.buffer.spheres@[i]
                    == sphere_record(live@[i].0, live@[i].1),
            plan.objects_resized == (old(self).object_storage.buffer.spheres@.len()
                != live@.len()),
            plan.upload_materials == (old(self).materials.buffer@.len() != cache.entries().len()),
            final(self).materials.buffer@.len() == cache.entries().len(),
            !plan.upload_materials ==> final(self).materials.buffer@ == old(
                self,
            ).materials.buffer@,
            plan.upload_materials ==> forall|i: int|
                0 <= i < cache.entries().len() ==> #[trigger] final(self).materials.buffer@[i]
                    == material_record(cache.entries()[i].1),
            plan.rebuild@ == stale_groups(
                old(self).bind_groups,
                plan.upload_rays || plan.upload_intersections,
                plan.objects_resized || plan.upload_materials,
            ),
            final(self).node@ == next_state(old(self).node@, readiness@),
            final(self).node@ == RayTraceState::Loading ==> plan.dispatches@.len() == 0,
            final(self).node@ == RayTraceState::Ready ==> frame_plan(
                old(self).config,
                plan.dispatches@,
            ),
    {
        ray_trace_camera::prepare(&mut self.camera, camera);
        ray_trace_globals::prepare(&mut self.globals, &self.config);
        let upload_rays = ray_trace_rays::prepare(&mut self.rays, &self.config);
        let upload_intersections = ray_trace_intersection::prepare(
            &mut self.intersections,
            &self.config,
        );
        sphere::extract(&mut self.objects, live);
        let objects_resized = sphere::prepare(&mut self.objects, &mut self.object_storage);
        let upload_materials = ray_trace_materials::prepare(cache, &mut self.materials);
        let rebuild = self.queue(
            upload_rays || upload_intersections,
            objects_resized || upload_materials,
        );
        self.node.update(readiness);
        let dispatches = self.node.run(&self.config);
        FramePlan {
            upload_rays,
            upload_intersections,
            upload_materials,
            objects_resized,
            rebuild,
            dispatches,
        }
    }
}

} // verus!

verus! {

/// For any valid settings, after one frame the ray and intersection buffers hold
/// exactly width × height × samples elements, whatever they held before; a later
/// frame with the same settings reallocates neither and leaves both unchanged.
pub proof fn lemma_ray_buffers_sized_once(
    config: RenderConfig,
    rays: Seq<RayGPU>,
    hits: Seq<IntersectionGPU>,
)
    requires
        config.wf(),
    ensures
        ({
            let total = config.total_rays();
            let rays1 = capacity_step(rays, total, RayGPU::spec_zeroed()).0;
            let hits1 = capacity_step(hits, total, IntersectionGPU::spec_zeroed()).0;
            &&& rays1.len() == config.width as nat * config.height as nat
                * config.samples_per_ray as nat
            &&& hits1.len() == config.width as nat * config.height as nat
                * config.samples_per_ray as nat
            &&& capacity_step(rays1, total, RayGPU::spec_zeroed()) == (rays1, false)
            &&& capacity_step(hits1, total, IntersectionGPU::spec_zeroed()) == (hits1, false)
        }),
{
    crate::buffers::lemma_capacity_step_stable(rays, config.total_rays(), RayGPU::spec_zeroed());
    crate::buffers::lemma_capacity_step_stable(
        hits,
        config.total_rays(),
        IntersectionGPU::spec_zeroed(),
    );
}

/// Once ready, the orchestrator stays ready whatever the readiness poll says;
/// while loading it becomes ready exactly when every pipeline is ready.
pub proof fn lemma_ready_is_terminal(readiness: Seq<bool>)
    ensures
        next_state(RayTraceState::Ready, readiness) == RayTraceState::Ready,
        next_state(RayTraceState::Loading, readiness) == RayTraceState::Ready <==> all_ready(
            readiness,
        ),
{
}

} // verus!

verus! {

/// Bind groups are cached: once every group has been built, a frame in which no
/// buffer was reallocated rebuilds none, and a frame that reallocated only the
/// object or material buffer rebuilds only the group that binds them.
pub proof fn lemma_bind_groups_reused(cache: BindGroupCache)
    requires
        cache.camera_globals && cache.rays_intersections && cache.objects_materials
            && cache.output,
    ensures
        stale_groups(cache, false, false) == Seq::<LayoutGroup>::empty(),
        stale_groups(cache, false, true) == seq![LayoutGroup::ObjectsMaterials],
        stale_groups(cache, true, false) == seq![LayoutGroup::RaysIntersections],
{
    assert(stale_groups(cache, false, false) =~= Seq::<LayoutGroup>::empty());
    assert(stale_groups(cache, false, true) =~= seq![LayoutGroup::ObjectsMaterials]);
    assert(stale_groups(cache, true, false) =~= seq![LayoutGroup::RaysIntersections]);
}

} // verus!
