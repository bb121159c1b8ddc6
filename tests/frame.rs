use bevy_raytrace::bind_group::{check_bind_group, group_entries, BindError, BindGroupEntry, Resource};
use bevy_raytrace::config::{ConfigError, RenderConfig};
use bevy_raytrace::gpu::{Mat4Bits, Vec3Bits, Vec4Bits};
use bevy_raytrace::layout::{Access, LayoutEntry, LayoutGroup, ResourceKind};
use bevy_raytrace::ray_trace_camera::CameraGPU;
use bevy_raytrace::ray_trace_materials::{MaterialCache, RayTraceMaterial, Reflectance};
use bevy_raytrace::ray_trace_node::{RayTraceNode, RayTraceState};
use bevy_raytrace::ray_trace_pipeline::{registry, Pass, RayTracePipelines};
use bevy_raytrace::session::RayTraceSession;
use bevy_raytrace::sphere::Sphere;

fn v3(x: f32, y: f32, z: f32) -> Vec3Bits {
    Vec3Bits { x: x.to_bits(), y: y.to_bits(), z: z.to_bits() }
}

fn v4(x: f32, y: f32, z: f32, w: f32) -> Vec4Bits {
    Vec4Bits { x: x.to_bits(), y: y.to_bits(), z: z.to_bits(), w: w.to_bits() }
}

fn camera_at_origin() -> CameraGPU {
    let identity = Mat4Bits {
        x_axis: v4(1.0, 0.0, 0.0, 0.0),
        y_axis: v4(0.0, 1.0, 0.0, 0.0),
        z_axis: v4(0.0, 0.0, 1.0, 0.0),
        w_axis: v4(0.0, 0.0, 0.0, 1.0),
    };
    CameraGPU {
        transform: identity,
        forward: v3(0.0, 0.0, -1.0),
        fov: 1.5708f32.to_bits(),
        up: v3(0.0, 1.0, 0.0),
        image_plane_distance: 10.0f32.to_bits(),
        right: v3(1.0, 0.0, 0.0),
        lens_focal_length: 0.1f32.to_bits(),
        position: v3(0.0, 0.0, 0.0),
        fstop: (1.0f32 / 32.0).to_bits(),
    }
}

fn lambertian(r: f32, g: f32, b: f32) -> RayTraceMaterial {
    RayTraceMaterial {
        color: v4(r, g, b, 1.0),
        reflectance: Reflectance::Lambertian,
        fuzziness: 1.0f32.to_bits(),
        index_of_refraction: 0.0f32.to_bits(),
    }
}

fn sphere_at(x: f32, y: f32, z: f32, radius: f32, material: u32) -> (Sphere, Vec3Bits) {
    (Sphere { radius: radius.to_bits(), material }, v3(x, y, z))
}

fn ready_all() -> Vec<bool> {
    vec![true; registry().len()]
}

#[test]
fn buffers_sized_to_rays_and_kept_across_frames() {
    let config = RenderConfig::new(64, 48, 2, 128, 3).unwrap();
    let mut session = RayTraceSession::new(config);
    let cache = MaterialCache::new();
    let plan = session.tick(&ready_all(), camera_at_origin(), &vec![], &cache);
    assert!(plan.upload_rays);
    assert!(plan.upload_intersections);
    assert_eq!(session.rays.buffer.rays.len(), 64 * 48 * 2);
    assert_eq!(session.rays.buffer.ray_count, 64 * 48 * 2);
    assert_eq!(session.intersections.buffer.len(), 64 * 48 * 2);
    for _ in 0..3 {
        let plan = session.tick(&ready_all(), camera_at_origin(), &vec![], &cache);
        assert!(!plan.upload_rays);
        assert!(!plan.upload_intersections);
        assert_eq!(session.rays.buffer.rays.len(), 6144);
        assert_eq!(session.intersections.buffer.len(), 6144);
    }
}

#[test]
fn material_slots_follow_insertion_order() {
    let mut cache = MaterialCache::new();
    assert_eq!(cache.insert("A".to_string(), lambertian(1.0, 0.0, 0.0)), 0);
    assert_eq!(cache.insert("B".to_string(), lambertian(0.0, 1.0, 0.0)), 1);
    assert_eq!(cache.insert("C".to_string(), lambertian(0.0, 0.0, 1.0)), 2);
    assert_eq!(cache.get_index_of("B"), 1);
    assert_eq!(cache.insert("D".to_string(), lambertian(0.5, 0.5, 0.5)), 3);
    assert_eq!(cache.get_index_of("B"), 1);
    assert_eq!(cache.len(), 4);
}

#[test]
fn material_reinsert_keeps_slot_and_material() {
    let mut cache = MaterialCache::new();
    cache.insert("ground".to_string(), lambertian(0.8, 0.8, 0.0));
    cache.insert("center".to_string(), lambertian(0.7, 0.3, 0.3));
    assert_eq!(cache.insert("ground".to_string(), lambertian(0.1, 0.1, 0.1)), 0);
    assert_eq!(cache.len(), 2);
    assert_eq!(cache.get("ground"), lambertian(0.8, 0.8, 0.0));
    assert_eq!(cache.get("center"), lambertian(0.7, 0.3, 0.3));
    assert!(cache.contains_key("center"));
    assert!(!cache.contains_key("left"));
}

#[test]
fn material_mirror_encodes_reflectance() {
    let mut cache = MaterialCache::new();
    cache.insert("a".to_string(), lambertian(0.2, 0.4, 0.6));
    let mut metal = lambertian(0.8, 0.6, 0.2);
    metal.reflectance = Reflectance::Metallic;
    metal.fuzziness = 0.4f32.to_bits();
    cache.insert("b".to_string(), metal);
    let mut glass = lambertian(1.0, 1.0, 1.0);
    glass.reflectance = Reflectance::Dielectric;
    glass.index_of_refraction = 1.5f32.to_bits();
    cache.insert("c".to_string(), glass);
    let config = RenderConfig::new(8, 8, 1, 64, 1).unwrap();
    let mut session = RayTraceSession::new(config);
    let plan = session.tick(&ready_all(), camera_at_origin(), &vec![], &cache);
    assert!(plan.upload_materials);
    let m = &session.materials.buffer;
    assert_eq!(m.len(), 3);
    assert_eq!(m[0].reflectance, 0);
    assert_eq!(m[1].reflectance, 1);
    assert_eq!(m[2].reflectance, 2);
    assert_eq!(m[1].fuzziness, 0.4f32.to_bits());
    assert_eq!(m[2].index_of_refraction, 1.5f32.to_bits());
    assert_eq!(m[0].color, v4(0.2, 0.4, 0.6, 1.0));
    assert_eq!(m[0].pad2, 0);
    let plan = session.tick(&ready_all(), camera_at_origin(), &vec![], &cache);
    assert!(!plan.upload_materials);
    assert_eq!(Reflectance::default(), Reflectance::Lambertian);
}

#[test]
fn frame_counter_advances_by_one() {
    let config = RenderConfig::new(4, 4, 1, 16, 1).unwrap();
    let mut session = RayTraceSession::new(config);
    let cache = MaterialCache::new();
    for expected in 0..5u32 {
        session.tick(&ready_all(), camera_at_origin(), &vec![], &cache);
        assert_eq!(session.globals.buffer.frame, expected);
        assert_eq!(session.globals.next_frame, expected + 1);
        assert_eq!(session.globals.buffer.clear_index, 0);
        assert_eq!(session.globals.buffer.collect_index, 0);
        assert_eq!(session.globals.buffer.render_width, 4);
        assert_eq!(session.node.state(), RayTraceState::Ready);
    }
}

#[test]
fn loading_dispatches_nothing_until_all_ready() {
    let config = RenderConfig::new(16, 16, 1, 64, 3).unwrap();
    let mut session = RayTraceSession::new(config);
    let cache = MaterialCache::new();
    let mut partial = ready_all();
    partial[3] = false;
    let plan = session.tick(&partial, camera_at_origin(), &vec![], &cache);
    assert!(plan.dispatches.is_empty());
    assert_eq!(session.node.state(), RayTraceState::Loading);
    let plan = session.tick(&ready_all(), camera_at_origin(), &vec![], &cache);
    assert_eq!(session.node.state(), RayTraceState::Ready);
    assert_eq!(plan.dispatches.len(), 12);
    let plan = session.tick(&partial, camera_at_origin(), &vec![], &cache);
    assert_eq!(session.node.state(), RayTraceState::Ready);
    assert_eq!(plan.dispatches.len(), 12);
}

#[test]
fn node_state_machine() {
    let mut node = RayTraceNode::default();
    assert_eq!(node.state(), RayTraceState::Loading);
    node.update(&vec![true, false, true]);
    assert_eq!(node.state(), RayTraceState::Loading);
    node.update(&vec![true, true, true]);
    assert_eq!(node.state(), RayTraceState::Ready);
    node.update(&vec![false, false, false]);
    assert_eq!(node.state(), RayTraceState::Ready);
    let config = RenderConfig::new(2, 2, 1, 1, 0).unwrap();
    let passes: Vec<Pass> = node.run(&config).iter().map(|d| d.pass).collect();
    assert_eq!(passes, vec![Pass::Clear, Pass::Generate, Pass::Collect]);
    assert!(RayTraceNode::default().run(&config).is_empty());
}

#[test]
fn bounce_loop_runs_three_times() {
    let config = RenderConfig::new(32, 32, 1, 128, 3).unwrap();
    let mut node = RayTraceNode::default();
    node.update(&ready_all());
    let plan = node.run(&config);
    let passes: Vec<Pass> = plan.iter().map(|d| d.pass).collect();
    assert_eq!(
        passes,
        vec![
            Pass::Clear,
            Pass::Generate,
            Pass::Prepass,
            Pass::Intersect,
            Pass::Shade,
            Pass::Prepass,
            Pass::Intersect,
            Pass::Shade,
            Pass::Prepass,
            Pass::Intersect,
            Pass::Shade,
            Pass::Collect,
        ]
    );
    let in_loop = passes
        .iter()
        .filter(|p| matches!(p, Pass::Prepass | Pass::Intersect | Pass::Shade))
        .count();
    assert_eq!(in_loop, 9);
    assert!(plan.iter().all(|d| d.workgroups == 8));
}

#[test]
fn dispatch_count_rounds_up() {
    let even = RenderConfig::new(1920, 1080, 1, 128, 3).unwrap();
    assert_eq!(even.ray_count(), 2073600);
    assert_eq!(even.dispatch_count(), 16200);
    let odd = RenderConfig::new(10, 10, 1, 128, 3).unwrap();
    assert_eq!(odd.dispatch_count(), 1);
    let uneven = RenderConfig::new(100, 3, 1, 64, 3).unwrap();
    assert_eq!(uneven.dispatch_count(), 5);
    let standard = RenderConfig::standard();
    assert_eq!(standard, even);
}

#[test]
fn config_errors() {
    assert_eq!(RenderConfig::new(0, 10, 1, 128, 3), Err(ConfigError::ZeroDimension));
    assert_eq!(RenderConfig::new(10, 0, 1, 128, 3), Err(ConfigError::ZeroDimension));
    assert_eq!(RenderConfig::new(10, 10, 0, 128, 3), Err(ConfigError::ZeroSamples));
    assert_eq!(RenderConfig::new(10, 10, 1, 0, 3), Err(ConfigError::ZeroWorkgroup));
    assert_eq!(RenderConfig::new(65536, 65536, 1, 128, 3), Err(ConfigError::TooManyRays));
    assert_eq!(RenderConfig::new(65536, 65535, 2, 128, 3), Err(ConfigError::TooManyRays));
    assert!(RenderConfig::new(65535, 65535, 1, 128, 3).is_ok());
}

#[test]
fn end_to_end_single_sphere_host_side() {
    let config = RenderConfig::new(64, 64, 1, 128, 3).unwrap();
    let mut cache = MaterialCache::new();
    let material = cache.insert("diffuse".to_string(), lambertian(0.7, 0.3, 0.3));
    assert_eq!(material, 0);
    let live = vec![sphere_at(0.0, 0.0, -1.0, 0.5, material)];
    let mut session = RayTraceSession::new(config);
    let plan = session.tick(&ready_all(), camera_at_origin(), &live, &cache);
    assert_eq!(session.camera.buffer, vec![camera_at_origin()]);
    assert_eq!(session.rays.buffer.rays.len(), 4096);
    assert_eq!(session.object_storage.buffer.sphere_count, 1);
    let s = session.object_storage.buffer.spheres[0];
    assert_eq!(s.center, v3(0.0, 0.0, -1.0));
    assert_eq!(s.radius, 0.5f32.to_bits());
    assert_eq!(s.material, 0);
    assert_eq!(plan.dispatches.len(), 12);
    assert!(plan.dispatches.iter().all(|d| d.workgroups == 32));
    assert_eq!(
        plan.rebuild,
        vec![
            LayoutGroup::CameraGlobals,
            LayoutGroup::RaysIntersections,
            LayoutGroup::ObjectsMaterials,
            LayoutGroup::Output,
        ]
    );
    let again = session.tick(&ready_all(), camera_at_origin(), &live, &cache);
    assert!(again.rebuild.is_empty());
    assert_eq!(again.dispatches, plan.dispatches);
    assert_eq!(session.object_storage.buffer.spheres[0], s);
}

#[test]
fn object_buffer_follows_live_spheres() {
    let config = RenderConfig::new(8, 8, 1, 64, 1).unwrap();
    let mut session = RayTraceSession::new(config);
    let cache = MaterialCache::new();
    let two = vec![sphere_at(0.0, 0.0, -1.0, 0.5, 0), sphere_at(1.0, 0.0, -1.0, 0.5, 0)];
    session.tick(&ready_all(), camera_at_origin(), &two, &cache);
    assert_eq!(session.object_storage.buffer.sphere_count, 2);
    let four = vec![
        sphere_at(0.0, 0.0, -1.0, 0.5, 0),
        sphere_at(1.0, 0.0, -1.0, 0.5, 0),
        sphere_at(2.0, 0.0, -1.0, 0.25, 0),
        sphere_at(3.0, 0.0, -1.0, 0.25, 0),
    ];
    let plan = session.tick(&ready_all(), camera_at_origin(), &four, &cache);
    assert!(plan.objects_resized);
    assert_eq!(plan.rebuild, vec![LayoutGroup::ObjectsMaterials]);
    assert_eq!(session.object_storage.buffer.sphere_count, 4);
    assert_eq!(session.object_storage.buffer.spheres.len(), 4);
    assert_eq!(session.object_storage.buffer.spheres[3].center, v3(3.0, 0.0, -1.0));
    assert!(session.objects.spheres.is_empty());
}

#[test]
fn bind_groups_fit_their_layouts() {
    for group in [
        LayoutGroup::CameraGlobals,
        LayoutGroup::RaysIntersections,
        LayoutGroup::ObjectsMaterials,
        LayoutGroup::Output,
    ] {
        assert_eq!(check_bind_group(&group.entries(), &group_entries(group)), Ok(()));
    }
}

#[test]
fn bind_group_errors() {
    let layout = LayoutGroup::CameraGlobals.entries();
    let missing = vec![BindGroupEntry { binding: 0, resource: Resource::CameraUniform }];
    assert_eq!(check_bind_group(&layout, &missing), Err(BindError::MissingSlot(1)));
    let access = vec![
        BindGroupEntry { binding: 0, resource: Resource::CameraUniform },
        BindGroupEntry { binding: 1, resource: Resource::Materials },
    ];
    assert_eq!(check_bind_group(&layout, &access), Err(BindError::AccessMismatch(1)));
    let kind = vec![
        BindGroupEntry { binding: 0, resource: Resource::Objects },
        BindGroupEntry { binding: 1, resource: Resource::Globals },
    ];
    assert_eq!(check_bind_group(&layout, &kind), Err(BindError::KindMismatch(0)));
    let image = vec![BindGroupEntry { binding: 0, resource: Resource::Rays }];
    assert_eq!(
        check_bind_group(&LayoutGroup::Output.entries(), &image),
        Err(BindError::KindMismatch(0))
    );
}

#[test]
fn layouts_and_kernels() {
    assert_eq!(
        LayoutGroup::Output.entries(),
        vec![LayoutEntry { binding: 0, access: Access::ReadWrite, kind: ResourceKind::StorageImage }]
    );
    assert_eq!(LayoutGroup::CameraGlobals.entries()[0].kind, ResourceKind::UniformBuffer);
    assert_eq!(LayoutGroup::ObjectsMaterials.entries()[1].access, Access::ReadOnly);
    assert_eq!(
        Pass::Shade.layouts(),
        vec![
            LayoutGroup::CameraGlobals,
            LayoutGroup::RaysIntersections,
            LayoutGroup::ObjectsMaterials,
            LayoutGroup::Output,
        ]
    );
    assert_eq!(Pass::Generate.layouts().len(), 2);
    assert_eq!(Pass::Intersect.shader_path(), "shaders/intersect.wgsl");
    assert_eq!(Pass::Collect.label(), "collect");
    assert_eq!(Pass::Clear.entry_point(), "main");
    assert_eq!(LayoutGroup::RaysIntersections.label(), "rays_intersections");
    let ids = RayTracePipelines::from_registry(&vec![10, 11, 12, 13, 14, 15]);
    assert_eq!(ids.id_of(Pass::Clear), 10);
    assert_eq!(ids.id_of(Pass::Generate), 12);
    assert_eq!(ids.id_of(Pass::Collect), 15);
}
