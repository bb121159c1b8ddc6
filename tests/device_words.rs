use bevy_raytrace::device_layout::{array_words, object_list_words, ray_buffer_words, record_words};
use bevy_raytrace::gpu::{Mat4Bits, Vec3Bits, Vec4Bits};
use bevy_raytrace::ray_trace_camera::CameraGPU;
use bevy_raytrace::ray_trace_globals::GlobalsGPU;
use bevy_raytrace::ray_trace_intersection::IntersectionGPU;
use bevy_raytrace::ray_trace_materials::{MaterialGPU, RayTraceMaterial, Reflectance};
use bevy_raytrace::ray_trace_rays::{RayBufGPU, RayGPU};
use bevy_raytrace::sphere::{ObjectListGPU, SphereGPU};

fn v3(x: u32, y: u32, z: u32) -> Vec3Bits {
    Vec3Bits { x, y, z }
}

fn v4(x: u32, y: u32, z: u32, w: u32) -> Vec4Bits {
    Vec4Bits { x, y, z, w }
}

#[test]
fn ray_buffer_header_and_padding() {
    let buf = RayBufGPU {
        ray_count: 2,
        rays: vec![
            RayGPU { origin: v3(1, 2, 3), dir: v3(4, 5, 6), pixel: 7 },
            RayGPU { origin: v3(8, 9, 10), dir: v3(11, 12, 13), pixel: 14 },
        ],
    };
    assert_eq!(
        ray_buffer_words(&buf),
        vec![2, 0, 0, 0, 1, 2, 3, 0, 4, 5, 6, 7, 8, 9, 10, 0, 11, 12, 13, 14]
    );
    let empty = RayBufGPU { ray_count: 0, rays: vec![] };
    assert_eq!(ray_buffer_words(&empty), vec![0, 0, 0, 0]);
}

#[test]
fn object_list_words_pad_each_sphere() {
    let list = ObjectListGPU {
        sphere_count: 1,
        spheres: vec![SphereGPU { center: v3(1, 2, 3), radius: 4, material: 5 }],
    };
    assert_eq!(object_list_words(&list), vec![1, 0, 0, 0, 1, 2, 3, 4, 5, 0, 0, 0]);
}

#[test]
fn intersection_words_fill_sixteen() {
    let hit = IntersectionGPU {
        color: v4(1, 2, 3, 4),
        point: v3(5, 6, 7),
        t: 8,
        normal: v3(9, 10, 11),
        material: 12,
        front_face: 1,
    };
    let words = array_words(&vec![hit, hit]);
    assert_eq!(words.len(), 32);
    assert_eq!(&words[..16], &[1, 2, 3, 4, 5, 6, 7, 8, 9, 10, 11, 12, 1, 0, 0, 0]);
    assert_eq!(&words[16..], &words[..16]);
}

#[test]
fn material_words_carry_reflectance_code() {
    let metal = RayTraceMaterial {
        color: v4(10, 20, 30, 40),
        reflectance: Reflectance::Metallic,
        fuzziness: 50,
        index_of_refraction: 60,
    };
    let record = MaterialGPU::from_material(&metal);
    assert_eq!(record_words(&record), vec![10, 20, 30, 40, 1, 50, 60, 0]);
    let glass = RayTraceMaterial { reflectance: Reflectance::Dielectric, ..metal };
    assert_eq!(record_words(&MaterialGPU::from_material(&glass))[4], 2);
}

#[test]
fn camera_and_globals_words() {
    let m = Mat4Bits {
        x_axis: v4(1, 2, 3, 4),
        y_axis: v4(5, 6, 7, 8),
        z_axis: v4(9, 10, 11, 12),
        w_axis: v4(13, 14, 15, 16),
    };
    let camera = CameraGPU {
        transform: m,
        forward: v3(17, 18, 19),
        fov: 20,
        up: v3(21, 22, 23),
        image_plane_distance: 24,
        right: v3(25, 26, 27),
        lens_focal_length: 28,
        position: v3(29, 30, 31),
        fstop: 32,
    };
    assert_eq!(record_words(&camera), (1..=32).collect::<Vec<u32>>());
    let globals = GlobalsGPU {
        frame: 9,
        render_width: 64,
        render_height: 32,
        samples_per_ray: 1,
        clear_index: 0,
        generate_index: 0,
        intersect_index: 0,
        shade_index: 0,
        collect_index: 0,
    };
    assert_eq!(record_words(&globals), vec![9, 64, 32, 1, 0, 0, 0, 0, 0]);
}
