//! The device byte layout of every record, as little-endian 32-bit words. Vectors
//! of three components are aligned to 16 bytes, as in WGSL storage and uniform
//! buffers, so a padding word follows one where no scalar fills the gap; every
//! array element is padded to a multiple of 16 bytes.
use vstd::prelude::*;

use crate::gpu::{Mat4Bits, Vec3Bits, Vec4Bits};
use crate::ray_trace_camera::CameraGPU;
use crate::ray_trace_globals::GlobalsGPU;
use crate::ray_trace_intersection::IntersectionGPU;
use crate::ray_trace_materials::MaterialGPU;
use crate::ray_trace_rays::{RayBufGPU, RayGPU};
use crate::sphere::{ObjectListGPU, SphereGPU};

verus! {

/// A record with a fixed device layout.
pub trait DeviceRecord: Sized {
    /// The record's words, padding included.
    spec fn spec_words(&self) -> Seq<u32>;

    /// Appends the record's words to `out`.
    fn append_words(&self, out: &mut Vec<u32>)
        ensures
            final(out)@ == old(out)@ + self.spec_words(),
    ;
}

pub open spec fn vec3_words(v: Vec3Bits) -> Seq<u32> {
    seq![v.x, v.y, v.z]
}

pub open spec fn vec4_words(v: Vec4Bits) -> Seq<u32> {
    seq![v.x, v.y, v.z, v.w]
}

pub open spec fn mat4_words(m: Mat4Bits) -> Seq<u32> {
    vec4_words(m.x_axis) + vec4_words(m.y_axis) + vec4_words(m.z_axis) + vec4_words(m.w_axis)
}

fn push3(out: &mut Vec<u32>, v: Vec3Bits)
    ensures
        final(out)@ == old(out)@ + vec3_words(v),
{
    out.push(v.x);
    out.push(v.y);
    out.push(v.z);
    assert(out@ =~= old(out)@ + vec3_words(v));
}

fn push4(out: &mut Vec<u32>, v: Vec4Bits)
    ensures
        final(out)@ == old(out)@ + vec4_words(v),
{
    out.push(v.x);
    out.push(v.y);
    out.push(v.z);
    out.push(v.w);
    assert(out@ =~= old(out)@ + vec4_words(v));
}

fn push_mat4(out: &mut Vec<u32>, m: Mat4Bits)
    ensures
        final(out)@ == old(out)@ + mat4_words(m),
{
    push4(out, m.x_axis);
    push4(out, m.y_axis);
    push4(out, m.z_axis);
    push4(out, m.w_axis);
    assert(out@ =~= old(out)@ + mat4_words(m));
}

impl DeviceRecord for CameraGPU {
    /// 32 words: the matrix, then each vector followed by one lens scalar.
    open spec fn spec_words(&self) -> Seq<u32> {
        mat4_words(self.transform) + vec3_words(self.forward) + seq![self.fov] + vec3_words(
            self.up,
        ) + seq![self.image_plane_distance] + vec3_words(self.right) + seq![
            self.lens_focal_length,
        ] + vec3_words(self.position) + seq![self.fstop]
    }

    fn append_words(&self, out: &mut Vec<u32>) {
        let ghost start = out@;
        push_mat4(out, self.transform);
        push3(out, self.forward);
        out.push(self.fov);
        push3(out, self.up);
        out.push(self.image_plane_distance);
        push3(out, self.right);
        out.push(self.lens_focal_length);
        push3(out, self.position);
        out.push(self.fstop);
        assert(out@ =~= start + self.spec_words());
    }
}

impl DeviceRecord for GlobalsGPU {
    /// 9 words, in field order.
    open spec fn spec_words(&self) -> Seq<u32> {
        seq![
            self.frame,
            self.render_width,
            self.render_height,
            self.samples_per_ray,
            self.clear_index,
            self.generate_index,
            self.intersect_index,
            self.shade_index,
            self.collect_index,
        ]
    }

    fn append_words(&self, out: &mut Vec<u32>) {
        let ghost start = out@;
        out.push(self.frame);
        out.push(self.render_width);
        out.push(self.render_height);
        out.push(self.samples_per_ray);
        out.push(self.clear_index);
        out.push(self.generate_index);
        out.push(self.intersect_index);
        out.push(self.shade_index);
        out.push(self.collect_index);
        assert(out@ =~= start + self.spec_words());
    }
}

impl DeviceRecord for RayGPU {
    /// 8 words: origin, padding, direction, pixel.
    open spec fn spec_words(&self) -> Seq<u32> {
        vec3_words(self.origin) + seq![0u32] + vec3_words(self.dir) + seq![self.pixel]
    }

    fn append_words(&self, out: &mut Vec<u32>) {
        let ghost start = out@;
        push3(out, self.origin);
        out.push(0);
        push3(out, self.dir);
        out.push(self.pixel);
        assert(out@ =~= start + self.spec_words());
    }
}

impl DeviceRecord for IntersectionGPU {
    /// 16 words: colour, point, t, normal, material, front face, three padding.
    open spec fn spec_words(&self) -> Seq<u32> {
        vec4_words(self.color) + vec3_words(self.point) + seq![self.t] + vec3_words(self.normal)
            + seq![self.material, self.front_face, 0u32, 0u32, 0u32]
    }

    fn append_words(&self, out: &mut Vec<u32>) {
        let ghost start = out@;
        push4(out, self.color);
        push3(out, self.point);
        out.push(self.t);
        push3(out, self.normal);
        out.push(self.material);
        out.push(self.front_face);
        out.push(0);
        out.push(0);
        out.push(0);
        assert(out@ =~= start + self.spec_words());
    }
}

impl DeviceRecord for SphereGPU {
    /// 8 words: center, radius, material, three padding.
    open spec fn spec_words(&self) -> Seq<u32> {
        vec3_words(self.center) + seq![self.radius, self.material, 0u32, 0u32, 0u32]
    }

    fn append_words(&self, out: &mut Vec<u32>) {
        let ghost start = out@;
        push3(out, self.center);
        out.push(self.radius);
        out.push(self.material);
        out.push(0);
        out.push(0);
        out.push(0);
        assert(out@ =~= start + self.spec_words());
    }
}

impl DeviceRecord for MaterialGPU {
    /// 8 words: colour, reflectance code, fuzziness, index of refraction, padding.
    open spec fn spec_words(&self) -> Seq<u32> {
        vec4_words(self.color) + seq![
            self.reflectance as u32,
            self.fuzziness,
            self.index_of_refraction,
            self.pad2 as u32,
        ]
    }

    fn append_words(&self, out: &mut Vec<u32>) {
        let ghost start = out@;
        push4(out, self.color);
        out.push(self.reflectance as u32);
        out.push(self.fuzziness);
        out.push(self.index_of_refraction);
        out.push(self.pad2 as u32);
        assert(out@ =~= start + self.spec_words());
    }
}

/// The words of an array of records, one after the other.
pub open spec fn flat_words<T: DeviceRecord>(s: Seq<T>) -> Seq<u32>
    decreases s.len(),
{
    if s.len() == 0 {
        Seq::empty()
    } else {
        flat_words(s.drop_last()) + s.last().spec_words()
    }
}

/// An array of records that each take `k` words takes `k` words per record.
pub proof fn lemma_flat_words_len<T: DeviceRecord>(s: Seq<T>, k: nat)
    requires
        forall|i: int| 0 <= i < s.len() ==> (#[trigger] s[i]).spec_words().len() == k,
    ensures
        flat_words(s).len() == k * s.len(),
    decreases s.len(),
{
    if s.len() > 0 {
        let p = s.drop_last();
        assert forall|i: int| 0 <= i < p.len() implies (#[trigger] p[i]).spec_words().len() == k by {
            assert(p[i] == s[i]);
        }
        lemma_flat_words_len(p, k);
        assert(s.last() == s[s.len() - 1]);
        assert(k * p.len() + k == k * s.len()) by (nonlinear_arith)
            requires
                p.len() + 1 == s.len(),
        ;
    }
}

/// Appends the words of every record, in order.
pub fn append_records<T: DeviceRecord>(items: &Vec<T>, out: &mut Vec<u32>)
    ensures
        final(out)@ == old(out)@ + flat_words(items@),
{
    let ghost start = out@;
    let mut i: usize = 0;
    assert(items@.take(0) =~= Seq::<T>::empty());
    assert(out@ =~= start + flat_words(items@.take(0)));
    while i < items.len()
        invariant
            i <= items@.len(),
            out@ == start + flat_words(items@.take(i as int)),
        decreases items@.len() - i,
    {
        let ghost before = out@;
        items[i].append_words(out);
        assert(items@.take(i as int + 1).drop_last() =~= items@.take(i as int));
        assert(items@.take(i as int + 1).last() == items@[i as int]);
        assert(out@ =~= start + flat_words(items@.take(i as int + 1)));
        i = i + 1;
    }
    assert(items@.take(items@.len() as int) =~= items@);
}

/// The words of a single record.
pub fn record_words<T: DeviceRecord>(record: &T) -> (r: Vec<u32>)
    ensures
        r@ == record.spec_words(),
{
    let mut out: Vec<u32> = Vec::new();
    record.append_words(&mut out);
    assert(out@ =~= record.spec_words());
    out
}

/// The words of an array buffer with no header.
pub fn array_words<T: DeviceRecord>(items: &Vec<T>) -> (r: Vec<u32>)
    ensures
        r@ == flat_words(items@),
{
    let mut out: Vec<u32> = Vec::new();
    append_records(items, &mut out);
    assert(out@ =~= flat_words(items@));
    out
}

/// The ray buffer: its count, padded to 16 bytes, then the rays.
pub fn ray_buffer_words(buf: &RayBufGPU) -> (r: Vec<u32>)
    ensures
        r@ == seq![buf.ray_count, 0u32, 0u32, 0u32] + flat_words(buf.rays@),
        r@.len() == 4 + 8 * buf.rays@.len(),
{
    let mut out: Vec<u32> = vec![buf.ray_count, 0, 0, 0];
    append_records(&buf.rays, &mut out);
    proof {
        lemma_flat_words_len(buf.rays@, 8);
    }
    out
}

/// The object buffer: its sphere count, padded to 16 bytes, then the spheres.
pub fn object_list_words(list: &ObjectListGPU) -> (r: Vec<u32>)
    ensures
        r@ == seq![list.sphere_count, 0u32, 0u32, 0u32] + flat_words(list.spheres@),
        r@.len() == 4 + 8 * list.spheres@.len(),
{
    let mut out: Vec<u32> = vec![list.sphere_count, 0, 0, 0];
    append_records(&list.spheres, &mut out);
    proof {
        lemma_flat_words_len(list.spheres@, 8);
    }
    out
}

} // verus!
