use vstd::prelude::*;

use indexmap::IndexMap;

use crate::gpu::Vec4Bits;
use crate::layout::{Access, LayoutEntry, ResourceKind};

verus! {

#[verifier::external_type_specification]
#[verifier::external_body]
#[verifier::reject_recursive_types(K)]
#[verifier::reject_recursive_types(V)]
#[verifier::reject_recursive_types(S)]
pub struct ExIndexMap<K, V, S>(IndexMap<K, V, S>);

/// The entries of a material map, in insertion order: each key with its material.
pub uninterp spec fn material_entries(m: IndexMap<String, RayTraceMaterial>) -> Seq<
    (Seq<char>, RayTraceMaterial),
>;

/// Relies on `IndexMap::new`: the new map is empty.
#[verifier::external_body]
fn map_new() -> (r: IndexMap<String, RayTraceMaterial>)
    ensures
        material_entries(r) == Seq::<(Seq<char>, RayTraceMaterial)>::empty(),
{
    IndexMap::new()
}

/// Relies on `IndexMap::len`: the number of entries.
#[verifier::external_body]
fn map_len(m: &IndexMap<String, RayTraceMaterial>) -> (r: usize)
    ensures
        r == material_entries(*m).len(),
{
    m.len()
}

/// Relies on `IndexMap::insert_full`: a key already present keeps its slot and
/// takes the new value; any other key is appended. Returns the key's slot.
#[verifier::external_body]
fn map_insert_full(
    m: &mut IndexMap<String, RayTraceMaterial>,
    key: String,
    value: RayTraceMaterial,
) -> (r: usize)
    ensures
        key_present(material_entries(*old(m)), key@) ==> {
            &&& r < material_entries(*old(m)).len()
            &&& material_entries(*old(m))[r as int].0 == key@
            &&& material_entries(*final(m)) == material_entries(*old(m)).update(
                r as int,
                (key@, value),
            )
        },
        !key_present(material_entries(*old(m)), key@) ==> {
            &&& r == material_entries(*old(m)).len()
            &&& material_entries(*final(m)) == material_entries(*old(m)).push((key@, value))
        },
{
    m.insert_full(key, value).0
}

/// Relies on `IndexMap::get_index_of`: the slot of an entry with this key, if any.
#[verifier::external_body]
fn map_get_index_of(m: &IndexMap<String, RayTraceMaterial>, key: &str) -> (r: Option<usize>)
    ensures
        r matches Some(i) ==> i < material_entries(*m).len() && material_entries(*m)[i as int].0
            == key@,
        r is None ==> !key_present(material_entries(*m), key@),
{
    m.get_index_of(key)
}

/// Relies on `IndexMap::get`: the material of an entry with this key, if any.
#[verifier::external_body]
fn map_get<'a>(m: &'a IndexMap<String, RayTraceMaterial>, key: &str) -> (r: Option<
    &'a RayTraceMaterial,
>)
    ensures
        r matches Some(v) ==> exists|i: int|
            0 <= i < material_entries(*m).len() && #[trigger] material_entries(*m)[i] == (
                key@,
                *v,
            ),
        r is None ==> !key_present(material_entries(*m), key@),
{
    m.get(key)
}

/// Relies on `IndexMap::get_index`: the material in slot `index`, if there is one.
#[verifier::external_body]
fn map_get_index(m: &IndexMap<String, RayTraceMaterial>, index: usize) -> (r: Option<
    &RayTraceMaterial,
>)
    ensures
        r is Some <==> index < material_entries(*m).len(),
        r matches Some(v) ==> *v == material_entries(*m)[index as int].1,
{
    m.get_index(index).map(|entry| entry.1)
}

/// Some entry has key `k`.
pub open spec fn key_present(e: Seq<(Seq<char>, RayTraceMaterial)>, k: Seq<char>) -> bool {
    exists|i: int| 0 <= i < e.len() && #[trigger] e[i].0 == k
}

/// No two entries share a key.
pub open spec fn keys_unique(e: Seq<(Seq<char>, RayTraceMaterial)>) -> bool {
    forall|i: int, j: int| 0 <= i < e.len() && 0 <= j < e.len() && #[trigger] e[i].0 == #[trigger] e[j].0 ==> i == j
}

/// The slot of the entry with key `k` (meaningful when the key is present).
pub open spec fn position_of(e: Seq<(Seq<char>, RayTraceMaterial)>, k: Seq<char>) -> int {
    choose|i: int| 0 <= i < e.len() && #[trigger] e[i].0 == k
}

/// Inserting into the table: a key already present keeps its slot and its
/// material; a new key is appended. Gives the new entries and the key's slot.
pub open spec fn insert_step(
    e: Seq<(Seq<char>, RayTraceMaterial)>,
    k: Seq<char>,
    m: RayTraceMaterial,
) -> (Seq<(Seq<char>, RayTraceMaterial)>, nat) {
    if key_present(e, k) {
        (e, position_of(e, k) as nat)
    } else {
        (e.push((k, m)), e.len())
    }
}

/// The reflectance model of a material.
#[derive(Clone, Copy, Debug, PartialEq, Eq, Structural)]
pub enum Reflectance {
    Lambertian,
    Metallic,
    Dielectric,
}

impl Reflectance {
    /// The code the kernels switch on.
    pub open spec fn spec_code(self) -> i32 {
        match self {
            Reflectance::Lambertian => 0,
            Reflectance::Metallic => 1,
            Reflectance::Dielectric => 2,
        }
    }

    /// The code the kernels switch on: 0 Lambertian, 1 Metallic, 2 Dielectric.
    pub fn code(&self) -> (r: i32)
        ensures
            r == self.spec_code(),
    {
        match self {
            Reflectance::Lambertian => 0,
            Reflectance::Metallic => 1,
            Reflectance::Dielectric => 2,
        }
    }
}

impl Default for Reflectance {
    fn default() -> (r: Reflectance)
        ensures
            r == Reflectance::Lambertian,
    {
        Reflectance::Lambertian
    }
}

/// A material of the scene: RGBA base colour, reflectance model, fuzziness
/// (meaningful for Metallic) and index of refraction (meaningful for Dielectric).
/// The float values are held as their bit patterns.
#[derive(Clone, Copy, Debug, PartialEq, Eq, Structural)]
pub struct RayTraceMaterial {
    pub color: Vec4Bits,
    pub reflectance: Reflectance,
    pub fuzziness: u32,
    pub index_of_refraction: u32,
}

/// A material as the kernels see it.
#[derive(Clone, Copy, Debug, PartialEq, Eq, Structural)]
pub struct MaterialGPU {
    pub color: Vec4Bits,
    pub reflectance: i32,
    pub fuzziness: u32,
    pub index_of_refraction: u32,
    pub pad2: i32,
}

/// The device record of a material.
pub open spec fn material_record(m: RayTraceMaterial) -> MaterialGPU {
    MaterialGPU {
        color: m.color,
        reflectance: m.reflectance.spec_code(),
        fuzziness: m.fuzziness,
        index_of_refraction: m.index_of_refraction,
        pad2: 0,
    }
}

impl MaterialGPU {
    /// The device record of a material.
    pub fn from_material(m: &RayTraceMaterial) -> (r: MaterialGPU)
        ensures
            r == material_record(*m),
    {
        MaterialGPU {
            color: m.color,
            reflectance: m.reflectance.code(),
            fuzziness: m.fuzziness,
            index_of_refraction: m.index_of_refraction,
            pad2: 0,
        }
    }
}

/// Host-side owner of the material buffer.
#[derive(Debug)]
pub struct MaterialGPUStorage {
    pub buffer: Vec<MaterialGPU>,
}

impl MaterialGPUStorage {
    /// A material buffer that holds no material.
    pub fn new() -> (r: MaterialGPUStorage)
        ensures
            r.buffer@.len() == 0,
    {
        MaterialGPUStorage { buffer: Vec::new() }
    }
}

/// The material table: named materials in insertion order. It only grows, and a
/// material's slot, which objects refer to, never changes.
pub struct MaterialCache {
    materials: IndexMap<String, RayTraceMaterial>,
}

impl MaterialCache {
    /// The table's entries in slot order.
    pub closed spec fn entries(&self) -> Seq<(Seq<char>, RayTraceMaterial)> {
        material_entries(self.materials)
    }

    /// Keys are unique, and every slot fits a 32-bit index.
    pub open spec fn wf(&self) -> bool {
        &&& keys_unique(self.entries())
        &&& self.entries().len() <= u32::MAX
    }

    /// An empty table.
    pub fn new() -> (r: MaterialCache)
        ensures
            r.wf(),
            r.entries() == Seq::<(Seq<char>, RayTraceMaterial)>::empty(),
    {
        MaterialCache { materials: map_new() }
    }

    /// Adds a material under `key` and returns its slot. A key that is already
    /// present keeps its slot and its material: the table is append-only.
    pub fn insert(&mut self, key: String, material: RayTraceMaterial) -> (r: u32)
        requires
            old(self).wf(),
            old(self).entries().len() < u32::MAX,
        ensures
            final(self).wf(),
            (final(self).entries(), r as nat) == insert_step(old(self).entries(), key@, material),
    {
        match map_get_index_of(&self.materials, key.as_str()) {
            Some(i) => {
                proof {
                    lemma_position_unique(self.entries(), key@, i as int);
                }
                i as u32
            },
            None => {
                let ghost before = self.entries();
                let i = map_insert_full(&mut self.materials, key, material);
                proof {
                    let after = self.entries();
                    assert(after == before.push((key@, material)));
                    assert forall|a: int, b: int|
                        0 <= a < after.len() && 0 <= b < after.len() && #[trigger] after[a].0
                            == #[trigger] after[b].0 implies a == b by {
                        if a < before.len() && b < before.len() {
                            assert(before[a].0 == before[b].0);
                        } else if a < before.len() {
                            assert(before[a].0 == key@);
                        } else if b < before.len() {
                            assert(before[b].0 == key@);
                        }
                    }
                }
                i as u32
            },
        }
    }

    /// Whether a material is stored under `key`.
    pub fn contains_key(&self, key: &str) -> (r: bool)
        ensures
            r == key_present(self.entries(), key@),
    {
        map_get_index_of(&self.materials, key).is_some()
    }

    /// The slot of the material stored under `key`.
    pub fn get_index_of(&self, key: &str) -> (r: u32)
        requires
            self.wf(),
            key_present(self.entries(), key@),
        ensures
            r == position_of(self.entries(), key@),
            self.entries()[r as int].0 == key@,
    {
        match map_get_index_of(&self.materials, key) {
            Some(i) => {
                proof {
                    lemma_position_unique(self.entries(), key@, i as int);
                }
                i as u32
            },
            None => vstd::pervasive::unreached(),
        }
    }

    /// The material stored under `key`.
    pub fn get(&self, key: &str) -> (r: RayTraceMaterial)
        requires
            self.wf(),
            key_present(self.entries(), key@),
        ensures
            self.entries()[position_of(self.entries(), key@)] == (key@, r),
    {
        match map_get(&self.materials, key) {
            Some(m) => {
                let ghost i = choose|i: int|
                    0 <= i < self.entries().len() && #[trigger] self.entries()[i] == (key@, *m);
                proof {
                    lemma_position_unique(self.entries(), key@, i);
                }
                *m
            },
            None => vstd::pervasive::unreached(),
        }
    }

    /// Number of materials in the table.
    pub fn len(&self) -> (r: usize)
        ensures
            r == self.entries().len(),
    {
        map_len(&self.materials)
    }
}

/// With unique keys, the slot holding a key is the one `position_of` names.
pub proof fn lemma_position_unique(e: Seq<(Seq<char>, RayTraceMaterial)>, k: Seq<char>, i: int)
    requires
        keys_unique(e),
        0 <= i < e.len(),
        e[i].0 == k,
    ensures
        position_of(e, k) == i,
{
    assert(key_present(e, k));
    let p = position_of(e, k);
    assert(e[p].0 == e[i].0);
}

/// Inserting never moves a key already in the table: after inserting any key,
/// every key that was present is still present, in the same slot.
pub proof fn lemma_insert_keeps_slots(
    e: Seq<(Seq<char>, RayTraceMaterial)>,
    k: Seq<char>,
    new_key: Seq<char>,
    m: RayTraceMaterial,
)
    requires
        keys_unique(e),
        key_present(e, k),
    ensures
        keys_unique(insert_step(e, new_key, m).0),
        key_present(insert_step(e, new_key, m).0, k),
        position_of(insert_step(e, new_key, m).0, k) == position_of(e, k),
{
    let i = position_of(e, k);
    let after = insert_step(e, new_key, m).0;
    if !key_present(e, new_key) {
        assert forall|a: int, b: int|
            0 <= a < after.len() && 0 <= b < after.len() && #[trigger] after[a].0
                == #[trigger] after[b].0 implies a == b by {
            if a < e.len() && b < e.len() {
                assert(e[a].0 == e[b].0);
            } else if a < e.len() {
                assert(e[a].0 == new_key);
            } else if b < e.len() {
                assert(e[b].0 == new_key);
            }
        }
    }
    assert(after[i].0 == k);
    lemma_position_unique(after, k, i);
}

/// Inserting three distinct keys into an empty table gives them slots 0, 1 and 2,
/// and the second key is then found in slot 1.
pub proof fn lemma_insert_in_order(
    a: Seq<char>,
    ma: RayTraceMaterial,
    b: Seq<char>,
    mb: RayTraceMaterial,
    c: Seq<char>,
    mc: RayTraceMaterial,
)
    requires
        a != b,
        a != c,
        b != c,
    ensures
        ({
            let s0 = Seq::<(Seq<char>, RayTraceMaterial)>::empty();
            let s1 = insert_step(s0, a, ma);
            let s2 = insert_step(s1.0, b, mb);
            let s3 = insert_step(s2.0, c, mc);
            &&& s1.1 == 0
            &&& s2.1 == 1
            &&& s3.1 == 2
            &&& keys_unique(s3.0)
            &&& key_present(s3.0, b)
            &&& position_of(s3.0, b) == 1
        }),
{
    let s0 = Seq::<(Seq<char>, RayTraceMaterial)>::empty();
    let s1 = insert_step(s0, a, ma);
    assert(!key_present(s0, a));
    assert(s1.0 =~= seq![(a, ma)]);
    assert(!key_present(s1.0, b)) by {
        if key_present(s1.0, b) {
            let i = choose|i: int| 0 <= i < s1.0.len() && #[trigger] s1.0[i].0 == b;
            assert(i == 0);
        }
    }
    let s2 = insert_step(s1.0, b, mb);
    assert(s2.0 =~= seq![(a, ma), (b, mb)]);
    assert(!key_present(s2.0, c)) by {
        if key_present(s2.0, c) {
            let i = choose|i: int| 0 <= i < s2.0.len() && #[trigger] s2.0[i].0 == c;
            assert(i == 0 || i == 1);
        }
    }
    let s3 = insert_step(s2.0, c, mc);
    assert(s3.0 =~= seq![(a, ma), (b, mb), (c, mc)]);
    assert(keys_unique(s3.0)) by {
        assert forall|x: int, y: int|
            0 <= x < s3.0.len() && 0 <= y < s3.0.len() && #[trigger] s3.0[x].0
                == #[trigger] s3.0[y].0 implies x == y by {
            assert(s3.0[0].0 == a && s3.0[1].0 == b && s3.0[2].0 == c);
        }
    }
    assert(s3.0[1].0 == b);
    lemma_position_unique(s3.0, b, 1);
}

/// Mirrors the material table into the device array, one record per slot in slot
/// order. The table only grows, so the array is rebuilt only when the counts
/// differ; the result says whether it was rebuilt (and must be re-uploaded).
pub fn prepare(cache: &MaterialCache, materials: &mut MaterialGPUStorage) -> (rebuilt: bool)
    ensures
        rebuilt == (old(materials).buffer@.len() != cache.entries().len()),
        !rebuilt ==> final(materials).buffer@ == old(materials).buffer@,
        final(materials).buffer@.len() == cache.entries().len(),
        rebuilt ==> forall|i: int|
            0 <= i < cache.entries().len() ==> #[trigger] final(materials).buffer@[i]
                == material_record(cache.entries()[i].1),
{
    let count = cache.len();
    if materials.buffer.len() == count {
        return false;
    }
    materials.buffer.clear();
    let mut i: usize = 0;
    while i < count
        invariant
            count == cache.entries().len(),
            i <= count,
            materials.buffer@.len() == i,
            forall|j: int|
                0 <= j < i ==> #[trigger] materials.buffer@[j] == material_record(
                    cache.entries()[j].1,
                ),
        decreases count - i,
    {
        match map_get_index(&cache.materials, i) {
            Some(m) => {
                materials.buffer.push(MaterialGPU::from_material(m));
            },
            None => vstd::pervasive::unreached(),
        }
        i = i + 1;
    }
    true
}

/// Slot of the material buffer: read-only to the kernels.
pub fn describe(binding: u32) -> (r: LayoutEntry)
    ensures
        r == (LayoutEntry { binding, access: Access::ReadOnly, kind: ResourceKind::StorageBuffer }),
{
    LayoutEntry::new(binding, Access::ReadOnly, ResourceKind::StorageBuffer)
}

} // verus!
