use vstd::prelude::*;

use crate::layout::{Access, LayoutEntry, LayoutGroup, ResourceKind};

verus! {

/// The device resources that kernels bind.
#[derive(Clone, Copy, Debug, PartialEq, Eq, Structural)]
pub enum Resource {
    CameraUniform,
    Globals,
    Rays,
    Intersections,
    Objects,
    Materials,
    OutputImage,
}

impl Resource {
    /// How the resource is created: the access it allows and its kind.
    pub open spec fn spec_access(self) -> Access {
        match self {
            Resource::CameraUniform => Access::ReadOnly,
            Resource::Objects => Access::ReadOnly,
            Resource::Materials => Access::ReadOnly,
            _ => Access::ReadWrite,
        }
    }

    pub open spec fn spec_kind(self) -> ResourceKind {
        match self {
            Resource::CameraUniform => ResourceKind::UniformBuffer,
            Resource::OutputImage => ResourceKind::StorageImage,
            _ => ResourceKind::StorageBuffer,
        }
    }

    /// The access the resource is bound with.
    pub fn access(&self) -> (r: Access)
        ensures
            r == self.spec_access(),
    {
        match self {
            Resource::CameraUniform => Access::ReadOnly,
            Resource::Objects => Access::ReadOnly,
            Resource::Materials => Access::ReadOnly,
            _ => Access::ReadWrite,
        }
    }

    /// The kind of the resource.
    pub fn kind(&self) -> (r: ResourceKind)
        ensures
            r == self.spec_kind(),
    {
        match self {
            Resource::CameraUniform => ResourceKind::UniformBuffer,
            Resource::OutputImage => ResourceKind::StorageImage,
            _ => ResourceKind::StorageBuffer,
        }
    }
}

/// A resource supplied for one slot of a bind group.
#[derive(Clone, Copy, Debug, PartialEq, Eq, Structural)]
pub struct BindGroupEntry {
    pub binding: u32,
    pub resource: Resource,
}

/// Why a bind group does not fit its layout; each names the layout slot.
#[derive(Clone, Copy, Debug, PartialEq, Eq, Structural)]
pub enum BindError {
    /// No resource was supplied for the slot.
    MissingSlot(u32),
    /// The resource supplied does not allow the slot's access mode.
    AccessMismatch(u32),
    /// The resource supplied is not of the slot's kind.
    KindMismatch(u32),
}

/// The resource bound at slot `b`: the first entry for that slot, if any.
pub open spec fn supplied(entries: Seq<BindGroupEntry>, b: u32) -> Option<Resource>
    decreases entries.len(),
{
    if entries.len() == 0 {
        None
    } else if entries[0].binding == b {
        Some(entries[0].resource)
    } else {
        supplied(entries.drop_first(), b)
    }
}

/// What is wrong with how `entries` fill the layout slot `slot`, if anything.
pub open spec fn slot_error(slot: LayoutEntry, entries: Seq<BindGroupEntry>) -> Option<BindError> {
    match supplied(entries, slot.binding) {
        None => Some(BindError::MissingSlot(slot.binding)),
        Some(res) => if res.spec_access() != slot.access {
            Some(BindError::AccessMismatch(slot.binding))
        } else if res.spec_kind() != slot.kind {
            Some(BindError::KindMismatch(slot.binding))
        } else {
            None
        },
    }
}

/// Every slot of the layout is supplied with a resource of its access and kind.
pub open spec fn fits_layout(layout: Seq<LayoutEntry>, entries: Seq<BindGroupEntry>) -> bool {
    forall|i: int| 0 <= i < layout.len() ==> slot_error(#[trigger] layout[i], entries) is None
}

/// Finds the resource bound at slot `b`.
fn find_supplied(entries: &Vec<BindGroupEntry>, b: u32) -> (r: Option<Resource>)
    ensures
        r == supplied(entries@, b),
{
    let mut i: usize = 0;
    assert(entries@.subrange(0, entries@.len() as int) =~= entries@);
    while i < entries.len()
        invariant
            i <= entries@.len(),
            supplied(entries@, b) == supplied(entries@.subrange(i as int, entries@.len() as int), b),
        decreases entries@.len() - i,
    {
        let ghost rest = entries@.subrange(i as int, entries@.len() as int);
        assert(rest[0] == entries@[i as int]);
        if entries[i].binding == b {
            return Some(entries[i].resource);
        }
        assert(rest.drop_first() =~= entries@.subrange(i as int + 1, entries@.len() as int));
        i = i + 1;
    }
    assert(entries@.subrange(i as int, entries@.len() as int).len() == 0);
    None
}

/// Checks a bind group against its layout, slot by slot in layout order. Ok when
/// every slot is supplied with a resource of its access and kind; otherwise the
/// error of the first slot that is not.
pub fn check_bind_group(layout: &Vec<LayoutEntry>, entries: &Vec<BindGroupEntry>) -> (r: Result<
    (),
    BindError,
>)
    ensures
        r is Ok <==> fits_layout(layout@, entries@),
        r matches Err(e) ==> exists|k: int|
            0 <= k < layout@.len() && slot_error(#[trigger] layout@[k], entries@) == Some(e) && (
            forall|j: int| 0 <= j < k ==> slot_error(#[trigger] layout@[j], entries@) is None),
{
    let mut i: usize = 0;
    while i < layout.len()
        invariant
            i <= layout@.len(),
            forall|j: int| 0 <= j < i ==> slot_error(#[trigger] layout@[j], entries@) is None,
        decreases layout@.len() - i,
    {
        let slot = layout[i];
        let err = match find_supplied(entries, slot.binding) {
            None => Some(BindError::MissingSlot(slot.binding)),
            Some(res) => {
                if res.access() != slot.access {
                    Some(BindError::AccessMismatch(slot.binding))
                } else if res.kind() != slot.kind {
                    Some(BindError::KindMismatch(slot.binding))
                } else {
                    None
                }
            },
        };
        assert(err == slot_error(layout@[i as int], entries@));
        match err {
            Some(e) => {
                return Err(e);
            },
            None => {},
        }
        i = i + 1;
    }
    Ok(())
}

/// The resources each bind group supplies, slot by slot.
pub open spec fn group_resources(group: LayoutGroup) -> Seq<BindGroupEntry> {
    match group {
        LayoutGroup::CameraGlobals => seq![
            BindGroupEntry { binding: 0, resource: Resource::CameraUniform },
            BindGroupEntry { binding: 1, resource: Resource::Globals },
        ],
        LayoutGroup::RaysIntersections => seq![
            BindGroupEntry { binding: 0, resource: Resource::Rays },
            BindGroupEntry { binding: 1, resource: Resource::Intersections },
        ],
        LayoutGroup::ObjectsMaterials => seq![
            BindGroupEntry { binding: 0, resource: Resource::Objects },
            BindGroupEntry { binding: 1, resource: Resource::Materials },
        ],
        LayoutGroup::Output => seq![BindGroupEntry { binding: 0, resource: Resource::OutputImage }],
    }
}

/// The resources to bind when building the bind group of `group`.
pub fn group_entries(group: LayoutGroup) -> (r: Vec<BindGroupEntry>)
    ensures
        r@ == group_resources(group),
{
    let r = match group {
        LayoutGroup::CameraGlobals => vec![
            BindGroupEntry { binding: 0, resource: Resource::CameraUniform },
            BindGroupEntry { binding: 1, resource: Resource::Globals },
        ],
        LayoutGroup::RaysIntersections => vec![
            BindGroupEntry { binding: 0, resource: Resource::Rays },
            BindGroupEntry { binding: 1, resource: Resource::Intersections },
        ],
        LayoutGroup::ObjectsMaterials => vec![
            BindGroupEntry { binding: 0, resource: Resource::Objects },
            BindGroupEntry { binding: 1, resource: Resource::Materials },
        ],
        LayoutGroup::Output => vec![BindGroupEntry { binding: 0, resource: Resource::OutputImage }],
    };
    assert(r@ =~= group_resources(group));
    r
}

/// The bind group built for each layout supplies every slot that the layout
/// declares, with the declared access and kind.
pub proof fn lemma_groups_fit_layouts(group: LayoutGroup)
    ensures
        fits_layout(group.spec_entries(), group_resources(group)),
{
    let e = group_resources(group);
    let l = group.spec_entries();
    reveal_with_fuel(supplied, 3);
    if e.len() == 2 {
        assert(e.drop_first().drop_first() =~= Seq::<BindGroupEntry>::empty());
        assert(e.drop_first()[0] == e[1]);
        assert(slot_error(l[0], e) is None);
        assert(slot_error(l[1], e) is None);
    } else {
        assert(slot_error(l[0], e) is None);
    }
}

} // verus!
