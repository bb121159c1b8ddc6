use vstd::prelude::*;

use crate::layout::{Access, LayoutEntry, ResourceKind};

verus! {

/// The output layout: slot 0 is the accumulation image, read and written.
pub fn describe() -> (r: Vec<LayoutEntry>)
    ensures
        r@ == seq![LayoutEntry { binding: 0, access: Access::ReadWrite, kind: ResourceKind::StorageImage }],
{
    let r = vec![LayoutEntry::new(0, Access::ReadWrite, ResourceKind::StorageImage)];
    assert(r@ =~= seq![LayoutEntry { binding: 0, access: Access::ReadWrite, kind: ResourceKind::StorageImage }]);
    r
}

} // verus!
