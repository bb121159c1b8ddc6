use vstd::prelude::*;

verus! {

/// What `ensure_capacity` makes of a buffer's contents, and whether it reallocated:
/// a buffer that already holds `required` elements is left as it is; any other is
/// replaced by `required` copies of `fill`.
pub open spec fn capacity_step<T>(old: Seq<T>, required: nat, fill: T) -> (Seq<T>, bool) {
    if old.len() == required {
        (old, false)
    } else {
        (Seq::new(required, |i: int| fill), true)
    }
}

/// Gives a structured buffer exactly `required` elements. Reallocates (clears and
/// refills with `fill`) only when the element count differs; otherwise the buffer
/// and its contents are untouched, so no re-upload is needed. Returns whether it
/// reallocated, that is whether the device copy and the bind groups that use it
/// must be rebuilt.
pub fn ensure_capacity<T: Copy>(elements: &mut Vec<T>, required: usize, fill: T) -> (reallocated:
    bool)
    ensures
        (final(elements)@, reallocated) == capacity_step(old(elements)@, required as nat, fill),
        final(elements)@.len() == required,
{
    if elements.len() == required {
        return false;
    }
    elements.clear();
    let mut i: usize = 0;
    while i < required
        invariant
            i <= required,
            elements@ == Seq::new(i as nat, |j: int| fill),
        decreases required - i,
    {
        elements.push(fill);
        i = i + 1;
        assert(elements@ =~= Seq::new(i as nat, |j: int| fill));
    }
    true
}

/// Sizing a buffer twice to the same count: the first call leaves exactly that many
/// elements, and the second neither reallocates nor changes anything.
pub proof fn lemma_capacity_step_stable<T>(old: Seq<T>, required: nat, fill: T)
    ensures
        capacity_step(old, required, fill).0.len() == required,
        !capacity_step(capacity_step(old, required, fill).0, required, fill).1,
        capacity_step(capacity_step(old, required, fill).0, required, fill).0 == capacity_step(
            old,
            required,
            fill,
        ).0,
{
}

} // verus!
