use indexmap::IndexSet;
use vstd::prelude::*;

verus! {

/// `indexmap::IndexSet`, a hash set that keeps its values at positions
/// `0..len`. Nothing inside it is visible to the verifier.
#[verifier::external_type_specification]
#[verifier::external_body]
#[verifier::reject_recursive_types(T)]
#[verifier::reject_recursive_types(S)]
pub struct ExIndexSet<T, S>(IndexSet<T, S>);

/// The values of an index set, by position. The order depends on the
/// insertions and removals made so far and on nothing else.
pub uninterp spec fn members(set: IndexSet<usize>) -> Seq<usize>;

/// What is left of `items` once `value` has been taken out the way a swap
/// removal does it: the last item moves to the position of `value` and the
/// sequence gets shorter by one.
pub open spec fn swap_removed(items: Seq<usize>, value: usize) -> Seq<usize> {
    items.update(items.index_of(value), items.last()).drop_last()
}

/// `IndexSet::new`: a set without values.
#[verifier::external_body]
pub(crate) fn set_new() -> (set: IndexSet<usize>)
    ensures
        members(set) == Seq::<usize>::empty(),
{
    IndexSet::new()
}

/// `IndexSet::len`: the number of values held.
#[verifier::external_body]
pub(crate) fn set_len(set: &IndexSet<usize>) -> (len: usize)
    ensures
        len == members(*set).len(),
{
    set.len()
}

/// `IndexSet::get_index`: the value at `index`, for an `index` below the
/// length, and nothing beyond it.
#[verifier::external_body]
pub(crate) fn set_get_index(set: &IndexSet<usize>, index: usize) -> (value: Option<usize>)
    ensures
        value == if index < members(*set).len() {
            Some(members(*set)[index as int])
        } else {
            None::<usize>
        },
{
    set.get_index(index).copied()
}

/// `IndexSet::insert`: a value that the set lacks goes to the end and the call
/// answers `true`; for a value already held the set stays as it is, order
/// included, and the call answers `false`.
#[verifier::external_body]
pub(crate) fn set_insert(set: &mut IndexSet<usize>, value: usize) -> (added: bool)
    ensures
        added == !members(*old(set)).contains(value),
        members(*final(set)) == if added {
            members(*old(set)).push(value)
        } else {
            members(*old(set))
        },
{
    set.insert(value)
}

/// `IndexSet::swap_remove`: a value that the set holds is replaced by the last
/// one, which is popped off, and the call answers `true`; for a value not
/// held the set stays as it is and the call answers `false`.
#[verifier::external_body]
pub(crate) fn set_swap_remove(set: &mut IndexSet<usize>, value: usize) -> (removed: bool)
    ensures
        removed == members(*old(set)).contains(value),
        members(*final(set)) == if removed {
            swap_removed(members(*old(set)), value)
        } else {
            members(*old(set))
        },
{
    set.swap_remove(&value)
}

} // verus!
