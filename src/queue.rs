use vstd::prelude::*;

use crate::render::Func;

verus! {

#[verifier::external_type_specification]
#[verifier::external_body]
#[verifier::reject_recursive_types(T)]
pub struct ExHeaplessVec<T, const N: usize>(heapless::Vec<T, N>);

/// The parameters held by a command's bounded vector, in order.
pub uninterp spec fn param_values(v: heapless::Vec<u32, 4>) -> Seq<u32>;

/// The commands held by the draw pipeline, oldest first.
pub uninterp spec fn queued(v: heapless::Vec<Func, 32>) -> Seq<Func>;

/// Relies on heapless::Vec::new: a new vector holds no items.
#[verifier::external_body]
pub(crate) fn params_new() -> (r: heapless::Vec<u32, 4>)
    ensures
        param_values(r) == Seq::<u32>::empty(),
{
    heapless::Vec::new()
}

/// Relies on heapless::Vec::push: the item is appended when fewer than 4 items are held,
/// and handed back otherwise.
#[verifier::external_body]
pub(crate) fn params_push(v: &mut heapless::Vec<u32, 4>, item: u32) -> (r: Result<(), u32>)
    ensures
        r == (if param_values(*old(v)).len() < 4 { Ok(()) } else { Err(item) }),
        param_values(*final(v)) == if param_values(*old(v)).len() < 4 {
            param_values(*old(v)).push(item)
        } else {
            param_values(*old(v))
        },
{
    v.push(item)
}

/// Relies on heapless::Vec's deref to the slice of its items: the slice's length is the
/// number of items, at most 4.
#[verifier::external_body]
pub(crate) fn params_len(v: &heapless::Vec<u32, 4>) -> (r: usize)
    ensures
        r == param_values(*v).len(),
        r <= 4,
{
    v.len()
}

/// Relies on heapless::Vec's deref to the slice of its items: indexing it gives the item at
/// that place.
#[verifier::external_body]
pub(crate) fn params_get(v: &heapless::Vec<u32, 4>, i: usize) -> (r: u32)
    requires
        i < param_values(*v).len(),
    ensures
        r == param_values(*v)[i as int],
{
    v[i]
}

/// Relies on heapless::Vec::new: a new vector holds no items.
#[verifier::external_body]
pub(crate) fn pipeline_new() -> (r: heapless::Vec<Func, 32>)
    ensures
        queued(r) == Seq::<Func>::empty(),
{
    heapless::Vec::new()
}

/// Relies on heapless::Vec::push: the item is appended when fewer than 32 items are held,
/// and handed back otherwise.
#[verifier::external_body]
pub(crate) fn pipeline_push(v: &mut heapless::Vec<Func, 32>, item: Func) -> (r: Result<(), Func>)
    ensures
        r == (if queued(*old(v)).len() < 32 { Ok(()) } else { Err(item) }),
        queued(*final(v)) == if queued(*old(v)).len() < 32 {
            queued(*old(v)).push(item)
        } else {
            queued(*old(v))
        },
{
    v.push(item)
}

/// Relies on heapless::Vec::pop: the last item is removed and returned, `None` when empty.
#[verifier::external_body]
pub(crate) fn pipeline_pop(v: &mut heapless::Vec<Func, 32>) -> (r: Option<Func>)
    ensures
        r == (if queued(*old(v)).len() == 0 { None } else { Some(queued(*old(v)).last()) }),
        queued(*final(v)) == if queued(*old(v)).len() == 0 {
            queued(*old(v))
        } else {
            queued(*old(v)).drop_last()
        },
{
    v.pop()
}

/// Relies on heapless::Vec's deref to the slice of its items: the slice's length is the
/// number of items, at most 32.
#[verifier::external_body]
pub(crate) fn pipeline_len(v: &heapless::Vec<Func, 32>) -> (r: usize)
    ensures
        r == queued(*v).len(),
        r <= 32,
{
    v.len()
}

/// Relies on heapless::Vec::capacity: it is the vector's fixed bound, 32 here.
#[verifier::external_body]
pub(crate) fn pipeline_capacity(v: &heapless::Vec<Func, 32>) -> (r: usize)
    ensures
        r == 32,
{
    v.capacity()
}

} // verus!
