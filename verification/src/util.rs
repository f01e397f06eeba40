use vstd::prelude::*;

verus! {

/// Total byte size of a slice: the element size times the element count.
pub fn size_of_slice<T: Sized>(slice: &[T]) -> (r: usize)
    requires
        vstd::layout::size_of::<T>() * slice@.len() <= usize::MAX,
    ensures
        r == vstd::layout::size_of::<T>() * slice@.len(),
{
    core::mem::size_of::<T>() * slice.len()
}

} // verus!
