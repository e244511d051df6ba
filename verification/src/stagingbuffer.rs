use vstd::prelude::*;

verus! {

/// Size in bytes of a staging buffer holding all of `content`: the number of
/// elements times the size of the first one. The content must not be empty.
pub fn staging_bytes_count<T>(content: &Vec<T>) -> (n: usize)
    requires
        content@.len() > 0,
        content@.len() * vstd::layout::size_of::<T>() <= usize::MAX,
    ensures
        n == content@.len() * vstd::layout::size_of::<T>(),
{
    content.len() * std::mem::size_of::<T>()
}

} // verus!
