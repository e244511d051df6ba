use vstd::prelude::*;

verus! {

broadcast use vstd::layout::layout_of_primitives;

/// Size in bytes of a vertex buffer holding all of `content`: the number of
/// vertices times the size of one vertex.
pub fn vertex_bytes_count<T>(content: &Vec<T>) -> (n: usize)
    requires
        content@.len() * vstd::layout::size_of::<T>() <= usize::MAX,
    ensures
        n == content@.len() * vstd::layout::size_of::<T>(),
{
    content.len() * std::mem::size_of::<T>()
}

/// The index buffer of the mesh; the GPU objects behind it are owned by the
/// device for the renderer's lifetime.
pub struct MyIndexBuffer {}

impl MyIndexBuffer {
    /// Size in bytes of the buffer that holds `indices`: two bytes per index.
    /// The index list must not be empty (its first element gives the size of
    /// one index).
    pub fn number_of_bytes(indices: &Vec<u16>) -> (n: u64)
        requires
            indices@.len() > 0,
            indices@.len() * 2 <= usize::MAX,
        ensures
            n == indices@.len() * 2,
    {
        let bytes: usize = indices.len() * std::mem::size_of::<u16>();
        bytes as u64
    }
}

} // verus!
