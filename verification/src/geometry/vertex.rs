use vstd::prelude::*;
use vstd::bytes::spec_u32_to_le_bytes;

verus! {

/// Bytes a `u32` index occupies in a device buffer.
pub const U32_SIZE: u64 = 4;

/// Bytes one vertex occupies in a device buffer: two 32-bit coordinates.
pub const VERTEX_SIZE: u64 = 8;

/// A device-ready point: one corner of a quad, in the library's signed
/// integer coordinate unit.
#[derive(Debug, Clone, Copy, PartialEq, Eq)]
pub struct Vertex {
    pub position: (i32, i32),
}

impl Vertex {
    /// The exact bytes of this vertex in a device buffer: each coordinate as
    /// a little-endian two's-complement 32-bit word, x first, then y.
    pub open spec fn le_bytes(self) -> Seq<u8> {
        spec_u32_to_le_bytes(self.position.0 as u32) + spec_u32_to_le_bytes(self.position.1 as u32)
    }
}

/// The vertex byte layout is exactly `VERTEX_SIZE` bytes wide.
pub proof fn lemma_vertex_le_bytes_len(v: Vertex)
    ensures
        v.le_bytes().len() == VERTEX_SIZE,
{
    vstd::bytes::lemma_auto_spec_u32_to_from_le_bytes();
}

} // verus!
