use vstd::prelude::*;
use vstd::bytes::{spec_u32_to_le_bytes, u32_to_le_bytes};

pub mod quad;
pub mod vertex;

use crate::device::{CommandEncoder, CommandView, DeviceBuffer};
use crate::geometry::quad::Quad;
use crate::geometry::vertex::{Vertex, U32_SIZE, VERTEX_SIZE};

verus! {

/// The most quads one batch can hold: beyond it, the index values and the
/// index count would no longer fit in an unsigned 32-bit integer.
pub const MAX_QUADS: u32 = (u32::MAX - 3) / 6;

/// The six indices that draw quad `i` (0-indexed): two counter-clockwise
/// triangles over its four corners, offset past the corners of every
/// earlier quad.
pub open spec fn quad_index_block(i: int) -> Seq<u32> {
    seq![
        (4 * i) as u32,
        (4 * i + 1) as u32,
        (4 * i + 2) as u32,
        (4 * i) as u32,
        (4 * i + 2) as u32,
        (4 * i + 3) as u32,
    ]
}

/// The whole index sequence for `n` accumulated quads.
pub open spec fn quad_indices(n: int) -> Seq<u32>
    decreases n,
{
    if n <= 0 {
        Seq::empty()
    } else {
        quad_indices(n - 1) + quad_index_block(n - 1)
    }
}

/// The concatenated corner vertices of a quad sequence.
pub open spec fn quads_vertices(qs: Seq<Quad>) -> Seq<Vertex>
    decreases qs.len(),
{
    if qs.len() == 0 {
        Seq::empty()
    } else {
        quads_vertices(qs.drop_last()) + qs.last().corner_vertices()
    }
}

/// The bytes of a vertex sequence in a device buffer: each vertex's layout,
/// in order.
pub open spec fn vertices_le_bytes(vs: Seq<Vertex>) -> Seq<u8>
    decreases vs.len(),
{
    if vs.len() == 0 {
        Seq::empty()
    } else {
        vertices_le_bytes(vs.drop_last()) + vs.last().le_bytes()
    }
}

/// The bytes of an index sequence in a device buffer: each index as a
/// little-endian 32-bit word, in order.
pub open spec fn indices_le_bytes(xs: Seq<u32>) -> Seq<u8>
    decreases xs.len(),
{
    if xs.len() == 0 {
        Seq::empty()
    } else {
        indices_le_bytes(xs.drop_last()) + spec_u32_to_le_bytes(xs.last())
    }
}

pub proof fn lemma_quad_indices_len(n: int)
    requires
        n >= 0,
    ensures
        quad_indices(n).len() == 6 * n,
    decreases n,
{
    if n > 0 {
        lemma_quad_indices_len(n - 1);
    }
}

pub proof fn lemma_quad_indices_bounds(n: int)
    requires
        0 <= n <= MAX_QUADS,
    ensures
        forall|k: int|
            0 <= k < quad_indices(n).len() ==> (#[trigger] quad_indices(n)[k]) < 4 * n,
        n > 0 ==> quad_indices(n).last() == 4 * n - 1,
    decreases n,
{
    if n > 0 {
        lemma_quad_indices_bounds(n - 1);
        lemma_quad_indices_len(n - 1);
        lemma_quad_indices_len(n);
        assert forall|k: int| 0 <= k < quad_indices(n).len() implies (#[trigger] quad_indices(
            n,
        )[k]) < 4 * n by {
            if k >= 6 * (n - 1) {
                assert(quad_indices(n)[k] == quad_index_block(n - 1)[k - 6 * (n - 1)]);
            } else {
                assert(quad_indices(n)[k] == quad_indices(n - 1)[k]);
            }
        }
        assert(quad_indices(n).last() == quad_index_block(n - 1)[5]);
    }
}

/// The index sequence of `n` quads extends that of any smaller accumulation:
/// quad `i`'s six indices are the same whatever was pushed after it.
pub proof fn lemma_quad_indices_block(n: int, i: int)
    requires
        0 <= i < n,
    ensures
        quad_indices(n).subrange(6 * i, 6 * i + 6) == quad_index_block(i),
    decreases n,
{
    lemma_quad_indices_len(n);
    lemma_quad_indices_len(n - 1);
    if i == n - 1 {
        assert(quad_indices(n).subrange(6 * i, 6 * i + 6) =~= quad_index_block(i));
    } else {
        lemma_quad_indices_block(n - 1, i);
        assert(quad_indices(n).subrange(6 * i, 6 * i + 6) =~= quad_indices(n - 1).subrange(
            6 * i,
            6 * i + 6,
        ));
    }
}

pub proof fn lemma_vertices_le_bytes_len(vs: Seq<Vertex>)
    ensures
        vertices_le_bytes(vs).len() == VERTEX_SIZE * vs.len(),
    decreases vs.len(),
{
    if vs.len() > 0 {
        lemma_vertices_le_bytes_len(vs.drop_last());
        crate::geometry::vertex::lemma_vertex_le_bytes_len(vs.last());
    }
}

pub proof fn lemma_indices_le_bytes_len(xs: Seq<u32>)
    ensures
        indices_le_bytes(xs).len() == U32_SIZE * xs.len(),
    decreases xs.len(),
{
    vstd::bytes::lemma_auto_spec_u32_to_from_le_bytes();
    if xs.len() > 0 {
        lemma_indices_le_bytes_len(xs.drop_last());
    }
}

/// Accumulates quads into a flat vertex array and a triangulated index
/// array. Rebuilt (or `reset`) for every frame: stale data from one frame
/// never leaks into the next.
#[derive(Debug)]
pub struct Geometry {
    pub vertex_data: Vec<Vertex>,
    pub index_data: Vec<u32>,
    pub num_quads: u32,
}

impl Geometry {
    /// The accumulator's invariant: four vertices and six indices per quad,
    /// and the index array is exactly the fixed triangulation pattern.
    pub open spec fn wf(&self) -> bool {
        &&& self.num_quads <= MAX_QUADS
        &&& self.vertex_data@.len() == 4 * self.num_quads
        &&& self.index_data@.len() == 6 * self.num_quads
        &&& self.index_data@ == quad_indices(self.num_quads as int)
    }

    /// Holds exactly when no quad has been accumulated since construction or
    /// the last `reset`.
    pub open spec fn is_fresh(&self) -> bool {
        &&& self.vertex_data@ == Seq::<Vertex>::empty()
        &&& self.index_data@ == Seq::<u32>::empty()
        &&& self.num_quads == 0
    }

    pub fn new() -> (g: Geometry)
        ensures
            g.wf(),
            g.is_fresh(),
    {
        let g = Geometry { vertex_data: Vec::new(), index_data: Vec::new(), num_quads: 0 };
        proof {
            assert(g.index_data@ =~= quad_indices(0));
        }
        g
    }

    /// Clears the accumulated data and the quad counter, leaving exactly the
    /// state of a newly constructed instance.
    pub fn reset(&mut self)
        ensures
            final(self).wf(),
            final(self).is_fresh(),
    {
        self.vertex_data = Vec::new();
        self.index_data = Vec::new();
        self.num_quads = 0;
        proof {
            assert(self.index_data@ =~= quad_indices(0));
        }
    }

    /// Appends the quad's four corner vertices and the six indices of its two
    /// triangles, and counts it. The quad itself is not validated: a zero or
    /// negative size yields a degenerate but well-formed quad.
    pub fn push_quad(&mut self, quad: &Quad)
        requires
            old(self).wf(),
            old(self).num_quads < MAX_QUADS,
            quad.corners_in_range(),
        ensures
            final(self).wf(),
            final(self).num_quads == old(self).num_quads + 1,
            final(self).vertex_data@ == old(self).vertex_data@ + quad.corner_vertices(),
            final(self).index_data@ == old(self).index_data@ + quad_index_block(
                old(self).num_quads as int,
            ),
    {
        let min_x = quad.position.0 - quad.size.0 / 2;
        let min_y = quad.position.1 - quad.size.1 / 2;
        let max_x = quad.position.0 + quad.size.0 / 2;
        let max_y = quad.position.1 + quad.size.1 / 2;
        proof {
            assert(min_x == quad.min_x());
            assert(min_y == quad.min_y());
            assert(max_x == quad.max_x());
            assert(max_y == quad.max_y());
        }

        self.vertex_data.push(Vertex { position: (min_x, min_y) });
        self.vertex_data.push(Vertex { position: (max_x, min_y) });
        self.vertex_data.push(Vertex { position: (max_x, max_y) });
        self.vertex_data.push(Vertex { position: (min_x, max_y) });

        let base = self.num_quads * 4;
        self.index_data.push(base);
        self.index_data.push(base + 1);
        self.index_data.push(base + 2);
        self.index_data.push(base);
        self.index_data.push(base + 2);
        self.index_data.push(base + 3);

        self.num_quads = self.num_quads + 1;

        proof {
            let n = old(self).num_quads as int;
            assert(self.vertex_data@ =~= old(self).vertex_data@ + quad.corner_vertices());
            assert(self.index_data@ =~= old(self).index_data@ + quad_index_block(n));
            assert(quad_indices(n + 1) == quad_indices(n) + quad_index_block(n));
            assert(self.index_data@ =~= quad_indices(self.num_quads as int));
        }
    }

    /// Emits the accumulated arrays as two staged transfer buffers (vertex
    /// bytes, index bytes) together with the index count. Allocation of the
    /// device-side destination is the caller's device layer's concern.
    pub fn build(&self) -> (r: (StagingBuffer, StagingBuffer, u32))
        requires
            self.wf(),
        ensures
            r.0.wf(),
            r.1.wf(),
            r.0.bytes@ == vertices_le_bytes(self.vertex_data@),
            r.1.bytes@ == indices_le_bytes(self.index_data@),
            r.2 == 6 * self.num_quads,
    {
        let stg_vertex = StagingBuffer::new(encode_vertices(&self.vertex_data));
        let stg_index = StagingBuffer::new(encode_indices(&self.index_data));
        let num_indices = self.index_data.len() as u32;
        (stg_vertex, stg_index, num_indices)
    }
}

/// Serializes vertices to their device-buffer byte layout.
pub fn encode_vertices(vs: &Vec<Vertex>) -> (r: Vec<u8>)
    ensures
        r@ == vertices_le_bytes(vs@),
{
    let mut out: Vec<u8> = Vec::new();
    let mut i: usize = 0;
    proof {
        assert(out@ =~= vertices_le_bytes(vs@.take(0)));
    }
    while i < vs.len()
        invariant
            i <= vs@.len(),
            out@ == vertices_le_bytes(vs@.take(i as int)),
        decreases vs@.len() - i,
    {
        let v = vs[i];
        let mut bx = u32_to_le_bytes(#[verifier::truncate] (v.position.0 as u32));
        out.append(&mut bx);
        let mut by = u32_to_le_bytes(#[verifier::truncate] (v.position.1 as u32));
        out.append(&mut by);
        proof {
            let s = vs@.take(i as int + 1);
            assert(s.drop_last() =~= vs@.take(i as int));
            assert(s.last() == vs@[i as int]);
            assert(out@ =~= vertices_le_bytes(s));
        }
        i = i + 1;
    }
    proof {
        assert(vs@.take(vs@.len() as int) =~= vs@);
    }
    out
}

/// Serializes indices to their device-buffer byte layout.
pub fn encode_indices(xs: &Vec<u32>) -> (r: Vec<u8>)
    ensures
        r@ == indices_le_bytes(xs@),
{
    let mut out: Vec<u8> = Vec::new();
    let mut i: usize = 0;
    proof {
        assert(out@ =~= indices_le_bytes(xs@.take(0)));
    }
    while i < xs.len()
        invariant
            i <= xs@.len(),
            out@ == indices_le_bytes(xs@.take(i as int)),
        decreases xs@.len() - i,
    {
        let mut b = u32_to_le_bytes(xs[i]);
        out.append(&mut b);
        proof {
            let s = xs@.take(i as int + 1);
            assert(s.drop_last() =~= xs@.take(i as int));
            assert(s.last() == xs@[i as int]);
            assert(out@ =~= indices_le_bytes(s));
        }
        i = i + 1;
    }
    proof {
        assert(xs@.take(xs@.len() as int) =~= xs@);
    }
    out
}

/// After any sequence of pushes that accumulated `n` quads: exactly `4 * n`
/// vertices and `6 * n` indices, and - once anything was pushed - every
/// index is below `4 * n`, with the greatest value, `4 * n - 1`, actually
/// occurring (it is the last index).
pub proof fn lemma_accumulation_counts(g: Geometry)
    requires
        g.wf(),
    ensures
        g.vertex_data@.len() == 4 * g.num_quads,
        g.index_data@.len() == 6 * g.num_quads,
        forall|k: int|
            0 <= k < g.index_data@.len() ==> (#[trigger] g.index_data@[k]) < 4 * g.num_quads,
        g.num_quads > 0 ==> g.index_data@.last() == 4 * g.num_quads - 1,
{
    lemma_quad_indices_bounds(g.num_quads as int);
}

/// The index pattern for quad `i` (0-indexed) is exactly
/// `{4i, 4i+1, 4i+2, 4i, 4i+2, 4i+3}`, whatever else was accumulated.
pub proof fn lemma_index_pattern(g: Geometry, i: int)
    requires
        g.wf(),
        0 <= i < g.num_quads,
    ensures
        g.index_data@.subrange(6 * i, 6 * i + 6) == quad_index_block(i),
        quad_index_block(i) == seq![
            (4 * i) as u32,
            (4 * i + 1) as u32,
            (4 * i + 2) as u32,
            (4 * i) as u32,
            (4 * i + 2) as u32,
            (4 * i + 3) as u32,
        ],
{
    lemma_quad_indices_block(g.num_quads as int, i);
}

/// Clearing after any number of pushes and constructing afresh yield one and
/// the same state: `is_fresh`, which both `reset` and `new` establish, pins
/// every piece of the accumulator's data.
pub proof fn lemma_fresh_states_agree(a: Geometry, b: Geometry)
    requires
        a.is_fresh(),
        b.is_fresh(),
    ensures
        a.vertex_data@ == b.vertex_data@,
        a.index_data@ == b.index_data@,
        a.num_quads == b.num_quads,
{
}

/// A host-visible transfer buffer: bytes staged for one device-side copy,
/// together with their exact byte length. Single-use: recording the copy
/// consumes it.
#[derive(Debug)]
pub struct StagingBuffer {
    pub bytes: Vec<u8>,
    pub size: u64,
}

impl StagingBuffer {
    /// The recorded length matches the staged bytes.
    pub open spec fn wf(&self) -> bool {
        self.size == self.bytes@.len()
    }

    /// Stages the given bytes and records their length.
    pub fn new(data: Vec<u8>) -> (s: StagingBuffer)
        ensures
            s.wf(),
            s.bytes@ == data@,
    {
        let size = data.len() as u64;
        StagingBuffer { bytes: data, size }
    }

    /// Records a device-side copy of all `size` staged bytes into `other`,
    /// both starting at offset zero. The copy runs only when the recorded
    /// list is submitted; the destination's capacity must already cover it.
    pub fn copy_to_buffer(self, encoder: &mut CommandEncoder, other: &DeviceBuffer)
        requires
            self.wf(),
            self.size <= other.capacity,
        ensures
            final(encoder)@ == old(encoder)@ + seq![
                (CommandView::CopyBuffer { dst: other.id, bytes: self.bytes@ }),
            ],
    {
        encoder.record(crate::device::Command::CopyBuffer { dst: other.id, bytes: self.bytes });
    }
}

} // verus!
