use vstd::prelude::*;

pub mod render_geometry;
pub mod render_text;

use crate::device::{CommandEncoder, CommandView, DeviceBuffer};
use crate::geometry::quad::Quad;
use crate::geometry::vertex::{U32_SIZE, VERTEX_SIZE};
use crate::geometry::{
    indices_le_bytes, lemma_indices_le_bytes_len, lemma_vertices_le_bytes_len, quad_indices,
    quads_vertices, vertices_le_bytes, Geometry, MAX_QUADS,
};

verus! {

/// Identity of the renderer's persistent vertex buffer in recorded commands.
pub const VERTEX_BUFFER_ID: u64 = 0;

/// Identity of the renderer's persistent index buffer in recorded commands.
pub const INDEX_BUFFER_ID: u64 = 1;

/// Quad capacity the persistent buffers start out with.
pub const INITIAL_QUAD_CAPACITY: u64 = 3;

/// Replacing the current quad set. The renderer recomputes its capacity and
/// reallocates its persistent buffers to the exact new size before the next
/// copy, so an under-sized buffer is never reused across a capacity change.
pub trait RenderGeometry {
    fn set_quads(&mut self, quads: Vec<Quad>)
        requires
            quads@.len() <= MAX_QUADS,
            forall|i: int| 0 <= i < quads@.len() ==> (#[trigger] quads@[i]).corners_in_range(),
    ;
}

/// Outcome of acquiring the output surface for one frame, as the caller's
/// window/device layer reports it.
#[derive(Debug)]
pub enum SurfaceStatus {
    /// A presentable image was acquired; the frame can be rendered.
    Ready,
    /// The surface no longer matches the window: reconfigure, skip the frame.
    Outdated,
    /// Any other acquisition failure: report it, skip the frame.
    Failed,
}

/// What the caller's device layer must do for one frame.
#[derive(Debug)]
pub enum FrameOutput {
    /// Submit the recorded commands and present the acquired image.
    Submit(CommandEncoder),
    /// Rebuild the surface configuration with exactly these dimensions, then
    /// discard the frame.
    Reconfigure { width: u32, height: u32 },
    /// Report the failure and discard the frame; the loop continues.
    Skipped,
}

/// The commands one rendered frame records: the full vertex and index
/// uploads, then a draw of all indices - the draw omitted entirely when
/// there is nothing to draw.
pub open spec fn frame_commands(qs: Seq<Quad>) -> Seq<CommandView> {
    let uploads = seq![
        (CommandView::CopyBuffer {
            dst: VERTEX_BUFFER_ID,
            bytes: vertices_le_bytes(quads_vertices(qs)),
        }),
        (CommandView::CopyBuffer {
            dst: INDEX_BUFFER_ID,
            bytes: indices_le_bytes(quad_indices(qs.len() as int)),
        }),
    ];
    if qs.len() == 0 {
        uploads
    } else {
        uploads + seq![(CommandView::DrawIndexed { num_indices: (6 * qs.len()) as u32 })]
    }
}

/// Whether a recorded command list contains any draw call.
pub open spec fn has_draw(cmds: Seq<CommandView>) -> bool {
    exists|k: int|
        0 <= k < cmds.len() && (#[trigger] cmds[k]) matches CommandView::DrawIndexed { .. }
}

/// Owns the current quad list and the models of the two persistent
/// device-resident buffers, keeps those buffers sized for exactly the
/// current quad capacity, and records each frame's uploads and draw.
#[derive(Debug)]
pub struct Renderer {
    pub quads: Vec<Quad>,
    pub vertex_buffer: DeviceBuffer,
    pub index_buffer: DeviceBuffer,
    pub width: u32,
    pub height: u32,
}

impl Renderer {
    /// The renderer's invariant: the persistent buffers carry their fixed
    /// identities and enough capacity for the current quad list, whose quads
    /// all fit the coordinate range.
    pub open spec fn wf(&self) -> bool {
        &&& self.quads@.len() <= MAX_QUADS
        &&& forall|i: int|
            0 <= i < self.quads@.len() ==> (#[trigger] self.quads@[i]).corners_in_range()
        &&& self.vertex_buffer.id == VERTEX_BUFFER_ID
        &&& self.index_buffer.id == INDEX_BUFFER_ID
        &&& self.vertex_buffer.capacity >= VERTEX_SIZE * 4 * self.quads@.len()
        &&& self.index_buffer.capacity >= U32_SIZE * 6 * self.quads@.len()
    }

    /// A fresh renderer for a surface of the given pixel dimensions: no
    /// quads yet, persistent buffers sized for the initial capacity.
    pub fn new(width: u32, height: u32) -> (r: Renderer)
        ensures
            r.wf(),
            r.quads@ == Seq::<Quad>::empty(),
            r.width == width,
            r.height == height,
            r.vertex_buffer.capacity == VERTEX_SIZE * 4 * INITIAL_QUAD_CAPACITY,
            r.index_buffer.capacity == U32_SIZE * 6 * INITIAL_QUAD_CAPACITY,
    {
        let vertex_buffer = DeviceBuffer::new(VERTEX_BUFFER_ID, VERTEX_SIZE * 4 * INITIAL_QUAD_CAPACITY);
        let index_buffer = DeviceBuffer::new(INDEX_BUFFER_ID, U32_SIZE * 6 * INITIAL_QUAD_CAPACITY);
        let r = Renderer { quads: Vec::new(), vertex_buffer, index_buffer, width, height };
        proof {
            assert(r.quads@ =~= Seq::<Quad>::empty());
        }
        r
    }

    /// Adopts the new surface dimensions verbatim; the quad list and the
    /// persistent buffers are untouched.
    pub fn resize(&mut self, width: u32, height: u32)
        ensures
            final(self).width == width,
            final(self).height == height,
            final(self).quads == old(self).quads,
            final(self).vertex_buffer == old(self).vertex_buffer,
            final(self).index_buffer == old(self).index_buffer,
            old(self).wf() ==> final(self).wf(),
    {
        self.width = width;
        self.height = height;
    }

    /// Replaces the quad list and reallocates both persistent buffers to the
    /// exact capacity of the new list.
    pub fn set_quads(&mut self, quads: Vec<Quad>)
        requires
            quads@.len() <= MAX_QUADS,
            forall|i: int| 0 <= i < quads@.len() ==> (#[trigger] quads@[i]).corners_in_range(),
        ensures
            final(self).wf(),
            final(self).quads@ == quads@,
            final(self).vertex_buffer.capacity == VERTEX_SIZE * 4 * quads@.len(),
            final(self).index_buffer.capacity == U32_SIZE * 6 * quads@.len(),
            final(self).width == old(self).width,
            final(self).height == old(self).height,
    {
        let n = quads.len() as u64;
        self.quads = quads;
        self.vertex_buffer = DeviceBuffer::new(VERTEX_BUFFER_ID, VERTEX_SIZE * 4 * n);
        self.index_buffer = DeviceBuffer::new(INDEX_BUFFER_ID, U32_SIZE * 6 * n);
    }

    /// One frame: rebuilds a fresh geometry from the current quad list,
    /// stages it, records the two uploads into the persistent buffers and -
    /// only when there is something to draw - the draw call; or, when no
    /// image was acquired, decides between reconfiguring and skipping.
    pub fn render(&self, status: SurfaceStatus) -> (out: FrameOutput)
        requires
            self.wf(),
        ensures
            (status matches SurfaceStatus::Ready ==> (out matches FrameOutput::Submit(enc)
                && enc@ == frame_commands(self.quads@))),
            (status matches SurfaceStatus::Outdated ==> out == (FrameOutput::Reconfigure {
                width: self.width,
                height: self.height,
            })),
            (status matches SurfaceStatus::Failed ==> out == FrameOutput::Skipped),
            (status matches SurfaceStatus::Ready && self.quads@.len() == 0 ==> (
            out matches FrameOutput::Submit(enc) && !has_draw(enc@))),
    {
        match status {
            SurfaceStatus::Outdated => FrameOutput::Reconfigure {
                width: self.width,
                height: self.height,
            },
            SurfaceStatus::Failed => FrameOutput::Skipped,
            SurfaceStatus::Ready => {
                let mut geometry = Geometry::new();
                let mut i: usize = 0;
                proof {
                    assert(geometry.vertex_data@ =~= quads_vertices(self.quads@.take(0)));
                }
                while i < self.quads.len()
                    invariant
                        i <= self.quads@.len(),
                        self.quads@.len() <= MAX_QUADS,
                        forall|j: int|
                            0 <= j < self.quads@.len() ==> (
                            #[trigger] self.quads@[j]).corners_in_range(),
                        geometry.wf(),
                        geometry.num_quads == i,
                        geometry.vertex_data@ == quads_vertices(self.quads@.take(i as int)),
                    decreases self.quads@.len() - i,
                {
                    geometry.push_quad(&self.quads[i]);
                    proof {
                        let s = self.quads@.take(i as int + 1);
                        assert(s.drop_last() =~= self.quads@.take(i as int));
                        assert(s.last() == self.quads@[i as int]);
                        assert(geometry.vertex_data@ =~= quads_vertices(s));
                    }
                    i = i + 1;
                }
                proof {
                    assert(self.quads@.take(self.quads@.len() as int) =~= self.quads@);
                }

                let (stg_vertex, stg_index, num_indices) = geometry.build();
                proof {
                    lemma_vertices_le_bytes_len(geometry.vertex_data@);
                    lemma_indices_le_bytes_len(geometry.index_data@);
                }
                let mut encoder = CommandEncoder::new();
                stg_vertex.copy_to_buffer(&mut encoder, &self.vertex_buffer);
                stg_index.copy_to_buffer(&mut encoder, &self.index_buffer);
                if num_indices != 0 {
                    encoder.record(crate::device::Command::DrawIndexed { num_indices });
                }
                proof {
                    assert(encoder@ =~= frame_commands(self.quads@));
                }
                FrameOutput::Submit(encoder)
            },
        }
    }
}

impl RenderGeometry for Renderer {
    fn set_quads(&mut self, quads: Vec<Quad>) {
        Renderer::set_quads(self, quads);
    }
}

} // verus!
