use quadbatch::device::Command;
use quadbatch::geometry::quad::Quad;
use quadbatch::renderer::render_geometry;
use quadbatch::renderer::{
    FrameOutput, RenderGeometry, Renderer, SurfaceStatus, INDEX_BUFFER_ID, VERTEX_BUFFER_ID,
};

#[test]
fn new_renderer_starts_with_initial_capacity() {
    let r = Renderer::new(640, 480);
    assert_eq!(r.width, 640);
    assert_eq!(r.height, 480);
    assert!(r.quads.is_empty());
    // Room for three quads: 8 bytes per vertex, 4 bytes per index.
    assert_eq!(r.vertex_buffer.capacity, 8 * 4 * 3);
    assert_eq!(r.index_buffer.capacity, 4 * 6 * 3);
    assert_eq!(r.vertex_buffer.id, VERTEX_BUFFER_ID);
    assert_eq!(r.index_buffer.id, INDEX_BUFFER_ID);
}

#[test]
fn set_quads_reallocates_to_exact_capacity() {
    // Growing the scene from 2 quads to 5 leaves buffers sized for 5, not 2.
    let mut r = Renderer::new(640, 480);
    r.set_quads(vec![Quad::new((0, 0), (2, 2)); 2]);
    assert_eq!(r.vertex_buffer.capacity, 8 * 4 * 2);
    assert_eq!(r.index_buffer.capacity, 4 * 6 * 2);
    r.set_quads(vec![Quad::new((0, 0), (2, 2)); 5]);
    assert_eq!(r.vertex_buffer.capacity, 8 * 4 * 5);
    assert_eq!(r.index_buffer.capacity, 4 * 6 * 5);
    assert_eq!(r.quads.len(), 5);
}

#[test]
fn set_quads_through_trait() {
    fn replace<T: RenderGeometry>(target: &mut T, quads: Vec<Quad>) {
        target.set_quads(quads);
    }
    let mut r = Renderer::new(100, 100);
    replace(&mut r, vec![Quad::new((1, 1), (2, 2))]);
    assert_eq!(r.quads.len(), 1);
    assert_eq!(r.vertex_buffer.capacity, 8 * 4);
}

#[test]
fn resize_uses_dimensions_verbatim() {
    let mut r = Renderer::new(640, 480);
    r.resize(0, 0);
    assert_eq!((r.width, r.height), (0, 0));
    r.resize(u32::MAX, u32::MAX);
    assert_eq!((r.width, r.height), (u32::MAX, u32::MAX));
    // The quad list and buffer capacities are untouched by a resize.
    assert_eq!(r.vertex_buffer.capacity, 8 * 4 * 3);
    assert_eq!(r.index_buffer.capacity, 4 * 6 * 3);
}

#[test]
fn render_with_zero_quads_records_no_draw() {
    let r = Renderer::new(640, 480);
    match r.render(SurfaceStatus::Ready) {
        FrameOutput::Submit(encoder) => {
            assert_eq!(encoder.commands.len(), 2);
            for cmd in &encoder.commands {
                assert!(!matches!(cmd, Command::DrawIndexed { .. }));
            }
        }
        other => panic!("expected a submission, got {:?}", other),
    }
}

#[test]
fn render_records_uploads_then_draw() {
    let mut r = Renderer::new(640, 480);
    r.set_quads(vec![Quad::new((10, 10), (4, 6))]);
    match r.render(SurfaceStatus::Ready) {
        FrameOutput::Submit(encoder) => {
            assert_eq!(encoder.commands.len(), 3);
            match &encoder.commands[0] {
                Command::CopyBuffer { dst, bytes } => {
                    assert_eq!(*dst, VERTEX_BUFFER_ID);
                    assert_eq!(
                        bytes,
                        &vec![
                            8, 0, 0, 0, 7, 0, 0, 0, //
                            12, 0, 0, 0, 7, 0, 0, 0, //
                            12, 0, 0, 0, 13, 0, 0, 0, //
                            8, 0, 0, 0, 13, 0, 0, 0,
                        ]
                    );
                }
                other => panic!("expected the vertex upload, got {:?}", other),
            }
            match &encoder.commands[1] {
                Command::CopyBuffer { dst, bytes } => {
                    assert_eq!(*dst, INDEX_BUFFER_ID);
                    assert_eq!(
                        bytes,
                        &vec![
                            0, 0, 0, 0, 1, 0, 0, 0, 2, 0, 0, 0, //
                            0, 0, 0, 0, 2, 0, 0, 0, 3, 0, 0, 0,
                        ]
                    );
                }
                other => panic!("expected the index upload, got {:?}", other),
            }
            match &encoder.commands[2] {
                Command::DrawIndexed { num_indices } => assert_eq!(*num_indices, 6),
                other => panic!("expected the draw, got {:?}", other),
            }
        }
        other => panic!("expected a submission, got {:?}", other),
    }
}

#[test]
fn outdated_surface_reconfigures_with_current_dimensions() {
    let mut r = Renderer::new(640, 480);
    r.resize(31, 17);
    match r.render(SurfaceStatus::Outdated) {
        FrameOutput::Reconfigure { width, height } => {
            assert_eq!((width, height), (31, 17));
        }
        other => panic!("expected a reconfiguration, got {:?}", other),
    }
}

#[test]
fn failed_acquisition_skips_the_frame() {
    let r = Renderer::new(640, 480);
    assert!(matches!(r.render(SurfaceStatus::Failed), FrameOutput::Skipped));
}

#[test]
fn render_geometry_holder_replaces_quads() {
    let mut holder = render_geometry::RenderGeometry::new();
    assert!(holder.quads.is_empty());
    holder.set_quads(vec![Quad::new((1, 2), (3, 4)), Quad::new((5, 6), (7, 8))]);
    assert_eq!(holder.quads.len(), 2);
    assert_eq!(holder.quads[0], Quad::new((1, 2), (3, 4)));
}
