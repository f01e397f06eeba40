//! A minimal 2D engine core: it batches axis-aligned quads into device-ready
//! vertex and index data, stages that data for upload, and keeps the
//! renderer's persistent device buffers correctly sized as the scene changes.
//!
//! The window system, the graphics device and the audio device are outside
//! collaborators: the library records what they must do (buffer copies, draw
//! calls, surface reconfiguration) as plain values, and the surrounding
//! program carries those out.

use vstd::prelude::*;

pub mod device;
pub mod geometry;
pub mod keyboard;
pub mod renderer;
pub mod util;

use crate::geometry::Geometry;
use crate::keyboard::KeyboardInput;
use crate::renderer::render_text::TextRenderer;

verus! {

/// The capability a game supplies to the engine: the event loop calls
/// `initialize` once, then `update` before every frame, hands every key
/// event to `process_keyboard`, and stops when `is_quitting` returns true.
pub trait Game {
    fn initialize(
        &mut self,
        geometry: &mut Geometry,
        text_renderer: &mut TextRenderer,
        window_size: (u32, u32),
    );

    fn update(&mut self, geometry: &mut Geometry, text_renderer: &mut TextRenderer);

    fn process_keyboard(&mut self, input: KeyboardInput);

    fn is_quitting(&self) -> bool;
}

} // verus!
