use vstd::prelude::*;

verus! {

/// Bound value standing for "no bound at all" on a text's layout box.
pub const UNBOUNDED: i32 = i32::MAX;

/// Default pixel size of a rendered text.
pub const DEFAULT_TEXT_SIZE: u32 = 16;

/// One piece of text to draw: where it goes, how it is boxed and colored,
/// and how the engine should treat it this frame.
#[derive(Debug)]
pub struct RenderText {
    pub position: (i32, i32),
    pub bounds: (i32, i32),
    pub color: (u8, u8, u8, u8),
    pub text: String,
    pub size: u32,
    pub visible: bool,
    pub focused: bool,
    pub centered: bool,
}

impl Default for RenderText {
    /// An empty, invisible text at the origin: unbounded layout box, opaque
    /// white color, default size.
    fn default() -> (r: RenderText)
        ensures
            r.position == (0i32, 0i32),
            r.bounds == (UNBOUNDED, UNBOUNDED),
            r.color == (255u8, 255u8, 255u8, 255u8),
            r.text@ == Seq::<char>::empty(),
            r.size == DEFAULT_TEXT_SIZE,
            !r.visible,
            !r.focused,
            !r.centered,
    {
        RenderText {
            position: (0, 0),
            bounds: (UNBOUNDED, UNBOUNDED),
            color: (255, 255, 255, 255),
            text: String::new(),
            size: DEFAULT_TEXT_SIZE,
            visible: false,
            focused: false,
            centered: false,
        }
    }
}

/// Collects the texts to draw this frame, in submission order.
#[derive(Debug)]
pub struct TextRenderer {
    pub render_texts: Vec<RenderText>,
}

impl TextRenderer {
    pub fn new() -> (t: TextRenderer)
        ensures
            t.render_texts@ == Seq::<RenderText>::empty(),
    {
        let t = TextRenderer { render_texts: Vec::new() };
        proof {
            assert(t.render_texts@ =~= Seq::<RenderText>::empty());
        }
        t
    }

    /// Drops every collected text, ready for the next frame.
    pub fn reset(&mut self)
        ensures
            final(self).render_texts@ == Seq::<RenderText>::empty(),
    {
        self.render_texts.clear();
    }

    /// Appends one text to draw after those already collected.
    pub fn push_render_text(&mut self, text: RenderText)
        ensures
            final(self).render_texts@ == old(self).render_texts@.push(text),
    {
        self.render_texts.push(text);
    }
}

} // verus!
