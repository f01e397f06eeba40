use vstd::prelude::*;
use crate::geometry::quad::Quad;

verus! {

/// The in-place variant of a quad source: a plain holder for the current
/// quad list, replaced wholesale each time the scene changes.
#[derive(Debug)]
pub struct RenderGeometry {
    pub quads: Vec<Quad>,
}

impl RenderGeometry {
    pub fn new() -> (r: RenderGeometry)
        ensures
            r.quads@ == Seq::<Quad>::empty(),
    {
        let r = RenderGeometry { quads: Vec::new() };
        proof {
            assert(r.quads@ =~= Seq::<Quad>::empty());
        }
        r
    }

    /// Replaces the held quad list.
    pub fn set_quads(&mut self, quads: Vec<Quad>)
        ensures
            final(self).quads@ == quads@,
    {
        self.quads = quads;
    }
}

} // verus!
