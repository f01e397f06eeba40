use vstd::prelude::*;
use crate::geometry::vertex::Vertex;

verus! {

/// Half of `s`, rounded toward zero: the value of the Rust expression
/// `s / 2` on a signed integer.
pub open spec fn half_toward_zero(s: int) -> int {
    if s >= 0 {
        s / 2
    } else {
        -((-s) / 2)
    }
}

/// An axis-aligned rectangle, the atomic drawable unit: described by its
/// center `position` and its full extent `size`, in the library's signed
/// integer coordinate unit. A zero or negative size is permitted and yields
/// a degenerate but well-formed quad. Immutable once constructed.
#[derive(Debug, Clone, Copy, PartialEq, Eq)]
pub struct Quad {
    pub position: (i32, i32),
    pub size: (i32, i32),
}

impl Quad {
    pub fn new(position: (i32, i32), size: (i32, i32)) -> (q: Quad)
        ensures
            q.position == position,
            q.size == size,
    {
        Quad { position, size }
    }

    /// Least x coordinate covered by the quad.
    pub open spec fn min_x(self) -> int {
        self.position.0 - half_toward_zero(self.size.0 as int)
    }

    /// Least y coordinate covered by the quad.
    pub open spec fn min_y(self) -> int {
        self.position.1 - half_toward_zero(self.size.1 as int)
    }

    /// Greatest x coordinate covered by the quad.
    pub open spec fn max_x(self) -> int {
        self.position.0 + half_toward_zero(self.size.0 as int)
    }

    /// Greatest y coordinate covered by the quad.
    pub open spec fn max_y(self) -> int {
        self.position.1 + half_toward_zero(self.size.1 as int)
    }

    /// All four corner coordinates fit in the machine's signed 32-bit range.
    pub open spec fn corners_in_range(self) -> bool {
        &&& i32::MIN <= self.min_x() <= i32::MAX
        &&& i32::MIN <= self.min_y() <= i32::MAX
        &&& i32::MIN <= self.max_x() <= i32::MAX
        &&& i32::MIN <= self.max_y() <= i32::MAX
    }

    /// The four corner vertices in emission order: bottom-left, bottom-right,
    /// top-right, top-left.
    pub open spec fn corner_vertices(self) -> Seq<Vertex> {
        seq![
            Vertex { position: (self.min_x() as i32, self.min_y() as i32) },
            Vertex { position: (self.max_x() as i32, self.min_y() as i32) },
            Vertex { position: (self.max_x() as i32, self.max_y() as i32) },
            Vertex { position: (self.min_x() as i32, self.max_y() as i32) },
        ]
    }
}

} // verus!
