//! Physical fuse coordinates.

use vstd::prelude::*;

verus! {

/// A (column, row) position of one fuse in the physical fuse array.
#[derive(Clone, Copy, PartialEq, Eq, Structural, Debug)]
pub struct Coordinate {
    pub x: usize,
    pub y: usize,
}

impl Coordinate {
    pub fn new(x: usize, y: usize) -> (r: Self)
        ensures
            r == (Coordinate { x, y }),
    {
        Coordinate { x, y }
    }

    /// Translate by an offset, adding both components.
    pub fn plus(self, offs: Coordinate) -> (r: Self)
        requires
            self.x + offs.x <= usize::MAX,
            self.y + offs.y <= usize::MAX,
        ensures
            r == self.spec_plus(offs),
    {
        Coordinate { x: self.x + offs.x, y: self.y + offs.y }
    }

    pub open spec fn spec_plus(self, offs: Coordinate) -> Coordinate {
        Coordinate { x: (self.x + offs.x) as usize, y: (self.y + offs.y) as usize }
    }

    /// Mirror about this column: subtract the offset's column while still
    /// adding its row.  Used for the right half of a mirrored pair of
    /// function blocks.
    pub fn sub_x_add_y(self, offs: Coordinate) -> (r: Self)
        requires
            offs.x <= self.x,
            self.y + offs.y <= usize::MAX,
        ensures
            r == self.spec_sub_x_add_y(offs),
    {
        Coordinate { x: self.x - offs.x, y: self.y + offs.y }
    }

    pub open spec fn spec_sub_x_add_y(self, offs: Coordinate) -> Coordinate {
        Coordinate { x: (self.x - offs.x) as usize, y: (self.y + offs.y) as usize }
    }
}

} // verus!
