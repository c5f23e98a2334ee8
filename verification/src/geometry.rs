use vstd::prelude::*;

verus! {

/// Bound on the coordinate magnitudes the pipeline works with.  Offsets,
/// depths and relative coordinates stay within it, so that the sums the
/// pipeline forms (relative + inner + outer) always fit in an `i32`.
pub open spec fn coord_limit() -> int {
    0x1000_0000
}

/// Bound on the absolute coordinates a sink accepts: the sum of a relative
/// coordinate, an inner offset and an outer offset, each within
/// `coord_limit()`.
pub open spec fn abs_limit() -> int {
    3 * coord_limit()
}

/// A position on the character grid, measured in cells.  Positions may be
/// negative: a relative coordinate is interpreted against a context's
/// offsets, and clipping decides what is visible.
#[derive(Clone, Copy, PartialEq, Eq, Structural, Debug)]
pub struct Coord {
    pub x: i32,
    pub y: i32,
}

/// An extent in cells, never negative.
#[derive(Clone, Copy, PartialEq, Eq, Structural, Debug)]
pub struct Size {
    pub x: u32,
    pub y: u32,
}

/// Converting a coordinate with a negative component to a `Size` reports
/// this failure; it is an explicit error, distinct from the silent clipping
/// of out-of-window writes.
#[derive(Clone, Copy, PartialEq, Eq, Structural, Debug)]
pub struct NegativeExtent;

/// True when `c` lies inside the window `[0, size)` on both axes.
pub open spec fn is_valid_spec(c: Coord, size: Size) -> bool {
    &&& 0 <= c.x < size.x
    &&& 0 <= c.y < size.y
}

/// True when both components of `c` are within `coord_limit()`.
pub open spec fn coord_within(c: Coord, limit: int) -> bool {
    &&& -limit <= c.x <= limit
    &&& -limit <= c.y <= limit
}

impl Coord {
    pub fn new(x: i32, y: i32) -> (r: Coord)
        ensures
            r == (Coord { x, y }),
    {
        Coord { x, y }
    }

    /// Componentwise addition.
    pub fn add(self, other: Coord) -> (r: Coord)
        requires
            i32::MIN <= self.x + other.x <= i32::MAX,
            i32::MIN <= self.y + other.y <= i32::MAX,
        ensures
            r.x == self.x + other.x,
            r.y == self.y + other.y,
    {
        Coord { x: self.x + other.x, y: self.y + other.y }
    }

    /// Componentwise subtraction.
    pub fn sub(self, other: Coord) -> (r: Coord)
        requires
            i32::MIN <= self.x - other.x <= i32::MAX,
            i32::MIN <= self.y - other.y <= i32::MAX,
        ensures
            r.x == self.x - other.x,
            r.y == self.y - other.y,
    {
        Coord { x: self.x - other.x, y: self.y - other.y }
    }

    /// Componentwise minimum.
    pub fn min(self, other: Coord) -> (r: Coord)
        ensures
            r.x == if self.x <= other.x { self.x } else { other.x },
            r.y == if self.y <= other.y { self.y } else { other.y },
    {
        Coord {
            x: if self.x <= other.x { self.x } else { other.x },
            y: if self.y <= other.y { self.y } else { other.y },
        }
    }

    /// Componentwise maximum.
    pub fn max(self, other: Coord) -> (r: Coord)
        ensures
            r.x == if self.x >= other.x { self.x } else { other.x },
            r.y == if self.y >= other.y { self.y } else { other.y },
    {
        Coord {
            x: if self.x >= other.x { self.x } else { other.x },
            y: if self.y >= other.y { self.y } else { other.y },
        }
    }

    /// True iff the coordinate lies in `[0, size)` on both axes; writes at
    /// coordinates outside this window are clipped.
    pub fn is_valid(self, size: Size) -> (r: bool)
        ensures
            r == is_valid_spec(self, size),
    {
        self.x >= 0 && (self.x as u32) < size.x && self.y >= 0 && (self.y as u32) < size.y
    }

    /// Interpret the coordinate as an extent.  Fails iff either component is
    /// negative.
    pub fn to_size(self) -> (r: Result<Size, NegativeExtent>)
        ensures
            self.x >= 0 && self.y >= 0 ==> r == Ok::<Size, NegativeExtent>(
                Size { x: self.x as u32, y: self.y as u32 },
            ),
            self.x < 0 || self.y < 0 ==> r == Err::<Size, NegativeExtent>(NegativeExtent),
    {
        if self.x < 0 || self.y < 0 {
            Err(NegativeExtent)
        } else {
            Ok(Size { x: self.x as u32, y: self.y as u32 })
        }
    }
}

impl Size {
    pub fn new(x: u32, y: u32) -> (r: Size)
        ensures
            r == (Size { x, y }),
    {
        Size { x, y }
    }

    /// Componentwise addition.
    pub fn add(self, other: Size) -> (r: Size)
        requires
            self.x + other.x <= u32::MAX,
            self.y + other.y <= u32::MAX,
        ensures
            r.x == self.x + other.x,
            r.y == self.y + other.y,
    {
        Size { x: self.x + other.x, y: self.y + other.y }
    }

    /// Componentwise minimum.
    pub fn min(self, other: Size) -> (r: Size)
        ensures
            r.x == if self.x <= other.x { self.x } else { other.x },
            r.y == if self.y <= other.y { self.y } else { other.y },
    {
        Size {
            x: if self.x <= other.x { self.x } else { other.x },
            y: if self.y <= other.y { self.y } else { other.y },
        }
    }

    /// The position of the corner cell: interprets the extent as the
    /// coordinate just inside its far corner would have.
    pub fn to_coord(self) -> (r: Result<Coord, NegativeExtent>)
        ensures
            self.x <= i32::MAX && self.y <= i32::MAX ==> r == Ok::<Coord, NegativeExtent>(
                Coord { x: self.x as i32, y: self.y as i32 },
            ),
            self.x > i32::MAX || self.y > i32::MAX ==> r == Err::<Coord, NegativeExtent>(
                NegativeExtent,
            ),
    {
        if self.x > i32::MAX as u32 || self.y > i32::MAX as u32 {
            Err(NegativeExtent)
        } else {
            Ok(Coord { x: self.x as i32, y: self.y as i32 })
        }
    }
}

} // verus!
