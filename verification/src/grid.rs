//! Integer vectors on the tile grid.

use vstd::prelude::*;

verus! {

/// A tile position, or the difference of two of them.
#[derive(Clone, Copy, Debug, PartialEq, Eq, Hash, Structural)]
pub struct GridVec {
    pub x: i32,
    pub y: i32,
}

/// Whether an integer is a value of `i32`.
pub open spec fn in_i32(n: int) -> bool {
    i32::MIN <= n <= i32::MAX
}

pub open spec fn abs(n: int) -> int {
    if n < 0 {
        -n
    } else {
        n
    }
}

/// The sign of `n`: -1, 0 or 1.
pub open spec fn sign(n: int) -> int {
    if n < 0 {
        -1
    } else if n == 0 {
        0
    } else {
        1
    }
}

pub open spec fn larger(a: int, b: int) -> int {
    if a < b {
        b
    } else {
        a
    }
}

/// Number of king moves between two tiles, over the integers.
pub open spec fn king_distance(a: GridVec, b: GridVec) -> int {
    larger(abs(a.x - b.x), abs(a.y - b.y))
}

/// Squared Euclidean distance between two tiles, over the integers.
pub open spec fn square_distance(a: GridVec, b: GridVec) -> int {
    (a.x - b.x) * (a.x - b.x) + (a.y - b.y) * (a.y - b.y)
}

impl GridVec {
    /// The vector `(x, y)` where both components are values of `i32`.
    pub open spec fn at(x: int, y: int) -> GridVec {
        GridVec { x: x as i32, y: y as i32 }
    }

    /// Both components of `self + other` are values of `i32`.
    pub open spec fn sum_fits(self, other: GridVec) -> bool {
        in_i32(self.x + other.x) && in_i32(self.y + other.y)
    }

    /// Both components of `self - other` are values of `i32`.
    pub open spec fn difference_fits(self, other: GridVec) -> bool {
        in_i32(self.x - other.x) && in_i32(self.y - other.y)
    }

    pub open spec fn plus(self, other: GridVec) -> GridVec {
        GridVec::at(self.x + other.x, self.y + other.y)
    }

    pub open spec fn minus(self, other: GridVec) -> GridVec {
        GridVec::at(self.x - other.x, self.y - other.y)
    }

    pub open spec fn is_zero(self) -> bool {
        self.x == 0 && self.y == 0
    }

    /// One king move in the direction of the vector.
    pub open spec fn toward(self) -> GridVec {
        GridVec::at(sign(self.x as int), sign(self.y as int))
    }

    /// The vector stretched to twice its length.
    pub open spec fn doubled(self) -> GridVec {
        GridVec::at(2 * self.x, 2 * self.y)
    }

    pub fn new(x: i32, y: i32) -> (v: GridVec)
        ensures
            v == (GridVec { x, y }),
    {
        GridVec { x, y }
    }

    /// Whether `self + other` can be computed.
    pub fn can_add(self, other: GridVec) -> (b: bool)
        ensures
            b == self.sum_fits(other),
    {
        self.x.checked_add(other.x).is_some() && self.y.checked_add(other.y).is_some()
    }

    /// Whether `self - other` can be computed.
    pub fn can_sub(self, other: GridVec) -> (b: bool)
        ensures
            b == self.difference_fits(other),
    {
        self.x.checked_sub(other.x).is_some() && self.y.checked_sub(other.y).is_some()
    }

    /// Whether the distance from `self` to `other` can be computed.
    pub fn can_measure(self, other: GridVec) -> (b: bool)
        ensures
            b == (king_distance(self, other) <= i32::MAX),
    {
        self.can_sub(other) && other.can_sub(self)
    }

    pub fn add(self, other: GridVec) -> (v: GridVec)
        requires
            self.sum_fits(other),
        ensures
            v == self.plus(other),
            v.x == self.x + other.x,
            v.y == self.y + other.y,
    {
        GridVec { x: self.x + other.x, y: self.y + other.y }
    }

    pub fn sub(self, other: GridVec) -> (v: GridVec)
        requires
            self.difference_fits(other),
        ensures
            v == self.minus(other),
            v.x == self.x - other.x,
            v.y == self.y - other.y,
    {
        GridVec { x: self.x - other.x, y: self.y - other.y }
    }

    /// The step of a chess king in the direction of `self`: each component reduced to its sign.
    pub fn king_step(self) -> (v: GridVec)
        ensures
            v == self.toward(),
            v.x == sign(self.x as int),
            v.y == sign(self.y as int),
    {
        let x: i32 = if self.x < 0 {
            -1
        } else if self.x == 0 {
            0
        } else {
            1
        };
        let y: i32 = if self.y < 0 {
            -1
        } else if self.y == 0 {
            0
        } else {
            1
        };
        GridVec { x, y }
    }

    /// Number of king moves from `self` to `other`.
    pub fn chebyshev_distance(self, other: GridVec) -> (d: i32)
        requires
            king_distance(self, other) <= i32::MAX,
        ensures
            d == king_distance(self, other),
    {
        let dx: i32 = if self.x < other.x {
            -(self.x - other.x)
        } else {
            self.x - other.x
        };
        let dy: i32 = if self.y < other.y {
            -(self.y - other.y)
        } else {
            self.y - other.y
        };
        if dx < dy {
            dy
        } else {
            dx
        }
    }

    /// Squared Euclidean distance from `self` to `other`.
    pub fn distance_squared(self, other: GridVec) -> (d: i32)
        requires
            square_distance(self, other) <= i32::MAX,
        ensures
            d == square_distance(self, other),
    {
        proof {
            lemma_square_bounds(self.x - other.x, self.y - other.y, i32::MAX as int);
        }
        let dx: i32 = self.x - other.x;
        let dy: i32 = self.y - other.y;
        dx * dx + dy * dy
    }
}

/// Where `x * x + y * y` is bounded, so is each square and each of the two numbers.
proof fn lemma_square_bounds(x: int, y: int, bound: int)
    requires
        x * x + y * y <= bound,
    ensures
        0 <= x * x <= bound,
        0 <= y * y <= bound,
        -bound <= x <= bound,
        -bound <= y <= bound,
{
    assert(0 <= x * x && 0 <= y * y && x <= x * x && -x <= x * x && y <= y * y && -y <= y * y)
        by (nonlinear_arith);
}

/// The number of king moves between two tiles is the least that covers the way along both
/// axes.
pub proof fn kings_cover_both_axes(a: GridVec, b: GridVec, d: int)
    ensures
        king_distance(a, b) <= d <==> {
            &&& a.x - b.x <= d
            &&& b.x - a.x <= d
            &&& a.y - b.y <= d
            &&& b.y - a.y <= d
        },
{
}

/// The square of the distance is that of Pythagoras: it does not depend on where the tiles are,
/// only on how far apart, and the two axes add up.
pub proof fn squares_of_the_axes_add_up(a: GridVec, b: GridVec, dx: int, dy: int)
    requires
        a.x == b.x + dx || b.x == a.x + dx,
        a.y == b.y + dy || b.y == a.y + dy,
    ensures
        square_distance(a, b) == dx * dx + dy * dy,
        square_distance(b, a) == dx * dx + dy * dy,
{
    assert((-dx) * (-dx) == dx * dx) by (nonlinear_arith);
    assert((-dy) * (-dy) == dy * dy) by (nonlinear_arith);
    assert(a.x - b.x == dx || a.x - b.x == -dx);
    assert(a.y - b.y == dy || a.y - b.y == -dy);
    assert(b.x - a.x == dx || b.x - a.x == -dx);
    assert(b.y - a.y == dy || b.y - a.y == -dy);
}

/// A sum of vectors is that of their coordinates, and a difference added to what was taken away
/// gives back the whole; both can be computed exactly if the results are coordinates.
pub proof fn sums_and_differences_agree(a: GridVec, b: GridVec)
    ensures
        a.sum_fits(b) <==> i32::MIN <= a.x + b.x <= i32::MAX && i32::MIN <= a.y + b.y <= i32::MAX,
        a.difference_fits(b) <==> i32::MIN <= a.x - b.x <= i32::MAX && i32::MIN <= a.y - b.y
            <= i32::MAX,
        a.sum_fits(b) ==> a.plus(b).x == a.x + b.x && a.plus(b).y == a.y + b.y,
        a.difference_fits(b) ==> b.x + a.minus(b).x == a.x && b.y + a.minus(b).y == a.y,
        a.is_zero() <==> a.x == 0 && a.y == 0,
{
}

/// One king move in the direction of a vector goes one tile along each axis on which the vector
/// does, to the same side.
pub proof fn king_steps_keep_the_direction(v: GridVec)
    ensures
        v.x > 0 ==> v.toward().x == 1,
        v.x < 0 ==> v.toward().x == -1,
        v.x == 0 ==> v.toward().x == 0,
        v.y > 0 ==> v.toward().y == 1,
        v.y < 0 ==> v.toward().y == -1,
        v.y == 0 ==> v.toward().y == 0,
        v.toward().doubled().x == v.toward().x + v.toward().x,
        v.toward().doubled().y == v.toward().y + v.toward().y,
{
}

} // verus!
