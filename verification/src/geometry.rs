//! Integer geometry of the board: positions, orientations, and the clamp that
//! keeps the cursor and the piece riding it between the walls.
//!
//! Positions are whole world units. Orientation components are fixed-point
//! numbers, `ROTATION_UNIT` to the unit.

use vstd::prelude::*;

verus! {

/// A position in the world.
#[derive(Clone, Copy, Debug, PartialEq, Eq, Structural)]
pub struct Translation {
    pub x: i64,
    pub y: i64,
    pub z: i64,
}

/// The value that stands for 1 in a component of a [`Rotation`].
pub const ROTATION_UNIT: i64 = 1_000_000;

/// The four components of an orientation, in parts of [`ROTATION_UNIT`].
#[derive(Clone, Copy, Debug, PartialEq, Eq, Structural)]
pub struct Rotation {
    pub x: i64,
    pub y: i64,
    pub z: i64,
    pub w: i64,
}

/// Where a piece is and how it is turned.
#[derive(Clone, Copy, Debug, PartialEq, Eq, Structural)]
pub struct Placement {
    pub translation: Translation,
    pub rotation: Rotation,
}

/// A pointer position, already projected into the world.
#[derive(Clone, Copy, Debug, PartialEq, Eq, Structural)]
pub struct PointerPosition {
    pub x: i64,
    pub y: i64,
}

/// The value halfway between `a` and `b`, rounded down.
pub open spec fn midpoint(a: int, b: int) -> int {
    (a + b) / 2
}

/// `x` moved into `[lo, hi]` by the shortest way.
pub open spec fn clamped(x: int, lo: int, hi: int) -> int {
    if x < lo {
        lo
    } else if x > hi {
        hi
    } else {
        x
    }
}

/// Halfway between two coordinates, rounded down, without overflow.
pub fn halfway(a: i64, b: i64) -> (m: i64)
    ensures
        m == midpoint(a as int, b as int),
{
    let sum: i128 = a as i128 + b as i128;
    let half: i128 = if sum >= 0 {
        sum / 2
    } else {
        -((1 - sum) / 2)
    };
    half as i64
}

/// Moves `x` into `[lo, hi]`.
pub fn clamp(x: i64, lo: i64, hi: i64) -> (r: i64)
    requires
        lo <= hi,
    ensures
        r == clamped(x as int, lo as int, hi as int),
{
    if x < lo {
        lo
    } else if x > hi {
        hi
    } else {
        x
    }
}

impl Translation {
    /// The point halfway between `self` and `other`, coordinate by coordinate.
    pub open spec fn between(self, other: Translation) -> Translation {
        Translation {
            x: midpoint(self.x as int, other.x as int) as i64,
            y: midpoint(self.y as int, other.y as int) as i64,
            z: midpoint(self.z as int, other.z as int) as i64,
        }
    }

    /// Computes the point halfway to `other`.
    pub fn halfway_to(&self, other: &Translation) -> (m: Translation)
        ensures
            m == self.between(*other),
    {
        Translation {
            x: halfway(self.x, other.x),
            y: halfway(self.y, other.y),
            z: halfway(self.z, other.z),
        }
    }
}

impl Rotation {
    /// The orientation of a piece that has not been turned.
    pub open spec fn upright() -> Rotation {
        Rotation { x: 0, y: 0, z: 0, w: ROTATION_UNIT }
    }

    /// Makes the orientation of a piece that has not been turned.
    pub fn identity() -> (r: Rotation)
        ensures
            r == Rotation::upright(),
    {
        Rotation { x: 0, y: 0, z: 0, w: ROTATION_UNIT }
    }

    /// The component-wise average of two orientations. This is a plain
    /// average of the four numbers, not a rotation halfway between the two.
    pub open spec fn between(self, other: Rotation) -> Rotation {
        Rotation {
            x: midpoint(self.x as int, other.x as int) as i64,
            y: midpoint(self.y as int, other.y as int) as i64,
            z: midpoint(self.z as int, other.z as int) as i64,
            w: midpoint(self.w as int, other.w as int) as i64,
        }
    }

    /// Computes the average with `other`.
    pub fn halfway_to(&self, other: &Rotation) -> (m: Rotation)
        ensures
            m == self.between(*other),
    {
        Rotation {
            x: halfway(self.x, other.x),
            y: halfway(self.y, other.y),
            z: halfway(self.z, other.z),
            w: halfway(self.w, other.w),
        }
    }
}

impl Placement {
    /// Midpoint of the two positions and average of the two orientations.
    pub open spec fn between(self, other: Placement) -> Placement {
        Placement {
            translation: self.translation.between(other.translation),
            rotation: self.rotation.between(other.rotation),
        }
    }

    /// Computes the placement halfway to `other`.
    pub fn halfway_to(&self, other: &Placement) -> (m: Placement)
        ensures
            m == self.between(*other),
    {
        Placement {
            translation: self.translation.halfway_to(&other.translation),
            rotation: self.rotation.halfway_to(&other.rotation),
        }
    }
}

/// The playable area: walls at `-width / 2` and `width / 2`, floor at
/// `bottom_y`, pieces dropped from `bottom_y + height`.
#[derive(Clone, Copy, Debug, PartialEq, Eq, Structural)]
pub struct BoardGeometry {
    pub width: u32,
    pub height: u32,
    pub bottom_y: i32,
}

impl BoardGeometry {
    /// Distance from the centre line to either wall.
    pub open spec fn half_width(self) -> int {
        self.width as int / 2
    }

    /// The fixed height at which pieces wait and from which they drop.
    pub open spec fn spawn_y(self) -> int {
        self.bottom_y + self.height
    }

    /// Computes the distance from the centre line to either wall.
    pub fn half(&self) -> (h: i64)
        ensures
            h == self.half_width(),
    {
        (self.width / 2) as i64
    }

    /// Computes the height at which pieces wait and from which they drop.
    pub fn drop_height(&self) -> (y: i64)
        ensures
            y == self.spawn_y(),
    {
        self.bottom_y as i64 + self.height as i64
    }

    /// The pointer's `x`, held between the two walls.
    pub fn clamp_to_walls(&self, x: i64) -> (r: i64)
        ensures
            r == clamped(x as int, -self.half_width(), self.half_width()),
    {
        let half: i64 = self.half();
        clamp(x, -half, half)
    }
}

/// How far a shape reaches sideways from its centre: it covers
/// `[x - left, x - right]` when its centre is at `x`. `left` narrows the
/// range of the centre at the left wall, `right` (zero or negative for a shape
/// that contains its centre) at the right wall.
#[derive(Clone, Copy, Debug, PartialEq, Eq, Structural)]
pub struct PieceWidth {
    pub left: i32,
    pub right: i32,
}

impl PieceWidth {
    /// Leftmost centre position that keeps the shape inside the left wall.
    pub open spec fn lowest_x(self, board: BoardGeometry) -> int {
        -board.half_width() + self.left
    }

    /// Rightmost centre position that keeps the shape inside the right wall.
    pub open spec fn highest_x(self, board: BoardGeometry) -> int {
        board.half_width() + self.right
    }

    /// The shape is no wider than the board, so some centre position keeps it
    /// between the walls.
    pub open spec fn fits(self, board: BoardGeometry) -> bool {
        self.lowest_x(board) <= self.highest_x(board)
    }

    /// The position `t` with its `x` moved into the range that keeps the
    /// shape between the walls.
    pub open spec fn clamped(self, board: BoardGeometry, t: Translation) -> Translation {
        Translation {
            x: clamped(t.x as int, self.lowest_x(board), self.highest_x(board)) as i64,
            y: t.y,
            z: t.z,
        }
    }

    /// The shape's left and right edges stay between the walls when its
    /// centre is at `x`.
    pub open spec fn within_walls(self, board: BoardGeometry, x: int) -> bool {
        -board.half_width() <= x - self.left && x - self.right <= board.half_width()
    }

    /// Tells whether the shape is no wider than the board.
    pub fn fits_board(&self, board: &BoardGeometry) -> (b: bool)
        ensures
            b == self.fits(*board),
    {
        let half: i64 = board.half();
        -half + self.left as i64 <= half + self.right as i64
    }

    /// Narrows `t.x` so that the shape never crosses a wall; `y` and `z` stay.
    pub fn clamp(&self, board: &BoardGeometry, t: Translation) -> (r: Translation)
        requires
            self.fits(*board),
        ensures
            r == self.clamped(*board, t),
    {
        let half: i64 = board.half();
        Translation { x: clamp(t.x, -half + self.left as i64, half + self.right as i64), y: t.y, z: t.z }
    }
}

/// A pointer beyond a wall leaves the cursor on that wall, and one between
/// the walls leaves it where the pointer is.
pub proof fn lemma_cursor_clamped_to_nearest_wall(board: BoardGeometry, pointer_x: int)
    ensures
        pointer_x < -board.half_width() ==> clamped(
            pointer_x,
            -board.half_width(),
            board.half_width(),
        ) == -board.half_width(),
        pointer_x > board.half_width() ==> clamped(
            pointer_x,
            -board.half_width(),
            board.half_width(),
        ) == board.half_width(),
        -board.half_width() <= pointer_x <= board.half_width() ==> clamped(
            pointer_x,
            -board.half_width(),
            board.half_width(),
        ) == pointer_x,
{
}

/// Wherever the pointer is, a shape that fits the board has neither edge
/// beyond a wall once its centre is clamped.
pub proof fn lemma_clamped_piece_within_walls(width: PieceWidth, board: BoardGeometry, t: Translation)
    requires
        width.fits(board),
    ensures
        width.within_walls(board, width.clamped(board, t).x as int),
        width.clamped(board, t).y == t.y,
        width.clamped(board, t).z == t.z,
{
}

} // verus!
