//! The catalog of piece shapes: for every rank a regular polygon, its radius
//! and its colour, and the descriptors from which a piece is put on screen and
//! into the physics world.

use crate::geometry::Placement;
use vstd::arithmetic::div_mod::{lemma_div_is_ordered, lemma_div_multiples_vanish};
use vstd::arithmetic::mul::lemma_mul_inequality;
use vstd::prelude::*;

verus! {

/// Radius of the smallest shape, the one with the most edges.
pub const MIN_RADIUS: u32 = 20;

/// Radius of the largest shape, the one with the fewest edges.
pub const MAX_RADIUS: u32 = 200;

/// Edges of the shape of rank 0.
pub const MIN_EDGES: usize = 3;

/// Number of steps between the first shape and the last.
pub const UPGRADE_NUM: usize = 6;

/// Edges of the shape of the last rank.
pub const MAX_EDGES: usize = MIN_EDGES + UPGRADE_NUM;

/// The live component of a piece: its rank, fixed when the piece is made.
#[derive(Clone, Copy, Debug, PartialEq, Eq, Structural)]
pub struct Piece {
    pub rank: usize,
}

/// Whether a piece has been claimed by a fusion. It starts `false` and is
/// set once, when the piece is chosen to fuse.
#[derive(Clone, Copy, Debug, PartialEq, Eq, Structural)]
pub struct PieceMerged(pub bool);

/// The colours a shape can have.
#[derive(Clone, Copy, Debug, PartialEq, Eq, Structural)]
pub enum PieceColor {
    Turquoise,
    Red,
    Aquamarine,
    Cyan,
    Bisque,
    Beige,
    AntiqueWhite,
}

/// What the catalog holds for one rank: a regular polygon of `edges`
/// vertices on a circle of `radius`, vertex `i` at `i / edges` of a full turn
/// from straight up, and the colour it is drawn in.
#[derive(Clone, Copy, Debug, PartialEq, Eq, Structural)]
pub struct ShapeEntry {
    pub edges: usize,
    pub radius: u32,
    pub color: PieceColor,
}

/// A corner of a regular polygon: on a circle of `radius` around the
/// centre, `step` of `steps` equal parts of a full turn away from straight
/// up, clockwise. Its place is `radius * sin(angle)` to the right of the
/// centre and `radius * cos(angle)` above it, for the angle of that turn.
#[derive(Clone, Copy, Debug, PartialEq, Eq, Structural)]
pub struct PolarVertex {
    pub radius: u32,
    pub step: usize,
    pub steps: usize,
}

/// What is drawn for a piece.
#[derive(Clone, Copy, Debug, PartialEq, Eq, Structural)]
pub struct PieceDisplay {
    pub edges: usize,
    pub radius: u32,
    pub color: PieceColor,
    pub transform: Placement,
    pub piece: Piece,
}

/// How the physics world treats a piece: a piece on the cursor is moved by
/// the cursor alone and touches nothing, a dropped piece falls and collides.
#[derive(Clone, Copy, Debug, PartialEq, Eq, Structural)]
pub enum BodyMode {
    CursorAttached,
    Dynamic,
}

/// What the physics world gets for a dropped piece: the polygon whose convex
/// hull is its collider, a body that falls and collides, a fusion flag not
/// yet set, and the request to be told when the piece starts touching
/// another.
#[derive(Clone, Copy, Debug, PartialEq, Eq, Structural)]
pub struct PiecePhysics {
    pub edges: usize,
    pub radius: u32,
    pub body: BodyMode,
    pub merged: PieceMerged,
    pub collision_events: bool,
}

/// A piece that is both drawn and simulated.
#[derive(Clone, Copy, Debug, PartialEq, Eq, Structural)]
pub struct PieceBundle {
    pub display: PieceDisplay,
    pub physics: PiecePhysics,
}

/// The radius of a rank: `max_radius` at rank 0, falling in equal steps to
/// `min_radius` at the last rank, `rank_count - 1`.
pub open spec fn radius_at(min_radius: int, max_radius: int, rank_count: int, rank: int) -> int {
    max_radius - rank * (max_radius - min_radius) / (rank_count - 1)
}

/// The bounds from which a catalog can be built: every polygon has at least
/// three corners and a radius above zero, there are at least two ranks to
/// interpolate between, and the largest edge count fits the machine.
pub open spec fn valid_bounds(
    min_radius: u32,
    max_radius: u32,
    min_edges: usize,
    rank_count: usize,
) -> bool {
    &&& 0 < min_radius <= max_radius
    &&& 3 <= min_edges
    &&& 2 <= rank_count
    &&& min_edges + rank_count - 1 <= usize::MAX
}

/// The entry of `rank` in a catalog built from these bounds and this palette.
/// A palette shorter than the catalog is gone through again from its start.
pub open spec fn shape_at(
    min_radius: u32,
    max_radius: u32,
    min_edges: usize,
    rank_count: usize,
    palette: Seq<PieceColor>,
    rank: int,
) -> ShapeEntry {
    ShapeEntry {
        edges: (min_edges + rank) as usize,
        radius: radius_at(min_radius as int, max_radius as int, rank_count as int, rank) as u32,
        color: palette[rank % palette.len() as int],
    }
}

/// The colours of the seven ranks, rank 0 first.
pub open spec fn default_colors() -> Seq<PieceColor> {
    seq![
        PieceColor::Turquoise,
        PieceColor::Red,
        PieceColor::Aquamarine,
        PieceColor::Cyan,
        PieceColor::Bisque,
        PieceColor::Beige,
        PieceColor::AntiqueWhite,
    ]
}

/// The first rank has exactly the largest radius and the last rank exactly
/// the smallest, whatever the two bounds are.
pub proof fn lemma_radius_endpoints(min_radius: int, max_radius: int, rank_count: int)
    requires
        2 <= rank_count,
    ensures
        radius_at(min_radius, max_radius, rank_count, 0) == max_radius,
        radius_at(min_radius, max_radius, rank_count, rank_count - 1) == min_radius,
{
    let steps = rank_count - 1;
    let span = max_radius - min_radius;
    lemma_div_multiples_vanish(span, steps);
}

/// Every rank's radius lies between the two bounds, and a higher rank never
/// has a larger radius than a lower one.
pub proof fn lemma_radius_falls_with_rank(
    min_radius: int,
    max_radius: int,
    rank_count: int,
    lower: int,
    higher: int,
)
    requires
        min_radius <= max_radius,
        2 <= rank_count,
        0 <= lower <= higher < rank_count,
    ensures
        min_radius <= radius_at(min_radius, max_radius, rank_count, higher),
        radius_at(min_radius, max_radius, rank_count, higher) <= radius_at(
            min_radius,
            max_radius,
            rank_count,
            lower,
        ),
        radius_at(min_radius, max_radius, rank_count, lower) <= max_radius,
{
    let steps = rank_count - 1;
    let span = max_radius - min_radius;
    lemma_mul_inequality(lower, higher, span);
    lemma_mul_inequality(higher, steps, span);
    lemma_div_is_ordered(lower * span, higher * span, steps);
    lemma_div_is_ordered(higher * span, steps * span, steps);
    lemma_div_multiples_vanish(span, steps);
}

/// Tells whether a catalog can be built from these bounds.
pub fn bounds_are_valid(min_radius: u32, max_radius: u32, min_edges: usize, rank_count: usize) -> (ok:
    bool)
    ensures
        ok == valid_bounds(min_radius, max_radius, min_edges, rank_count),
{
    0 < min_radius && min_radius <= max_radius && 3 <= min_edges && 2 <= rank_count && rank_count
        - 1 <= usize::MAX - min_edges
}

/// The radius of `rank` among `rank_count` ranks.
pub fn rank_radius(min_radius: u32, max_radius: u32, rank_count: usize, rank: usize) -> (r: u32)
    requires
        min_radius <= max_radius,
        2 <= rank_count,
        rank < rank_count,
    ensures
        r == radius_at(min_radius as int, max_radius as int, rank_count as int, rank as int),
        min_radius <= r <= max_radius,
{
    let span: u128 = (max_radius - min_radius) as u128;
    let steps: u128 = (rank_count - 1) as u128;
    proof {
        lemma_radius_falls_with_rank(
            min_radius as int,
            max_radius as int,
            rank_count as int,
            rank as int,
            rank as int,
        );
        lemma_mul_inequality(rank as int, 0x1_0000_0000_0000_0000, span as int);
    }
    let fall: u128 = rank as u128 * span / steps;
    max_radius - fall as u32
}

/// The radius of the default shape with `n` edges: `MAX_RADIUS` for
/// `MIN_EDGES`, `MIN_RADIUS` for `MAX_EDGES`.
pub fn nth_radius(n: usize) -> (r: u32)
    requires
        MIN_EDGES <= n <= MAX_EDGES,
    ensures
        r == radius_at(MIN_RADIUS as int, MAX_RADIUS as int, UPGRADE_NUM + 1, n - MIN_EDGES),
        r == 200 - 30 * (n - 3),
{
    rank_radius(MIN_RADIUS, MAX_RADIUS, UPGRADE_NUM + 1, n - MIN_EDGES)
}

/// The seven colours of the default catalog, rank 0 first.
pub fn default_palette() -> (palette: Vec<PieceColor>)
    ensures
        palette@ == default_colors(),
{
    let mut palette: Vec<PieceColor> = Vec::new();
    palette.push(PieceColor::Turquoise);
    palette.push(PieceColor::Red);
    palette.push(PieceColor::Aquamarine);
    palette.push(PieceColor::Cyan);
    palette.push(PieceColor::Bisque);
    palette.push(PieceColor::Beige);
    palette.push(PieceColor::AntiqueWhite);
    assert(palette@ =~= default_colors());
    palette
}

impl ShapeEntry {
    /// The corners of the polygon in order: as many as it has edges, evenly
    /// spaced on its circle, the first one straight up.
    pub open spec fn polygon(self) -> Seq<PolarVertex> {
        Seq::new(
            self.edges as nat,
            |i: int| PolarVertex { radius: self.radius, step: i as usize, steps: self.edges },
        )
    }

    /// Lists the corners of the polygon.
    pub fn vertices(&self) -> (corners: Vec<PolarVertex>)
        ensures
            corners@ == self.polygon(),
    {
        let mut corners: Vec<PolarVertex> = Vec::new();
        let mut step: usize = 0;
        while step < self.edges
            invariant
                step <= self.edges,
                corners@.len() == step,
                forall|i: int| 0 <= i < step ==> #[trigger] corners@[i] == self.polygon()[i],
            decreases self.edges - step,
        {
            corners.push(PolarVertex { radius: self.radius, step, steps: self.edges });
            step = step + 1;
        }
        assert(corners@ =~= self.polygon());
        corners
    }
}

/// The shapes of all ranks, built once and never changed.
pub struct PieceAssets {
    shapes: Vec<ShapeEntry>,
}

impl PieceAssets {
    /// The entries, rank 0 first.
    pub closed spec fn view(&self) -> Seq<ShapeEntry> {
        self.shapes@
    }

    /// Builds the catalog of `rank_count` ranks: rank `r` is a polygon of
    /// `min_edges + r` edges with the interpolated radius and the palette's
    /// colour for `r`.
    pub fn build(
        min_radius: u32,
        max_radius: u32,
        min_edges: usize,
        rank_count: usize,
        palette: &Vec<PieceColor>,
    ) -> (assets: PieceAssets)
        requires
            valid_bounds(min_radius, max_radius, min_edges, rank_count),
            palette.len() > 0,
        ensures
            assets@.len() == rank_count,
            forall|rank: int|
                0 <= rank < rank_count ==> #[trigger] assets@[rank] == shape_at(
                    min_radius,
                    max_radius,
                    min_edges,
                    rank_count,
                    palette@,
                    rank,
                ),
    {
        let mut shapes: Vec<ShapeEntry> = Vec::new();
        let mut rank: usize = 0;
        while rank < rank_count
            invariant
                valid_bounds(min_radius, max_radius, min_edges, rank_count),
                palette.len() > 0,
                rank <= rank_count,
                shapes@.len() == rank,
                forall|k: int|
                    0 <= k < rank ==> #[trigger] shapes@[k] == shape_at(
                        min_radius,
                        max_radius,
                        min_edges,
                        rank_count,
                        palette@,
                        k,
                    ),
            decreases rank_count - rank,
        {
            let entry = ShapeEntry {
                edges: min_edges + rank,
                radius: rank_radius(min_radius, max_radius, rank_count, rank),
                color: palette[rank % palette.len()],
            };
            shapes.push(entry);
            rank = rank + 1;
        }
        PieceAssets { shapes }
    }

    /// The default catalog: seven ranks, from a triangle of radius
    /// `MAX_RADIUS` to a nine-sided polygon of radius `MIN_RADIUS`.
    pub fn init() -> (assets: PieceAssets)
        ensures
            assets@.len() == UPGRADE_NUM + 1,
            forall|rank: int|
                0 <= rank <= UPGRADE_NUM ==> #[trigger] assets@[rank] == shape_at(
                    MIN_RADIUS,
                    MAX_RADIUS,
                    MIN_EDGES,
                    (UPGRADE_NUM + 1) as usize,
                    default_colors(),
                    rank,
                ),
    {
        let palette = default_palette();
        PieceAssets::build(MIN_RADIUS, MAX_RADIUS, MIN_EDGES, UPGRADE_NUM + 1, &palette)
    }

    /// Number of ranks in the catalog.
    pub fn len(&self) -> (n: usize)
        ensures
            n == self@.len(),
    {
        self.shapes.len()
    }

    /// The entry of rank `n`, if the catalog has that rank.
    pub fn shape(&self, n: usize) -> (entry: Option<ShapeEntry>)
        ensures
            entry == if n < self@.len() {
                Some(self@[n as int])
            } else {
                None
            },
    {
        if n < self.shapes.len() {
            Some(self.shapes[n])
        } else {
            None
        }
    }
}

/// What is drawn for a piece of rank `n` placed at `transform`.
pub fn nth_piece_display(assets: &PieceAssets, n: usize, transform: Placement) -> (display:
    PieceDisplay)
    requires
        n < assets@.len(),
    ensures
        display == (PieceDisplay {
            edges: assets@[n as int].edges,
            radius: assets@[n as int].radius,
            color: assets@[n as int].color,
            transform,
            piece: Piece { rank: n },
        }),
{
    let entry = assets.shapes[n];
    PieceDisplay {
        edges: entry.edges,
        radius: entry.radius,
        color: entry.color,
        transform,
        piece: Piece { rank: n },
    }
}

/// What the physics world gets for a piece of rank `n`: its polygon, an
/// unset fusion flag, and collision events switched on.
pub fn nth_piece_physics(assets: &PieceAssets, n: usize) -> (physics: PiecePhysics)
    requires
        n < assets@.len(),
    ensures
        physics == (PiecePhysics {
            edges: assets@[n as int].edges,
            radius: assets@[n as int].radius,
            body: BodyMode::Dynamic,
            merged: PieceMerged(false),
            collision_events: true,
        }),
{
    let entry = assets.shapes[n];
    PiecePhysics {
        edges: entry.edges,
        radius: entry.radius,
        body: BodyMode::Dynamic,
        merged: PieceMerged(false),
        collision_events: true,
    }
}

/// A whole piece of rank `n` at `transform`: what is drawn and what is
/// simulated.
pub fn nth_piece(assets: &PieceAssets, n: usize, transform: Placement) -> (bundle: PieceBundle)
    requires
        n < assets@.len(),
    ensures
        bundle.display == nth_piece_display_of(assets@, n, transform),
        bundle.physics == nth_piece_physics_of(assets@, n),
{
    PieceBundle {
        display: nth_piece_display(assets, n, transform),
        physics: nth_piece_physics(assets, n),
    }
}

/// The display descriptor of rank `n` in a catalog.
pub open spec fn nth_piece_display_of(shapes: Seq<ShapeEntry>, n: usize, transform: Placement) -> PieceDisplay {
    PieceDisplay {
        edges: shapes[n as int].edges,
        radius: shapes[n as int].radius,
        color: shapes[n as int].color,
        transform,
        piece: Piece { rank: n },
    }
}

/// The physics descriptor of rank `n` in a catalog.
pub open spec fn nth_piece_physics_of(shapes: Seq<ShapeEntry>, n: usize) -> PiecePhysics {
    PiecePhysics {
        edges: shapes[n as int].edges,
        radius: shapes[n as int].radius,
        body: BodyMode::Dynamic,
        merged: PieceMerged(false),
        collision_events: true,
    }
}

} // verus!
