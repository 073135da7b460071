//! The rules of a drop-and-merge puzzle: a catalog of piece shapes by rank,
//! the registry of live pieces with the fusion of colliding equals, and the
//! queue that hands the player the next piece to drop.

pub mod fusion;
pub mod geometry;
pub mod pieces;
pub mod random;
pub mod spawning;

pub use fusion::{CollisionEvent, Fusion, PieceEntry, PieceRegistry, Successor, MAX_RANK};
pub use geometry::{
    clamp, halfway, BoardGeometry, PieceWidth, Placement, PointerPosition, Rotation, Translation,
    ROTATION_UNIT,
};
pub use pieces::{
    bounds_are_valid, default_palette, BodyMode, nth_piece, nth_piece_display, nth_piece_physics, nth_radius,
    rank_radius, Piece, PieceAssets, PieceBundle, PieceColor, PieceDisplay, PieceMerged,
    PiecePhysics, PolarVertex, ShapeEntry, MAX_EDGES, MAX_RADIUS, MIN_EDGES, MIN_RADIUS, UPGRADE_NUM,
};
pub use random::GameRand;
pub use spawning::{
    PieceAvailableTimer, Replenished, SpawnController, SpawnUpdate, COOLDOWN_NANOS, CURSOR_Z,
    HIGHEST_NEXT_RANK, PREVIEW_OFFSET_X, PREVIEW_Y, PREVIEW_Z,
};
