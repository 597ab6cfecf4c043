//! Falling-sand cellular automaton: particles on an integer grid fall under
//! a simple gravity rule, settle into heaps, are culled by saturated rows,
//! and are spawned on demand.
pub mod cell;
pub mod compaction;
pub mod grid;
pub mod random;
pub mod rules;
pub mod schedule;
pub mod spawn;

pub use cell::{CellPosition, WorldBounds, X_MAX_BOUNDS, X_MIN_BOUNDS, Y_MAX_BOUNDS, Y_MIN_BOUNDS};
pub use compaction::{compact, cull_flags};
pub use grid::OccupancySnapshot;
pub use random::TieBreaker;
pub use rules::{may_descend, needs_tie_break, next_cell, next_generation};
pub use schedule::{
    CellParams, NextGenerationTimer, NextMouseClickTimer, RepeatingTimer, CULL_THRESHOLD,
    GENERATION_INTERVAL_MILLIS, SPAWN_INTERVAL_MILLIS,
};
pub use spawn::{is_occupied, spawn_brush, spawn_cell};
