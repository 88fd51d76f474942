//! Run segmentation for a climbing game: an ordered table of checkpoints,
//! the choice of the checkpoint that the next split is awarded for, and the
//! per-tick decision to start, split or reset an external timer.
//!
//! Positions are fixed-point: every coordinate counts thousandths of a world
//! unit, so that the checkpoint table is held exactly and every comparison is
//! an integer comparison.

pub mod engine;
pub mod geometry;
pub mod settings;
pub mod state;
pub mod trigger;
