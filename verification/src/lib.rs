//! Sprite-sheet animation core: turning a decoded sprite-sheet container
//! into frame durations and named tags, deriving per-tag timelines that
//! partition one loop of the animation into frame intervals, and sampling a
//! frame index from an accumulated progress value.
//!
//! Time inside one loop is measured in exact rational fractions of the loop
//! rather than floating point: an interval boundary is a cumulative
//! millisecond count, and a sample position is a fraction `num / den`.  All
//! interval arithmetic is therefore exact, and the interval set provably
//! partitions the loop with no gaps and no overlaps.

pub mod anchor;
pub mod animation;
pub mod aseprite;
pub mod asset;
pub mod sheet;
pub mod timeline;
