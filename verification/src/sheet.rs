//! The decoded sprite sheet: the plain data that the container parser hands
//! to the table builder.
//!
//! Frame order matches the on-disk declaration order; tags reference frames
//! by positional index into that order, so the order is load-bearing.  The
//! frames' pixel buffers are not here: no rule of the core ever reads a
//! pixel, so they flow straight from the decoder to the host's atlas packer.

use vstd::prelude::*;

verus! {

/// A named, contiguous, inclusive range `[from, to]` of frame indices.
///
/// Ranges of different tags may overlap, and names are not guaranteed unique
/// by the source format; the asset table resolves duplicate names by letting
/// later definitions replace earlier ones.
#[derive(Clone, Debug, PartialEq)]
pub struct Tag {
    /// Tag name; the key under which the derived timeline is looked up.
    pub name: String,
    /// First frame index of the range.
    pub from: usize,
    /// Last frame index of the range (inclusive).
    pub to: usize,
}

/// The parse result: the common pixel dimensions of every frame, the
/// per-frame display durations in on-disk order, and the declared tags.
#[derive(Clone, Debug, PartialEq)]
pub struct ParsedSheet {
    /// Width in pixels of every frame.
    pub width: u32,
    /// Height in pixels of every frame.
    pub height: u32,
    /// Display duration in milliseconds of each frame, in on-disk order.
    pub durations: Vec<u32>,
    /// Declared tags, in on-disk declaration order.
    pub tags: Vec<Tag>,
}

impl ParsedSheet {
    /// Well-formedness: every tag's range lies within the frame list, and
    /// the frame count fits the container's 32-bit frame indices.
    pub open spec fn wf(self) -> bool {
        &&& self.durations@.len() <= 0xFFFF_FFFF
        &&& (forall|i: int|
            0 <= i < self.tags@.len() ==> {
                &&& (#[trigger] self.tags@[i]).from <= self.tags@[i].to
                &&& self.tags@[i].to < self.durations@.len()
            })
    }
}

} // verus!
