//! The anchor (pivot) calculator: turns a pixel-space anchor point of one
//! frame into a normalized sprite-origin offset.
//!
//! Pixel coordinates have their origin at the top-left of the frame with Y
//! growing downward; the render convention is centre-relative with Y growing
//! upward.  The offset is therefore `(-1/2 + ax/w, 1/2 - ay/h)` for an
//! anchor `(ax, ay)` over frame dimensions `(w, h)` — a vertical flip around
//! the top-left-relative-to-centre base origin `(-1/2, 1/2)`.
//!
//! The offset is returned as two exact rationals on a common denominator
//! scheme: `x = x_num / (2 * w)` and `y = y_num / (2 * h)`.

use vstd::prelude::*;

verus! {

/// Zero-sized frame dimensions: an anchor cannot be normalized over a frame
/// of zero width or height.  This is a caller-configuration error and is
/// reported when the offset is first computed, at setup time.
#[derive(Clone, Copy, Debug, PartialEq, Eq, Structural)]
pub struct ConfigurationError;

/// A normalized anchor offset, as the pair of exact rationals
/// `(x_num / x_den, y_num / y_den)`.
#[derive(Clone, Copy, Debug, PartialEq, Eq, Structural)]
pub struct AnchorOffset {
    /// Numerator of the horizontal offset.
    pub x_num: i64,
    /// Denominator of the horizontal offset; always positive.
    pub x_den: u64,
    /// Numerator of the vertical offset.
    pub y_num: i64,
    /// Denominator of the vertical offset; always positive.
    pub y_den: u64,
}

/// Compute the normalized sprite-origin offset of the pixel anchor
/// `(ax, ay)` over the frame dimensions `width × height`.
///
/// The result represents exactly `(-1/2 + ax/width, 1/2 - ay/height)`:
/// `x = (2 * ax - width) / (2 * width)` and
/// `y = (height - 2 * ay) / (2 * height)`.  Fails exactly when `width` or
/// `height` is zero.
pub fn anchor_offset(ax: i32, ay: i32, width: u32, height: u32) -> (r: Result<
    AnchorOffset,
    ConfigurationError,
>)
    ensures
        (r is Err) <==> (width == 0 || height == 0),
        r matches Ok(o) ==> {
            &&& o.x_num == 2 * ax - width
            &&& o.x_den == 2 * width
            &&& o.y_num == height - 2 * ay
            &&& o.y_den == 2 * height
        },
{
    if width == 0 || height == 0 {
        return Err(ConfigurationError);
    }
    let x_num: i64 = 2 * (ax as i64) - (width as i64);
    let x_den: u64 = 2 * (width as u64);
    let y_num: i64 = (height as i64) - 2 * (ay as i64);
    let y_den: u64 = 2 * (height as u64);
    Ok(AnchorOffset { x_num, x_den, y_num, y_den })
}

} // verus!
