//! Clamping of a pan offset to the range in which the visible window stays
//! inside the source frame.

use vstd::prelude::*;

verus! {

/// The largest offset at which a window of `window_extent` pixels still lies
/// inside an axis of `axis_extent` pixels. It is zero when the axis is shorter
/// than the window.
pub open spec fn max_offset(axis_extent: int, window_extent: int) -> int {
    if axis_extent < window_extent {
        0
    } else {
        axis_extent - window_extent
    }
}

/// The valid offset nearest to `offset`.
pub open spec fn clamped(offset: int, axis_extent: int, window_extent: int) -> int {
    if offset < 0 {
        0
    } else if offset > max_offset(axis_extent, window_extent) {
        max_offset(axis_extent, window_extent)
    } else {
        offset
    }
}

/// Clamps a requested offset to `[0, axis_extent - min(axis_extent, window_extent)]`.
///
/// An axis shorter than the window admits no panning, so the result is zero.
pub fn clamp(offset: u32, axis_extent: u32, window_extent: u32) -> (result: u32)
    ensures
        result == clamped(offset as int, axis_extent as int, window_extent as int),
        axis_extent >= window_extent ==> 0 <= result <= axis_extent - window_extent,
        axis_extent < window_extent ==> result == 0,
        result <= offset,
        offset <= max_offset(axis_extent as int, window_extent as int) ==> result == offset,
{
    let ceiling: u32 = if axis_extent < window_extent {
        0
    } else {
        axis_extent - window_extent
    };
    if offset > ceiling {
        ceiling
    } else {
        offset
    }
}

} // verus!
