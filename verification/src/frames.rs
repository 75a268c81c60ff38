//! The frame-range resolver: whether a layer is static, how many frames
//! it spans, and how a queried frame is clamped into a layer's range.

use crate::storage::{range_list_seq, RangeList};
use crate::types::{FrameNumber, FrameSize, LayerIndex, STATIC_FRAME_NUMBER};
use vstd::prelude::*;

verus! {

/// A layer is static when either end of its range is the sentinel.
pub open spec fn spec_is_static_range(r: (FrameNumber, FrameNumber)) -> bool {
    r.0 == STATIC_FRAME_NUMBER || r.1 == STATIC_FRAME_NUMBER
}

/// A range is valid when it is static, or runs forward.
pub open spec fn spec_valid_range(r: (FrameNumber, FrameNumber)) -> bool {
    spec_is_static_range(r) || r.0 <= r.1
}

/// Number of stored parameter sets of a layer: one for a static layer,
/// otherwise one per frame of `start..=end`.
pub open spec fn spec_layer_frame_count(r: (FrameNumber, FrameNumber)) -> int {
    if spec_is_static_range(r) {
        1
    } else {
        r.1 - r.0 + 1
    }
}

/// The frame number keying the `j`-th stored parameter set of a layer:
/// the sentinel for a static layer, else the `j`-th concrete frame.
pub open spec fn spec_entry_frame(r: (FrameNumber, FrameNumber), j: int) -> FrameNumber {
    if spec_is_static_range(r) {
        STATIC_FRAME_NUMBER
    } else {
        (r.0 + j) as FrameNumber
    }
}

/// Which stored parameter set of a layer serves a queried frame: always
/// the single set of a static layer; for an animated layer the frame is
/// clamped into `start..=end` (boundary hold, no extrapolation).
pub open spec fn spec_clamped_index(r: (FrameNumber, FrameNumber), frame: int) -> int {
    let fc = spec_layer_frame_count(r);
    if fc > 1 {
        if frame < r.0 {
            0
        } else if frame - r.0 > fc - 1 {
            fc - 1
        } else {
            frame - r.0
        }
    } else {
        0
    }
}

/// Number of stored parameter sets of layer `layer_num`.
pub fn lens_frame_count(layer_num: LayerIndex, layer_frame_range: &RangeList) -> (r: FrameSize)
    requires
        (layer_num as int) < range_list_seq(*layer_frame_range).len(),
        spec_valid_range(range_list_seq(*layer_frame_range)[layer_num as int]),
        spec_layer_frame_count(range_list_seq(*layer_frame_range)[layer_num as int])
            <= FrameSize::MAX,
    ensures
        r as int == spec_layer_frame_count(range_list_seq(*layer_frame_range)[layer_num as int]),
{
    let (start_frame, end_frame) = layer_frame_range.get(layer_num as usize);
    let is_static = start_frame == STATIC_FRAME_NUMBER || end_frame == STATIC_FRAME_NUMBER;

    if is_static {
        1
    } else {
        ((end_frame as i64 - start_frame as i64) + 1) as FrameSize
    }
}

} // verus!
