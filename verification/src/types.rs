//! Plain value types shared by the whole crate.
//!
//! Parameter scalars are stored and exchanged as IEEE-754 double bit
//! patterns (`u64`), so that every rule about packing, lookup and hashing
//! is a statement about plain integers.

use vstd::prelude::*;

verus! {

/// A frame number; `STATIC_FRAME_NUMBER` is reserved as the sentinel
/// meaning "no specific frame" (a static layer).
pub type FrameNumber = i32;

/// A count of frames.
pub type FrameSize = u32;

/// Index of a layer in the stack.
pub type LayerIndex = u8;

/// Number of layers in the stack.
pub type LayerSize = u8;

/// Offset of a parameter set inside the packed parameter block.
pub type ParameterIndex = u32;

/// Number of scalars in one parameter set.
pub type ParameterSize = u8;

/// A 64-bit content hash.
pub type HashValue64 = u64;

/// One raw parameter-scalar sequence, as double bit patterns.
pub type ParameterBlock = Vec<u64>;

/// Sentinel frame number: a layer whose range starts or ends here is
/// static, and the whole structure's range is (sentinel, sentinel) when
/// every layer is static.
pub const STATIC_FRAME_NUMBER: FrameNumber = -1;

/// Static camera parameters, one set per structure.  Each field is the
/// bit pattern of an IEEE-754 double.
#[derive(Clone, Copy, Debug, PartialEq, Eq, PartialOrd, Structural)]
pub struct CameraParameters {
    pub focal_length_cm: u64,
    pub film_back_width_cm: u64,
    pub film_back_height_cm: u64,
    pub pixel_aspect: u64,
    pub lens_center_offset_x_cm: u64,
    pub lens_center_offset_y_cm: u64,
}

/// The all-zero camera parameter set (every scalar is `0.0`).
pub open spec fn spec_default_camera() -> CameraParameters {
    CameraParameters {
        focal_length_cm: 0,
        film_back_width_cm: 0,
        film_back_height_cm: 0,
        pixel_aspect: 0,
        lens_center_offset_x_cm: 0,
        lens_center_offset_y_cm: 0,
    }
}

impl Default for CameraParameters {
    fn default() -> (r: CameraParameters)
        ensures
            r == spec_default_camera(),
    {
        CameraParameters {
            focal_length_cm: 0,
            film_back_width_cm: 0,
            film_back_height_cm: 0,
            pixel_aspect: 0,
            lens_center_offset_x_cm: 0,
            lens_center_offset_y_cm: 0,
        }
    }
}

/// The parameter set of a classic-model layer, unpacked into its named
/// fields, in the fixed packing order.  Each field is the bit pattern of
/// an IEEE-754 double.
#[derive(Clone, Copy, Debug, PartialEq, Eq, Structural)]
pub struct Parameters3deClassic {
    pub distortion: u64,
    pub anamorphic_squeeze: u64,
    pub curvature_x: u64,
    pub curvature_y: u64,
    pub quartic_distortion: u64,
}

} // verus!
