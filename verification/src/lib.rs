//! Packed, build-once/read-many storage for time-varying lens-distortion
//! parameter layers.
//!
//! A structure holds a stack of distortion layers.  Each layer carries one
//! lens model variant and either a single static parameter set or one set
//! per frame over a range.  All parameter scalars are packed into one
//! contiguous block with an `(offset, length)` index table; queries resolve
//! a `(layer, frame)` pair to the stored set with boundary clamping, and a
//! stable 64-bit content hash over the effective values serves as a cache
//! key.  Scalars are carried as IEEE-754 double bit patterns (`u64`).

pub mod frames;
pub mod hashing;
pub mod laws;
pub mod layers;
pub mod layout;
pub mod models;
pub mod storage;
pub mod types;

pub use frames::{
    lens_frame_count, spec_clamped_index, spec_entry_frame, spec_is_static_range,
    spec_layer_frame_count, spec_valid_range,
};
pub use hashing::{canon_bits, fx_hash_of, spec_canon_bits};
pub use layers::{shim_create_distortion_layers_box, LayersView, ShimDistortionLayers};
pub use layout::{count_parameters, param_key, spec_param_key};
pub use models::{
    BindLensModelType, PARAMETER_COUNT_3DE_ANAMORPHIC_STD_DEG4,
    PARAMETER_COUNT_3DE_ANAMORPHIC_STD_DEG4_RESCALED, PARAMETER_COUNT_3DE_CLASSIC,
    PARAMETER_COUNT_3DE_RADIAL_STD_DEG4,
};
pub use storage::{ModelList, RangeList};
pub use types::{
    CameraParameters, FrameNumber, FrameSize, HashValue64, LayerIndex, LayerSize, ParameterBlock,
    ParameterIndex, Parameters3deClassic, ParameterSize, STATIC_FRAME_NUMBER,
};
