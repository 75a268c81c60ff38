//! The lens model registry: each model variant has a fixed number of
//! parameter scalars and a fixed field order.

use crate::types::ParameterSize;
use vstd::prelude::*;

verus! {

/// Number of scalars of the classic model.
pub const PARAMETER_COUNT_3DE_CLASSIC: u8 = 5;

/// Number of scalars of the degree-4 radial model.
pub const PARAMETER_COUNT_3DE_RADIAL_STD_DEG4: u8 = 8;

/// Number of scalars of the degree-4 anamorphic model.
pub const PARAMETER_COUNT_3DE_ANAMORPHIC_STD_DEG4: u8 = 13;

/// Number of scalars of the rescaled degree-4 anamorphic model.
pub const PARAMETER_COUNT_3DE_ANAMORPHIC_STD_DEG4_RESCALED: u8 = 14;

/// The lens model variant carried by a layer.  `Uninitialized` marks a
/// layer that was never set up; a built structure contains none.
#[derive(Clone, Copy, Debug, PartialEq, Eq, PartialOrd, Structural)]
pub enum BindLensModelType {
    Uninitialized,
    TdeClassic,
    TdeRadialStdDeg4,
    TdeAnamorphicStdDeg4,
    TdeAnamorphicStdDeg4Rescaled,
}

/// Number of parameter scalars of each model variant.
pub open spec fn spec_parameter_size(m: BindLensModelType) -> int {
    match m {
        BindLensModelType::Uninitialized => 0,
        BindLensModelType::TdeClassic => PARAMETER_COUNT_3DE_CLASSIC as int,
        BindLensModelType::TdeRadialStdDeg4 => PARAMETER_COUNT_3DE_RADIAL_STD_DEG4 as int,
        BindLensModelType::TdeAnamorphicStdDeg4 => PARAMETER_COUNT_3DE_ANAMORPHIC_STD_DEG4 as int,
        BindLensModelType::TdeAnamorphicStdDeg4Rescaled => {
            PARAMETER_COUNT_3DE_ANAMORPHIC_STD_DEG4_RESCALED as int
        },
    }
}

/// The tag word a model variant contributes to the content hash.
pub open spec fn spec_model_tag(m: BindLensModelType) -> u64 {
    match m {
        BindLensModelType::Uninitialized => 0,
        BindLensModelType::TdeClassic => 1,
        BindLensModelType::TdeRadialStdDeg4 => 2,
        BindLensModelType::TdeAnamorphicStdDeg4 => 3,
        BindLensModelType::TdeAnamorphicStdDeg4Rescaled => 4,
    }
}

impl BindLensModelType {
    /// Number of parameter scalars of this model variant;
    /// an uninitialized layer has none.
    pub fn parameter_size(&self) -> (r: ParameterSize)
        ensures
            r as int == spec_parameter_size(*self),
    {
        match *self {
            BindLensModelType::Uninitialized => 0,
            BindLensModelType::TdeClassic => PARAMETER_COUNT_3DE_CLASSIC,
            BindLensModelType::TdeRadialStdDeg4 => PARAMETER_COUNT_3DE_RADIAL_STD_DEG4,
            BindLensModelType::TdeAnamorphicStdDeg4 => PARAMETER_COUNT_3DE_ANAMORPHIC_STD_DEG4,
            BindLensModelType::TdeAnamorphicStdDeg4Rescaled => {
                PARAMETER_COUNT_3DE_ANAMORPHIC_STD_DEG4_RESCALED
            },
        }
    }

    /// The tag word this variant contributes to the content hash.
    pub fn model_tag(&self) -> (r: u64)
        ensures
            r == spec_model_tag(*self),
    {
        match *self {
            BindLensModelType::Uninitialized => 0,
            BindLensModelType::TdeClassic => 1,
            BindLensModelType::TdeRadialStdDeg4 => 2,
            BindLensModelType::TdeAnamorphicStdDeg4 => 3,
            BindLensModelType::TdeAnamorphicStdDeg4Rescaled => 4,
        }
    }
}

} // verus!
