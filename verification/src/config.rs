//! The parameters of one grain pass.

use crate::error::GrainError;
use crate::ieee::{exponent_field, fraction_field, sign_bit, Float64};
use vstd::prelude::*;

verus! {

/// The parameter set of a grain pass. It does not change during a pass.
///
/// The twelve real-valued parameters are held as binary64 patterns.
#[derive(Clone, Copy, Debug, PartialEq, Eq, Structural)]
pub struct ArtisticGrainConfig {
    /// Scale of the grain features; a divisor, so it must be positive.
    pub size: Float64,
    /// Global strength of the grain.
    pub intensity: Float64,
    /// Contrast with which noise is pushed towards black or white.
    pub crystal_sharpness: Float64,
    /// Colour saturation of the result.
    pub saturation: Float64,
    /// Exposure in stops.
    pub exposure: Float64,
    /// Strength of the grain in the shadows.
    pub shadow_grain: Float64,
    /// Strength of the grain in the midtones.
    pub midtone_grain: Float64,
    /// Strength of the grain in the highlights.
    pub highlight_grain: Float64,
    /// Width of the blend between the three tonal zones.
    pub tonal_smoothness: Float64,
    /// Spread of the depth layers.
    pub depth: Float64,
    /// Magnitude of the chromatic aberration.
    pub chromatic: Float64,
    /// Magnitude of the surface displacement.
    pub relief: Float64,
    /// Number of depth layers.
    pub layers: u32,
}

/// The parameter set that is used where the caller gives none: size 25,
/// intensity 0.8, sharpness 8, saturation 1, exposure 0, shadow, midtone and
/// highlight grain 1.2, 1 and 0.6, tonal smoothness 0.15, depth 0.4,
/// chromatic 2, relief 0.3, in three layers.
pub open spec fn default_config() -> ArtisticGrainConfig {
    ArtisticGrainConfig {
        size: Float64 { bits: 0x4039_0000_0000_0000 },
        intensity: Float64 { bits: 0x3fe9_9999_9999_999a },
        crystal_sharpness: Float64 { bits: 0x4020_0000_0000_0000 },
        saturation: Float64 { bits: 0x3ff0_0000_0000_0000 },
        exposure: Float64 { bits: 0 },
        shadow_grain: Float64 { bits: 0x3ff3_3333_3333_3333 },
        midtone_grain: Float64 { bits: 0x3ff0_0000_0000_0000 },
        highlight_grain: Float64 { bits: 0x3fe3_3333_3333_3333 },
        tonal_smoothness: Float64 { bits: 0x3fc3_3333_3333_3333 },
        depth: Float64 { bits: 0x3fd9_9999_9999_999a },
        chromatic: Float64 { bits: 0x4000_0000_0000_0000 },
        relief: Float64 { bits: 0x3fd3_3333_3333_3333 },
        layers: 3,
    }
}

impl ArtisticGrainConfig {
    /// A parameter set is usable when its size is strictly positive.
    pub open spec fn is_valid(&self) -> bool {
        self.size.is_positive()
    }

    /// Accepts a usable parameter set and refuses any other.
    pub fn validate(&self) -> (r: Result<(), GrainError>)
        ensures
            self.is_valid() ==> r == Ok::<(), GrainError>(()),
            !self.is_valid() ==> r == Err::<(), GrainError>(GrainError::InvalidConfig),
    {
        if self.size.positive() {
            Ok(())
        } else {
            Err(GrainError::InvalidConfig)
        }
    }
}

impl Default for ArtisticGrainConfig {
    fn default() -> (r: Self)
        ensures
            r == default_config(),
    {
        ArtisticGrainConfig {
            size: Float64 { bits: 0x4039_0000_0000_0000 },
            intensity: Float64 { bits: 0x3fe9_9999_9999_999a },
            crystal_sharpness: Float64 { bits: 0x4020_0000_0000_0000 },
            saturation: Float64 { bits: 0x3ff0_0000_0000_0000 },
            exposure: Float64 { bits: 0 },
            shadow_grain: Float64 { bits: 0x3ff3_3333_3333_3333 },
            midtone_grain: Float64 { bits: 0x3ff0_0000_0000_0000 },
            highlight_grain: Float64 { bits: 0x3fe3_3333_3333_3333 },
            tonal_smoothness: Float64 { bits: 0x3fc3_3333_3333_3333 },
            depth: Float64 { bits: 0x3fd9_9999_9999_999a },
            chromatic: Float64 { bits: 0x4000_0000_0000_0000 },
            relief: Float64 { bits: 0x3fd3_3333_3333_3333 },
            layers: 3,
        }
    }
}

/// The default parameter set is usable.
pub proof fn lemma_default_is_valid()
    ensures
        default_config().is_valid(),
{
    let bits: u64 = 0x4039_0000_0000_0000;
    assert(!sign_bit(bits) && exponent_field(bits) == 0x403 && fraction_field(bits)
        == 0x9_0000_0000_0000) by (bit_vector)
        requires
            bits == 0x4039_0000_0000_0000,
    ;
}

} // verus!
