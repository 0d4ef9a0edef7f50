//! The ways in which a render call can be refused.

use vstd::prelude::*;

verus! {

/// Why a frame was not rendered. In either case nothing was written.
#[derive(Clone, Copy, Debug, PartialEq, Eq, Structural)]
pub enum GrainError {
    /// A buffer does not hold exactly `width * height` RGB pixels, or the
    /// requested span does not lie inside the frame.
    SizeMismatch,
    /// The parameter set is not usable: its grain size is not strictly
    /// greater than zero.
    InvalidConfig,
}

} // verus!
