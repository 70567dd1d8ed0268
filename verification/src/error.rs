//! Failure kinds reported by every decode operation.

use vstd::prelude::*;

verus! {

/// An enumerated syntax element whose numeric code has to be in its table.
#[derive(Debug, Clone, Copy, PartialEq, Eq, Structural)]
pub enum ObuUnknownError {
    Profile,
    ColorPrimaries,
    TransferCharacteristics,
    MatrixCoefficients,
    ChromaSamplePosition,
}

/// Why a decode operation gave up.
#[derive(Debug, Clone, Copy, PartialEq, Eq, Structural)]
pub enum ObuError {
    /// The code read for the named element is not in that element's table.
    UnknownCode(ObuUnknownError),
    /// An OBU carries no size field and no manual length was configured.
    ConfigurationError,
    /// A read would go past the end of the window.
    Truncated,
    /// A variable-length code is longer than its maximum length.
    Overflow,
    /// The forbidden bit of an OBU header is set.
    Framing,
}

} // verus!
