//! The sequence profile and its code table.

use vstd::prelude::*;
use vstd::std_specs::convert::TryFromSpecImpl;
use crate::error::{ObuError, ObuUnknownError};

verus! {

/// The profile of a coded sequence.
#[derive(Debug, Clone, Copy, PartialEq, Eq, Structural)]
pub enum SequenceProfile {
    Main,
    High,
    Professional,
}

impl SequenceProfile {
    /// The profile that a code stands for.
    pub open spec fn of_code(code: u8) -> Result<Self, ObuError> {
        match code {
            0 => Ok(Self::Main),
            1 => Ok(Self::High),
            2 => Ok(Self::Professional),
            _ => Err(ObuError::UnknownCode(ObuUnknownError::Profile)),
        }
    }

    /// The code of a profile.
    pub open spec fn code(self) -> u8 {
        match self {
            Self::Main => 0,
            Self::High => 1,
            Self::Professional => 2,
        }
    }
}

impl SequenceProfile {
    /// Codes 0, 1 and 2 stand for the main, the high and the professional
    /// profile, and no other code stands for a profile.
    pub proof fn lemma_codes(c: u8)
        ensures
            c == 0 ==> Self::of_code(c) == Ok::<Self, ObuError>(Self::Main),
            c == 1 ==> Self::of_code(c) == Ok::<Self, ObuError>(Self::High),
            c == 2 ==> Self::of_code(c) == Ok::<Self, ObuError>(Self::Professional),
            c >= 3 ==> Self::of_code(c) == Err::<Self, ObuError>(
                ObuError::UnknownCode(ObuUnknownError::Profile),
            ),
            Self::of_code(c) matches Ok(p) ==> p.code() == c,
    {
    }
}

impl TryFrom<u8> for SequenceProfile {
    type Error = ObuError;

    fn try_from(value: u8) -> (r: Result<Self, ObuError>) {
        Ok(
            match value {
                0 => Self::Main,
                1 => Self::High,
                2 => Self::Professional,
                _ => { return Err(ObuError::UnknownCode(ObuUnknownError::Profile)); },
            },
        )
    }
}

impl TryFromSpecImpl<u8> for SequenceProfile {
    open spec fn obeys_try_from_spec() -> bool {
        true
    }

    open spec fn try_from_spec(v: u8) -> Result<Self, ObuError> {
        Self::of_code(v)
    }
}

} // verus!
