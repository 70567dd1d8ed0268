//! The colour description enumerations and their code tables.

use vstd::prelude::*;
use vstd::std_specs::convert::TryFromSpecImpl;
use crate::error::{ObuError, ObuUnknownError};

verus! {

/// The colour primaries of the source.
#[derive(Debug, Clone, Copy, PartialEq, Eq, Structural)]
pub enum ColorPrimaries {
    Bt709,
    Unspecified,
    Bt470M,
    Bt470BG,
    Bt601,
    Smpte240,
    GenericFilm,
    Bt2020,
    Xyz,
    Smpte431,
    Smpte432,
    Ebu3213,
}

impl ColorPrimaries {
    /// The value that a code stands for.
    pub open spec fn of_code(code: u8) -> Result<Self, ObuError> {
        match code {
            1 => Ok(Self::Bt709),
            2 => Ok(Self::Unspecified),
            4 => Ok(Self::Bt470M),
            5 => Ok(Self::Bt470BG),
            6 => Ok(Self::Bt601),
            7 => Ok(Self::Smpte240),
            8 => Ok(Self::GenericFilm),
            9 => Ok(Self::Bt2020),
            10 => Ok(Self::Xyz),
            11 => Ok(Self::Smpte431),
            12 => Ok(Self::Smpte432),
            22 => Ok(Self::Ebu3213),
            _ => Err(ObuError::UnknownCode(ObuUnknownError::ColorPrimaries)),
        }
    }

    /// The code of a value.
    pub open spec fn code(self) -> u8 {
        match self {
            Self::Bt709 => 1,
            Self::Unspecified => 2,
            Self::Bt470M => 4,
            Self::Bt470BG => 5,
            Self::Bt601 => 6,
            Self::Smpte240 => 7,
            Self::GenericFilm => 8,
            Self::Bt2020 => 9,
            Self::Xyz => 10,
            Self::Smpte431 => 11,
            Self::Smpte432 => 12,
            Self::Ebu3213 => 22,
        }
    }
}

impl ColorPrimaries {
    /// The table is one to one: a value's code stands for that value, and a
    /// code that stands for a value is that value's code.
    pub proof fn lemma_code_round_trip(v: Self, c: u8)
        ensures
            Self::of_code(v.code()) == Ok::<Self, ObuError>(v),
            Self::of_code(c) matches Ok(w) ==> w.code() == c,
    {
    }
}

impl TryFrom<u8> for ColorPrimaries {
    type Error = ObuError;

    fn try_from(value: u8) -> (r: Result<Self, ObuError>) {
        Ok(
            match value {
                1 => Self::Bt709,
                2 => Self::Unspecified,
                4 => Self::Bt470M,
                5 => Self::Bt470BG,
                6 => Self::Bt601,
                7 => Self::Smpte240,
                8 => Self::GenericFilm,
                9 => Self::Bt2020,
                10 => Self::Xyz,
                11 => Self::Smpte431,
                12 => Self::Smpte432,
                22 => Self::Ebu3213,
                _ => { return Err(ObuError::UnknownCode(ObuUnknownError::ColorPrimaries)); },
            },
        )
    }
}

impl TryFromSpecImpl<u8> for ColorPrimaries {
    open spec fn obeys_try_from_spec() -> bool {
        true
    }

    open spec fn try_from_spec(v: u8) -> Result<Self, ObuError> {
        Self::of_code(v)
    }
}

/// The opto-electronic transfer function of the source.
#[derive(Debug, Clone, Copy, PartialEq, Eq, Structural)]
pub enum TransferCharacteristics {
    Bt709,
    Unspecified,
    Bt470M,
    Bt470BG,
    Bt601,
    Smpte240,
    Linear,
    Log100,
    Log100Sqrt10,
    Iec61966,
    Bt1361,
    Srgb,
    Bt202010Bit,
    Bt202012Bit,
    Smpte2084,
    Smpte428,
    Hlg,
}

impl TransferCharacteristics {
    /// The value that a code stands for.
    pub open spec fn of_code(code: u8) -> Result<Self, ObuError> {
        match code {
            1 => Ok(Self::Bt709),
            2 => Ok(Self::Unspecified),
            4 => Ok(Self::Bt470M),
            5 => Ok(Self::Bt470BG),
            6 => Ok(Self::Bt601),
            7 => Ok(Self::Smpte240),
            8 => Ok(Self::Linear),
            9 => Ok(Self::Log100),
            10 => Ok(Self::Log100Sqrt10),
            11 => Ok(Self::Iec61966),
            12 => Ok(Self::Bt1361),
            13 => Ok(Self::Srgb),
            14 => Ok(Self::Bt202010Bit),
            15 => Ok(Self::Bt202012Bit),
            16 => Ok(Self::Smpte2084),
            17 => Ok(Self::Smpte428),
            18 => Ok(Self::Hlg),
            _ => Err(ObuError::UnknownCode(ObuUnknownError::TransferCharacteristics)),
        }
    }

    /// The code of a value.
    pub open spec fn code(self) -> u8 {
        match self {
            Self::Bt709 => 1,
            Self::Unspecified => 2,
            Self::Bt470M => 4,
            Self::Bt470BG => 5,
            Self::Bt601 => 6,
            Self::Smpte240 => 7,
            Self::Linear => 8,
            Self::Log100 => 9,
            Self::Log100Sqrt10 => 10,
            Self::Iec61966 => 11,
            Self::Bt1361 => 12,
            Self::Srgb => 13,
            Self::Bt202010Bit => 14,
            Self::Bt202012Bit => 15,
            Self::Smpte2084 => 16,
            Self::Smpte428 => 17,
            Self::Hlg => 18,
        }
    }
}

impl TransferCharacteristics {
    /// The table is one to one: a value's code stands for that value, and a
    /// code that stands for a value is that value's code.
    pub proof fn lemma_code_round_trip(v: Self, c: u8)
        ensures
            Self::of_code(v.code()) == Ok::<Self, ObuError>(v),
            Self::of_code(c) matches Ok(w) ==> w.code() == c,
    {
    }
}

impl TryFrom<u8> for TransferCharacteristics {
    type Error = ObuError;

    fn try_from(value: u8) -> (r: Result<Self, ObuError>) {
        Ok(
            match value {
                1 => Self::Bt709,
                2 => Self::Unspecified,
                4 => Self::Bt470M,
                5 => Self::Bt470BG,
                6 => Self::Bt601,
                7 => Self::Smpte240,
                8 => Self::Linear,
                9 => Self::Log100,
                10 => Self::Log100Sqrt10,
                11 => Self::Iec61966,
                12 => Self::Bt1361,
                13 => Self::Srgb,
                14 => Self::Bt202010Bit,
                15 => Self::Bt202012Bit,
                16 => Self::Smpte2084,
                17 => Self::Smpte428,
                18 => Self::Hlg,
                _ => {
                    return Err(ObuError::UnknownCode(ObuUnknownError::TransferCharacteristics));
                },
            },
        )
    }
}

impl TryFromSpecImpl<u8> for TransferCharacteristics {
    open spec fn obeys_try_from_spec() -> bool {
        true
    }

    open spec fn try_from_spec(v: u8) -> Result<Self, ObuError> {
        Self::of_code(v)
    }
}

/// The matrix that derives luma and chroma from the primaries.
#[derive(Debug, Clone, Copy, PartialEq, Eq, Structural)]
pub enum MatrixCoefficients {
    Identity,
    Bt709,
    Unspecified,
    Fcc,
    Bt470BG,
    Bt601,
    Smpte240,
    SmpteYcgco,
    Bt2020Ncl,
    Bt2020Cl,
    Smpte2085,
    ChromatNcl,
    ChromatCl,
    Ictcp,
}

impl MatrixCoefficients {
    /// The value that a code stands for.
    pub open spec fn of_code(code: u8) -> Result<Self, ObuError> {
        match code {
            0 => Ok(Self::Identity),
            1 => Ok(Self::Bt709),
            2 => Ok(Self::Unspecified),
            4 => Ok(Self::Fcc),
            5 => Ok(Self::Bt470BG),
            6 => Ok(Self::Bt601),
            7 => Ok(Self::Smpte240),
            8 => Ok(Self::SmpteYcgco),
            9 => Ok(Self::Bt2020Ncl),
            10 => Ok(Self::Bt2020Cl),
            11 => Ok(Self::Smpte2085),
            12 => Ok(Self::ChromatNcl),
            13 => Ok(Self::ChromatCl),
            14 => Ok(Self::Ictcp),
            _ => Err(ObuError::UnknownCode(ObuUnknownError::MatrixCoefficients)),
        }
    }

    /// The code of a value.
    pub open spec fn code(self) -> u8 {
        match self {
            Self::Identity => 0,
            Self::Bt709 => 1,
            Self::Unspecified => 2,
            Self::Fcc => 4,
            Self::Bt470BG => 5,
            Self::Bt601 => 6,
            Self::Smpte240 => 7,
            Self::SmpteYcgco => 8,
            Self::Bt2020Ncl => 9,
            Self::Bt2020Cl => 10,
            Self::Smpte2085 => 11,
            Self::ChromatNcl => 12,
            Self::ChromatCl => 13,
            Self::Ictcp => 14,
        }
    }
}

impl MatrixCoefficients {
    /// The table is one to one: a value's code stands for that value, and a
    /// code that stands for a value is that value's code.
    pub proof fn lemma_code_round_trip(v: Self, c: u8)
        ensures
            Self::of_code(v.code()) == Ok::<Self, ObuError>(v),
            Self::of_code(c) matches Ok(w) ==> w.code() == c,
    {
    }
}

impl TryFrom<u8> for MatrixCoefficients {
    type Error = ObuError;

    fn try_from(value: u8) -> (r: Result<Self, ObuError>) {
        Ok(
            match value {
                0 => Self::Identity,
                1 => Self::Bt709,
                2 => Self::Unspecified,
                4 => Self::Fcc,
                5 => Self::Bt470BG,
                6 => Self::Bt601,
                7 => Self::Smpte240,
                8 => Self::SmpteYcgco,
                9 => Self::Bt2020Ncl,
                10 => Self::Bt2020Cl,
                11 => Self::Smpte2085,
                12 => Self::ChromatNcl,
                13 => Self::ChromatCl,
                14 => Self::Ictcp,
                _ => { return Err(ObuError::UnknownCode(ObuUnknownError::MatrixCoefficients)); },
            },
        )
    }
}

impl TryFromSpecImpl<u8> for MatrixCoefficients {
    open spec fn obeys_try_from_spec() -> bool {
        true
    }

    open spec fn try_from_spec(v: u8) -> Result<Self, ObuError> {
        Self::of_code(v)
    }
}

/// Where the chroma samples lie relative to the luma samples.
#[derive(Debug, Clone, Copy, PartialEq, Eq, Structural)]
pub enum ChromaSamplePosition {
    Unknown,
    Vertical,
    Colocated,
}

impl ChromaSamplePosition {
    /// The value that a code stands for.
    pub open spec fn of_code(code: u8) -> Result<Self, ObuError> {
        match code {
            0 => Ok(Self::Unknown),
            1 => Ok(Self::Vertical),
            2 => Ok(Self::Colocated),
            _ => Err(ObuError::UnknownCode(ObuUnknownError::ChromaSamplePosition)),
        }
    }

    /// The code of a value.
    pub open spec fn code(self) -> u8 {
        match self {
            Self::Unknown => 0,
            Self::Vertical => 1,
            Self::Colocated => 2,
        }
    }
}

impl ChromaSamplePosition {
    /// The table is one to one: a value's code stands for that value, and a
    /// code that stands for a value is that value's code.
    pub proof fn lemma_code_round_trip(v: Self, c: u8)
        ensures
            Self::of_code(v.code()) == Ok::<Self, ObuError>(v),
            Self::of_code(c) matches Ok(w) ==> w.code() == c,
    {
    }
}

impl TryFrom<u8> for ChromaSamplePosition {
    type Error = ObuError;

    fn try_from(value: u8) -> (r: Result<Self, ObuError>) {
        Ok(
            match value {
                0 => Self::Unknown,
                1 => Self::Vertical,
                2 => Self::Colocated,
                _ => { return Err(ObuError::UnknownCode(ObuUnknownError::ChromaSamplePosition)); },
            },
        )
    }
}

impl TryFromSpecImpl<u8> for ChromaSamplePosition {
    open spec fn obeys_try_from_spec() -> bool {
        true
    }

    open spec fn try_from_spec(v: u8) -> Result<Self, ObuError> {
        Self::of_code(v)
    }
}

} // verus!
