//! The header of an OBU: one byte, and a second one where the first says so.

use vstd::prelude::*;
use vstd::arithmetic::power2::lemma2_to64;
use crate::bitstream::{bits_value, lemma_bits_value_bound, Decoded};
use crate::error::ObuError;
use crate::reader::BitReader;

verus! {

/// What an OBU holds.
#[derive(Debug, Clone, Copy, PartialEq, Eq, Structural)]
pub enum ObuKind {
    /// A code that has no meaning yet. Such a unit can be skipped.
    Reserved,
    SequenceHeader,
    TemporalDelimiter,
    FrameHeader,
    TileGroup,
    Metadata,
    Frame,
    RedundantFrameHeader,
    TileList,
    Padding,
}

/// The layer that an OBU belongs to.
#[derive(Debug, Clone, Copy, PartialEq, Eq, Structural)]
pub struct ObuHeaderExtension {
    pub temporal_id: u8,
    pub spatial_id: u8,
}

/// The header of an OBU.
#[derive(Debug, Clone, Copy, PartialEq, Eq, Structural)]
pub struct ObuHeader {
    pub kind: ObuKind,
    /// The second header byte, where the first one announces it.
    pub extension: Option<ObuHeaderExtension>,
    pub has_size_field: bool,
}

impl ObuKind {
    /// The kind that a code of four bits stands for.
    pub open spec fn of_code(code: u8) -> Self {
        match code {
            1 => Self::SequenceHeader,
            2 => Self::TemporalDelimiter,
            3 => Self::FrameHeader,
            4 => Self::TileGroup,
            5 => Self::Metadata,
            6 => Self::Frame,
            7 => Self::RedundantFrameHeader,
            8 => Self::TileList,
            15 => Self::Padding,
            _ => Self::Reserved,
        }
    }

    /// The kind that a code stands for.
    pub fn from_code(code: u8) -> (kind: Self)
        ensures
            kind == Self::of_code(code),
    {
        match code {
            1 => Self::SequenceHeader,
            2 => Self::TemporalDelimiter,
            3 => Self::FrameHeader,
            4 => Self::TileGroup,
            5 => Self::Metadata,
            6 => Self::Frame,
            7 => Self::RedundantFrameHeader,
            8 => Self::TileList,
            15 => Self::Padding,
            _ => Self::Reserved,
        }
    }
}

impl ObuHeaderExtension {
    /// The temporal layer is one of 8 and the spatial layer one of 4.
    pub open spec fn wf(self) -> bool {
        self.temporal_id < 8 && self.spatial_id < 4
    }

    /// The second header byte: three bits of temporal layer, two bits of
    /// spatial layer and three bits that say nothing.
    pub open spec fn spec_decode(s: Seq<bool>, pos: int) -> Decoded<Self> {
        if pos + 8 > s.len() {
            Err(ObuError::Truncated)
        } else {
            Ok(
                (
                    ObuHeaderExtension {
                        temporal_id: bits_value(s, pos, 3) as u8,
                        spatial_id: bits_value(s, pos + 3, 2) as u8,
                    },
                    pos + 8,
                ),
            )
        }
    }

    /// Reads the second header byte.
    pub fn decode(reader: &mut BitReader) -> (r: Result<Self, ObuError>)
        ensures
            old(reader).advanced(
                *final(reader),
                r,
                Self::spec_decode(old(reader).stream(), old(reader).position()),
            ),
            r matches Ok(ext) ==> ext.wf(),
    {
        proof {
            lemma2_to64();
            lemma_bits_value_bound(reader.stream(), reader.position(), 3);
            lemma_bits_value_bound(reader.stream(), reader.position() + 3, 2);
        }
        let temporal_id = reader.bits(3)? as u8;
        let spatial_id = reader.bits(2)? as u8;
        let _ = reader.bits(3)?;
        Ok(ObuHeaderExtension { temporal_id, spatial_id })
    }
}

impl ObuHeader {
    /// The extension, where there is one, names a layer that exists.
    pub open spec fn wf(self) -> bool {
        self.extension matches Some(ext) ==> ext.wf()
    }

    /// How many bytes the header takes.
    pub open spec fn len(self) -> nat {
        if self.extension is Some {
            2
        } else {
            1
        }
    }

    /// The header at `pos`: a forbidden bit that has to be clear, four bits
    /// of kind, the extension flag, the size field flag and a bit that says
    /// nothing; then the second byte where the extension flag is set.
    pub open spec fn spec_decode(s: Seq<bool>, pos: int) -> Decoded<Self> {
        if pos + 1 > s.len() {
            Err(ObuError::Truncated)
        } else if s[pos] {
            Err(ObuError::Framing)
        } else if pos + 8 > s.len() {
            Err(ObuError::Truncated)
        } else {
            let kind = ObuKind::of_code(bits_value(s, pos + 1, 4) as u8);
            let has_size_field = s[pos + 6];
            if !s[pos + 5] {
                Ok((ObuHeader { kind, extension: None, has_size_field }, pos + 8))
            } else {
                match ObuHeaderExtension::spec_decode(s, pos + 8) {
                    Err(e) => Err(e),
                    Ok((ext, end)) => Ok(
                        (ObuHeader { kind, extension: Some(ext), has_size_field }, end),
                    ),
                }
            }
        }
    }

    /// A decoded header is valid and takes one byte of the window, or two
    /// with its extension.
    pub proof fn lemma_decoded_valid(s: Seq<bool>, pos: int)
        ensures
            Self::spec_decode(s, pos) matches Ok((h, end)) ==> {
                &&& h.wf()
                &&& end == pos + 8 * h.len()
                &&& end <= s.len()
                &&& !s[pos]
            },
    {
        lemma2_to64();
        lemma_bits_value_bound(s, pos + 8, 3);
        lemma_bits_value_bound(s, pos + 11, 2);
    }

    /// Reads the header of an OBU.
    pub fn decode(reader: &mut BitReader) -> (r: Result<Self, ObuError>)
        ensures
            old(reader).advanced(
                *final(reader),
                r,
                Self::spec_decode(old(reader).stream(), old(reader).position()),
            ),
            r matches Ok(h) ==> {
                &&& h.wf()
                &&& final(reader).position() == old(reader).position() + 8 * h.len()
            },
    {
        if reader.bit()? {
            return Err(ObuError::Framing);
        }
        proof {
            lemma2_to64();
            lemma_bits_value_bound(reader.stream(), reader.position(), 4);
        }
        let kind = ObuKind::from_code(reader.bits(4)? as u8);
        let extension_flag = reader.bit()?;
        let has_size_field = reader.bit()?;
        let _ = reader.bit()?;
        let extension = if extension_flag {
            Some(ObuHeaderExtension::decode(reader)?)
        } else {
            None
        };
        Ok(ObuHeader { kind, extension, has_size_field })
    }
}

} // verus!
