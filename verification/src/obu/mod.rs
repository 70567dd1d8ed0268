//! Open Bitstream Units: the header, the size and the layer filter of each,
//! and the sequence header.

use vstd::prelude::*;
use crate::bitstream::{spec_leb128, Decoded};
use crate::context::DecodeContext;
use crate::error::ObuError;
use crate::reader::BitReader;

pub mod header;
pub mod profile;
pub mod color_codes;
pub mod color_config;
pub mod timing;
pub mod operating_point;
pub mod frame;
pub mod sequence_header;

pub use self::color_codes::{
    ChromaSamplePosition, ColorPrimaries, MatrixCoefficients, TransferCharacteristics,
};
pub use self::color_config::ColorConfig;
pub use self::header::{ObuHeader, ObuHeaderExtension, ObuKind};
pub use self::operating_point::OperatingPoint;
pub use self::profile::SequenceProfile;
pub use self::frame::FrameIdNumbersPresent;
pub use self::sequence_header::SequenceHeader;
pub use self::timing::{
    DecoderModelInfo, EqualPictureInterval, OperatingParametersInfo, TimingInfo,
};

verus! {

/// What the caller's session gives to the framer.
#[derive(Debug, Clone, Copy, PartialEq, Eq, Structural)]
pub struct DecoderSession {
    /// The length of each OBU, header included, for a stream whose OBUs
    /// carry no size field.
    pub obu_size: Option<usize>,
    /// Whether OBUs outside the chosen operating point are dropped.
    pub layer_filtering: bool,
    /// Index of the operating point that the caller chose.
    pub operating_point: usize,
    /// Layer mask of the chosen operating point, as the last sequence header
    /// resolved it.
    pub operating_point_idc: u16,
}

/// Open Bitstream Unit: its header and the number of payload bytes behind it.
#[derive(Debug, Clone, Copy, PartialEq, Eq, Structural)]
pub struct Obu {
    pub header: ObuHeader,
    pub size: usize,
}

/// What the framer makes of an OBU.
#[derive(Debug, Clone, Copy, PartialEq, Eq, Structural)]
pub enum ObuDecodeRet {
    /// The OBU is to be decoded.
    Obu(Obu),
    /// The OBU belongs to a layer outside the chosen operating point.
    Drop,
}

/// Whether a layer mask holds the temporal and the spatial layer of an
/// extension: bit `temporal_id`, and bit `spatial_id + 8`.
pub open spec fn in_operating_point(idc: u16, ext: ObuHeaderExtension) -> bool {
    (idc >> ext.temporal_id) & 1 == 1 && (idc >> ((ext.spatial_id + 8) as u8)) & 1 == 1
}

/// The empty layer mask holds no layer, and the mask of all twelve bits holds
/// every layer. A mask of one temporal and one spatial bit holds the layer of
/// these two and no other.
pub proof fn lemma_layer_masks(ext: ObuHeaderExtension, temporal_id: u8, spatial_id: u8)
    requires
        ext.wf(),
        temporal_id < 8,
        spatial_id < 4,
    ensures
        !in_operating_point(0, ext),
        in_operating_point(0xFFF, ext),
        in_operating_point((1u16 << temporal_id) | (1u16 << ((spatial_id + 8) as u8)), ext) <==> ext
            == (ObuHeaderExtension { temporal_id, spatial_id }),
{
    let t = ext.temporal_id;
    let u = (ext.spatial_id + 8) as u8;
    let a = temporal_id;
    let b = (spatial_id + 8) as u8;
    assert((0u16 >> t) & 1 == 0) by (bit_vector);
    assert((0xFFFu16 >> t) & 1 == 1) by (bit_vector)
        requires
            t < 8,
    ;
    assert((0xFFFu16 >> u) & 1 == 1) by (bit_vector)
        requires
            8 <= u < 12,
    ;
    assert((((1u16 << a) | (1u16 << b)) >> t) & 1 == 1 <==> t == a) by (bit_vector)
        requires
            t < 8,
            a < 8,
            8 <= b < 12,
    ;
    assert((((1u16 << a) | (1u16 << b)) >> u) & 1 == 1 <==> u == b) by (bit_vector)
        requires
            8 <= u < 12,
            a < 8,
            8 <= b < 12,
    ;
}

/// Whether a layer mask holds both layers of an extension.
pub fn layers_enabled(idc: u16, ext: &ObuHeaderExtension) -> (r: bool)
    requires
        ext.wf(),
    ensures
        r == in_operating_point(idc, *ext),
{
    let in_temporal_layer = (idc >> ext.temporal_id) & 1;
    let in_spatial_layer = (idc >> (ext.spatial_id + 8)) & 1;
    in_temporal_layer == 1 && in_spatial_layer == 1
}

impl DecoderSession {
    /// A session before any sequence header.
    pub fn new(obu_size: Option<usize>, layer_filtering: bool, operating_point: usize) -> (session:
        Self)
        ensures
            session == (DecoderSession {
                obu_size,
                layer_filtering,
                operating_point,
                operating_point_idc: 0,
            }),
    {
        DecoderSession { obu_size, layer_filtering, operating_point, operating_point_idc: 0 }
    }

    /// The context for the decode calls of this session's stream, before any
    /// sequence header.
    pub fn context(&self) -> (ctx: DecodeContext)
        ensures
            ctx == (DecodeContext {
                bit_depth: 8,
                num_planes: 3,
                order_hint_bits: 0,
                operating_point: self.operating_point,
                operating_point_idc: 0,
            }),
    {
        DecodeContext::new(self.operating_point)
    }

    /// Takes over the layer mask that a sequence header left in the context.
    pub fn resolve(&mut self, ctx: &DecodeContext)
        ensures
            *final(self) == (DecoderSession {
                operating_point_idc: ctx.operating_point_idc,
                ..*old(self)
            }),
    {
        self.operating_point_idc = ctx.operating_point_idc;
    }

    /// Whether the layer filter drops an OBU with this header: it is neither
    /// a sequence header nor a temporal delimiter, the filter is on, and the
    /// header has an extension whose layers the layer mask does not both hold.
    pub open spec fn drops(self, header: ObuHeader) -> bool {
        &&& header.kind != ObuKind::SequenceHeader
        &&& header.kind != ObuKind::TemporalDelimiter
        &&& self.layer_filtering
        &&& header.extension matches Some(ext) && !in_operating_point(self.operating_point_idc, ext)
    }

    /// The number of payload bytes of an OBU whose header ends at `pos`. A
    /// header with a size field is followed by that number in little-endian
    /// base 128. Behind any other, it is the configured length less the
    /// header's.
    pub open spec fn spec_size(self, s: Seq<bool>, pos: int, header: ObuHeader) -> Decoded<usize> {
        if header.has_size_field {
            match spec_leb128(s, pos) {
                Err(e) => Err(e),
                Ok((v, end)) => if v > usize::MAX {
                    Err(ObuError::Overflow)
                } else {
                    Ok((v as usize, end))
                },
            }
        } else {
            match self.obu_size {
                Some(total) if total >= header.len() => Ok(((total - header.len()) as usize, pos)),
                _ => Err(ObuError::ConfigurationError),
            }
        }
    }
}

impl Obu {
    /// The OBU at `pos`: header and size, and whether the layer filter drops it.
    pub open spec fn spec_decode(session: DecoderSession, s: Seq<bool>, pos: int) -> Decoded<
        ObuDecodeRet,
    > {
        match ObuHeader::spec_decode(s, pos) {
            Err(e) => Err(e),
            Ok((header, pos1)) => match session.spec_size(s, pos1, header) {
                Err(e) => Err(e),
                Ok((size, end)) => Ok(
                    (
                        if session.drops(header) {
                            ObuDecodeRet::Drop
                        } else {
                            ObuDecodeRet::Obu(Obu { header, size })
                        },
                        end,
                    ),
                ),
            },
        }
    }

    /// The layer filter on an OBU whose header has an extension. Where the
    /// layer mask holds the temporal and the spatial layer of the extension,
    /// the OBU is handed out. Where it lacks one of them, the filter is on
    /// and the OBU is neither a sequence header nor a temporal delimiter, the
    /// OBU is dropped. Either way the cursor stands behind header and size,
    /// in front of the payload.
    pub proof fn lemma_layer_filter(session: DecoderSession, s: Seq<bool>, pos: int)
        requires
            Self::spec_decode(session, s, pos) is Ok,
            ObuHeader::spec_decode(s, pos) matches Ok((header, pos1)) && header.extension is Some,
        ensures
            ({
                let (ret, end) = Self::spec_decode(session, s, pos)->Ok_0;
                let (header, pos1) = ObuHeader::spec_decode(s, pos)->Ok_0;
                let ext = header.extension->Some_0;
                let (size, pos2) = session.spec_size(s, pos1, header)->Ok_0;
                &&& session.spec_size(s, pos1, header) is Ok
                &&& end == pos2
                &&& in_operating_point(session.operating_point_idc, ext) ==> ret == ObuDecodeRet::Obu(
                    Obu { header, size },
                )
                &&& !in_operating_point(session.operating_point_idc, ext) && session.layer_filtering
                    && header.kind != ObuKind::SequenceHeader && header.kind
                    != ObuKind::TemporalDelimiter ==> ret == ObuDecodeRet::Drop
            }),
    {
    }

    /// Reads the number of payload bytes behind a header.
    fn size(session: &DecoderSession, reader: &mut BitReader, header: &ObuHeader) -> (r: Result<
        usize,
        ObuError,
    >)
        ensures
            old(reader).advanced(
                *final(reader),
                r,
                session.spec_size(old(reader).stream(), old(reader).position(), *header),
            ),
    {
        proof {
            use_type_invariant(&*reader);
            reader.lemma_position_in_window();
        }
        if header.has_size_field {
            let v = reader.leb128()?;
            if v > usize::MAX as u64 {
                return Err(ObuError::Overflow);
            }
            Ok(v as usize)
        } else {
            let header_len: usize = if header.extension.is_some() {
                2
            } else {
                1
            };
            match session.obu_size {
                Some(total) if total >= header_len => Ok(total - header_len),
                _ => Err(ObuError::ConfigurationError),
            }
        }
    }

    /// Reads the header and the size of the next OBU and applies the layer
    /// filter. The payload is left unread, whether the OBU is dropped or not.
    pub fn decode(session: &DecoderSession, reader: &mut BitReader) -> (r: Result<
        ObuDecodeRet,
        ObuError,
    >)
        ensures
            old(reader).advanced(
                *final(reader),
                r,
                Self::spec_decode(*session, old(reader).stream(), old(reader).position()),
            ),
            r matches Ok(ObuDecodeRet::Obu(obu)) ==> obu.header.wf() && !session.drops(obu.header),
            r is Ok ==> {
                &&& ObuHeader::spec_decode(old(reader).stream(), old(reader).position()) matches Ok(
                    (header, pos1),
                )
                &&& session.spec_size(old(reader).stream(), pos1, header) matches Ok((size, end))
                &&& final(reader).position() == end
                &&& (r matches Ok(ObuDecodeRet::Drop) <==> session.drops(header))
            },
    {
        let header = ObuHeader::decode(reader)?;
        let size = Self::size(session, reader, &header)?;
        if header.kind != ObuKind::SequenceHeader && header.kind != ObuKind::TemporalDelimiter
            && session.layer_filtering {
            if let Some(ext) = header.extension {
                if !layers_enabled(session.operating_point_idc, &ext) {
                    return Ok(ObuDecodeRet::Drop);
                }
            }
        }
        Ok(ObuDecodeRet::Obu(Obu { header, size }))
    }
}

} // verus!
