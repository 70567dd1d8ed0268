//! The colour configuration of a sequence: bit depth, chroma subsampling and
//! colour description.

use vstd::prelude::*;
use vstd::arithmetic::power2::lemma2_to64;
use crate::bitstream::{spec_bit, spec_bits, lemma_bits_value_bound, Decoded};
use crate::context::DecodeContext;
use crate::error::ObuError;
use crate::obu::color_codes::{
    ChromaSamplePosition, ColorPrimaries, MatrixCoefficients, TransferCharacteristics,
};
use crate::obu::profile::SequenceProfile;
use crate::reader::BitReader;

verus! {

/// The three colour description values of a sequence.
#[derive(Debug, Clone, Copy, PartialEq, Eq, Structural)]
pub struct ColorDescription {
    /// Whether the stream carries the three values.
    pub present: bool,
    pub color_primaries: ColorPrimaries,
    pub transfer_characteristics: TransferCharacteristics,
    pub matrix_coefficients: MatrixCoefficients,
}

/// The sample range and the chroma layout of a sequence.
#[derive(Debug, Clone, Copy, PartialEq, Eq, Structural)]
pub struct ChromaFormat {
    pub color_range: bool,
    pub subsampling_x: bool,
    pub subsampling_y: bool,
    pub chroma_sample_position: Option<ChromaSamplePosition>,
    pub separate_uv_delta_q: bool,
}

/// The colour configuration of a sequence.
#[derive(Debug, Clone, Copy, PartialEq, Eq, Structural)]
pub struct ColorConfig {
    pub high_bitdepth: bool,
    pub twelve_bit: bool,
    pub mono_chrome: bool,
    pub color_description_present: bool,
    pub color_primaries: ColorPrimaries,
    pub transfer_characteristics: TransferCharacteristics,
    pub matrix_coefficients: MatrixCoefficients,
    pub color_range: bool,
    pub subsampling_x: bool,
    pub subsampling_y: bool,
    pub chroma_sample_position: Option<ChromaSamplePosition>,
    pub separate_uv_delta_q: bool,
}

/// A field of `n` bits at `pos` that is looked up in a code table.
pub open spec fn spec_coded<T>(
    s: Seq<bool>,
    pos: int,
    n: nat,
    table: spec_fn(u8) -> Result<T, ObuError>,
) -> Decoded<T> {
    match spec_bits(s, pos, n) {
        Err(e) => Err(e),
        Ok((code, end)) => match table(code as u8) {
            Err(e) => Err(e),
            Ok(v) => Ok((v, end)),
        },
    }
}

impl ColorDescription {
    /// The description of a stream that carries none.
    pub open spec fn unspecified() -> Self {
        ColorDescription {
            present: false,
            color_primaries: ColorPrimaries::Unspecified,
            transfer_characteristics: TransferCharacteristics::Unspecified,
            matrix_coefficients: MatrixCoefficients::Unspecified,
        }
    }

    /// A stream that carries no description leaves all three values unspecified.
    pub open spec fn wf(self) -> bool {
        !self.present ==> self == Self::unspecified()
    }

    /// Full-range sRGB with the identity matrix.
    pub open spec fn is_srgb_identity(self) -> bool {
        &&& self.color_primaries == ColorPrimaries::Bt709
        &&& self.transfer_characteristics == TransferCharacteristics::Srgb
        &&& self.matrix_coefficients == MatrixCoefficients::Identity
    }

    /// A presence bit and, where it is set, three codes of eight bits:
    /// primaries, transfer characteristics, matrix coefficients.
    #[verifier::opaque]
    pub open spec fn spec_decode(s: Seq<bool>, pos: int) -> Decoded<Self> {
        match spec_bit(s, pos) {
            Err(e) => Err(e),
            Ok((present, pos0)) => if !present {
                Ok((Self::unspecified(), pos0))
            } else {
                match spec_coded(s, pos0, 8, |c: u8| ColorPrimaries::of_code(c)) {
                    Err(e) => Err(e),
                    Ok((color_primaries, pos1)) => match spec_coded(
                        s,
                        pos1,
                        8,
                        |c: u8| TransferCharacteristics::of_code(c),
                    ) {
                        Err(e) => Err(e),
                        Ok((transfer_characteristics, pos2)) => match spec_coded(
                            s,
                            pos2,
                            8,
                            |c: u8| MatrixCoefficients::of_code(c),
                        ) {
                            Err(e) => Err(e),
                            Ok((matrix_coefficients, pos3)) => Ok(
                                (
                                    ColorDescription {
                                        present,
                                        color_primaries,
                                        transfer_characteristics,
                                        matrix_coefficients,
                                    },
                                    pos3,
                                ),
                            ),
                        },
                    },
                }
            },
        }
    }

    /// Reads the colour description.
    pub fn decode(reader: &mut BitReader) -> (r: Result<Self, ObuError>)
        ensures
            old(reader).advanced(
                *final(reader),
                r,
                Self::spec_decode(old(reader).stream(), old(reader).position()),
            ),
            r matches Ok(d) ==> d.wf(),
    {
        reveal(ColorDescription::spec_decode);
        let present = reader.bit()?;
        if !present {
            return Ok(
                ColorDescription {
                    present,
                    color_primaries: ColorPrimaries::Unspecified,
                    transfer_characteristics: TransferCharacteristics::Unspecified,
                    matrix_coefficients: MatrixCoefficients::Unspecified,
                },
            );
        }
        let ghost s = reader.stream();
        let ghost pos0 = reader.position();
        proof {
            lemma2_to64();
            lemma_bits_value_bound(s, pos0, 8);
            lemma_bits_value_bound(s, pos0 + 8, 8);
            lemma_bits_value_bound(s, pos0 + 16, 8);
        }
        let color_primaries = ColorPrimaries::try_from(reader.bits(8)? as u8)?;
        let transfer_characteristics = TransferCharacteristics::try_from(reader.bits(8)? as u8)?;
        let matrix_coefficients = MatrixCoefficients::try_from(reader.bits(8)? as u8)?;
        Ok(
            ColorDescription {
                present,
                color_primaries,
                transfer_characteristics,
                matrix_coefficients,
            },
        )
    }
}

impl ChromaFormat {
    /// What holds of every decoded chroma format, for the values it was
    /// decoded under.
    pub open spec fn wf(
        self,
        profile: SequenceProfile,
        bit_depth: u8,
        mono_chrome: bool,
        srgb_identity: bool,
    ) -> bool {
        &&& self.chroma_sample_position is Some <==> self.subsampling_x && self.subsampling_y
        &&& mono_chrome ==> {
            &&& self.subsampling_x
            &&& self.subsampling_y
            &&& self.chroma_sample_position == Some(ChromaSamplePosition::Unknown)
            &&& !self.separate_uv_delta_q
        }
        &&& !mono_chrome && srgb_identity ==> {
            &&& self.color_range
            &&& !self.subsampling_x
            &&& !self.subsampling_y
        }
        &&& !mono_chrome && !srgb_identity ==> match profile {
            SequenceProfile::Main => self.subsampling_x && self.subsampling_y,
            SequenceProfile::High => !self.subsampling_x && !self.subsampling_y,
            SequenceProfile::Professional => if bit_depth == 12 {
                self.subsampling_y ==> self.subsampling_x
            } else {
                self.subsampling_x && !self.subsampling_y
            },
        }
    }

    /// The subsampling flags that the profile fixes, or that two bits give
    /// for the professional profile at twelve bits.
    pub open spec fn spec_subsampling(
        s: Seq<bool>,
        pos: int,
        profile: SequenceProfile,
        bit_depth: u8,
    ) -> Decoded<(bool, bool)> {
        match profile {
            SequenceProfile::Main => Ok(((true, true), pos)),
            SequenceProfile::High => Ok(((false, false), pos)),
            SequenceProfile::Professional => if bit_depth == 12 {
                match spec_bit(s, pos) {
                    Err(e) => Err(e),
                    Ok((x, pos1)) => if x {
                        match spec_bit(s, pos1) {
                            Err(e) => Err(e),
                            Ok((y, pos2)) => Ok(((x, y), pos2)),
                        }
                    } else {
                        Ok(((x, false), pos1))
                    },
                }
            } else {
                Ok(((true, false), pos))
            },
        }
    }

    /// The chroma sample position, a code of two bits that is there where
    /// both directions are subsampled.
    pub open spec fn spec_chroma_sample_position(
        s: Seq<bool>,
        pos: int,
        subsampling_x: bool,
        subsampling_y: bool,
    ) -> Decoded<Option<ChromaSamplePosition>> {
        if subsampling_x && subsampling_y {
            match spec_coded(s, pos, 2, |c: u8| ChromaSamplePosition::of_code(c)) {
                Err(e) => Err(e),
                Ok((v, end)) => Ok((Some(v), end)),
            }
        } else {
            Ok((None, pos))
        }
    }

    /// The part of the colour configuration behind the colour description.
    /// A monochrome stream has a range bit and nothing else. Full-range sRGB
    /// with the identity matrix has no range bit and no subsampling.
    #[verifier::opaque]
    pub open spec fn spec_decode(
        s: Seq<bool>,
        pos: int,
        profile: SequenceProfile,
        bit_depth: u8,
        mono_chrome: bool,
        srgb_identity: bool,
    ) -> Decoded<Self> {
        if mono_chrome {
            match spec_bit(s, pos) {
                Err(e) => Err(e),
                Ok((color_range, end)) => Ok(
                    (
                        ChromaFormat {
                            color_range,
                            subsampling_x: true,
                            subsampling_y: true,
                            chroma_sample_position: Some(ChromaSamplePosition::Unknown),
                            separate_uv_delta_q: false,
                        },
                        end,
                    ),
                ),
            }
        } else if srgb_identity {
            match spec_bit(s, pos) {
                Err(e) => Err(e),
                Ok((separate_uv_delta_q, end)) => Ok(
                    (
                        ChromaFormat {
                            color_range: true,
                            subsampling_x: false,
                            subsampling_y: false,
                            chroma_sample_position: None,
                            separate_uv_delta_q,
                        },
                        end,
                    ),
                ),
            }
        } else {
            match spec_bit(s, pos) {
                Err(e) => Err(e),
                Ok((color_range, pos1)) => match Self::spec_subsampling(s, pos1, profile, bit_depth) {
                    Err(e) => Err(e),
                    Ok(((subsampling_x, subsampling_y), pos2)) => match Self::spec_chroma_sample_position(
                        s,
                        pos2,
                        subsampling_x,
                        subsampling_y,
                    ) {
                        Err(e) => Err(e),
                        Ok((chroma_sample_position, pos3)) => match spec_bit(s, pos3) {
                            Err(e) => Err(e),
                            Ok((separate_uv_delta_q, pos4)) => Ok(
                                (
                                    ChromaFormat {
                                        color_range,
                                        subsampling_x,
                                        subsampling_y,
                                        chroma_sample_position,
                                        separate_uv_delta_q,
                                    },
                                    pos4,
                                ),
                            ),
                        },
                    },
                },
            }
        }
    }

    /// Reads the part of the colour configuration behind the colour description.
    pub fn decode(
        reader: &mut BitReader,
        profile: SequenceProfile,
        bit_depth: u8,
        mono_chrome: bool,
        srgb_identity: bool,
    ) -> (r: Result<Self, ObuError>)
        ensures
            old(reader).advanced(
                *final(reader),
                r,
                Self::spec_decode(
                    old(reader).stream(),
                    old(reader).position(),
                    profile,
                    bit_depth,
                    mono_chrome,
                    srgb_identity,
                ),
            ),
            r matches Ok(f) ==> f.wf(profile, bit_depth, mono_chrome, srgb_identity),
    {
        reveal(ChromaFormat::spec_decode);
        if mono_chrome {
            let color_range = reader.bit()?;
            return Ok(
                ChromaFormat {
                    color_range,
                    subsampling_x: true,
                    subsampling_y: true,
                    chroma_sample_position: Some(ChromaSamplePosition::Unknown),
                    separate_uv_delta_q: false,
                },
            );
        }
        let color_range;
        let mut subsampling_x = false;
        let mut subsampling_y = false;
        let mut chroma_sample_position = None;
        if srgb_identity {
            color_range = true;
        } else {
            color_range = reader.bit()?;
            match profile {
                SequenceProfile::Main => {
                    subsampling_x = true;
                    subsampling_y = true;
                },
                SequenceProfile::High => {},
                SequenceProfile::Professional => {
                    if bit_depth == 12 {
                        subsampling_x = reader.bit()?;
                        if subsampling_x {
                            subsampling_y = reader.bit()?;
                        }
                    } else {
                        subsampling_x = true;
                    }
                },
            }
            if subsampling_x && subsampling_y {
                proof {
                    lemma2_to64();
                    lemma_bits_value_bound(reader.stream(), reader.position(), 2);
                }
                let code = reader.bits(2)? as u8;
                chroma_sample_position = Some(ChromaSamplePosition::try_from(code)?);
            }
        }
        let separate_uv_delta_q = reader.bit()?;
        Ok(
            ChromaFormat {
                color_range,
                subsampling_x,
                subsampling_y,
                chroma_sample_position,
                separate_uv_delta_q,
            },
        )
    }
}

impl ColorConfig {
    /// The bits per sample that the two depth flags stand for.
    pub open spec fn depth_of(high_bitdepth: bool, twelve_bit: bool) -> u8 {
        if twelve_bit {
            12
        } else if high_bitdepth {
            10
        } else {
            8
        }
    }

    /// The bits per sample.
    pub open spec fn bit_depth(self) -> u8 {
        Self::depth_of(self.high_bitdepth, self.twelve_bit)
    }

    /// The number of colour planes.
    pub open spec fn num_planes(self) -> u8 {
        if self.mono_chrome {
            1
        } else {
            3
        }
    }

    /// The colour description in this configuration.
    pub open spec fn description(self) -> ColorDescription {
        ColorDescription {
            present: self.color_description_present,
            color_primaries: self.color_primaries,
            transfer_characteristics: self.transfer_characteristics,
            matrix_coefficients: self.matrix_coefficients,
        }
    }

    /// The range and chroma layout in this configuration.
    pub open spec fn format(self) -> ChromaFormat {
        ChromaFormat {
            color_range: self.color_range,
            subsampling_x: self.subsampling_x,
            subsampling_y: self.subsampling_y,
            chroma_sample_position: self.chroma_sample_position,
            separate_uv_delta_q: self.separate_uv_delta_q,
        }
    }

    /// What holds of every decoded configuration, under a given profile.
    pub open spec fn wf(self, profile: SequenceProfile) -> bool {
        &&& self.twelve_bit ==> self.high_bitdepth && profile == SequenceProfile::Professional
        &&& profile == SequenceProfile::High ==> !self.mono_chrome
        &&& self.description().wf()
        &&& self.format().wf(
            profile,
            self.bit_depth(),
            self.mono_chrome,
            self.description().is_srgb_identity(),
        )
    }

    /// The depth flags: one bit, and a second one for the professional profile
    /// where the first is set.
    pub open spec fn spec_depth_flags(s: Seq<bool>, pos: int, profile: SequenceProfile) -> Decoded<
        (bool, bool),
    > {
        match spec_bit(s, pos) {
            Err(e) => Err(e),
            Ok((high_bitdepth, pos1)) => if profile == SequenceProfile::Professional && high_bitdepth {
                match spec_bit(s, pos1) {
                    Err(e) => Err(e),
                    Ok((twelve_bit, pos2)) => Ok(((high_bitdepth, twelve_bit), pos2)),
                }
            } else {
                Ok(((high_bitdepth, false), pos1))
            },
        }
    }

    /// The monochrome flag: one bit, but for the high profile, which has none.
    pub open spec fn spec_mono_chrome(s: Seq<bool>, pos: int, profile: SequenceProfile) -> Decoded<
        bool,
    > {
        if profile == SequenceProfile::High {
            Ok((false, pos))
        } else {
            spec_bit(s, pos)
        }
    }

    /// The colour description and what follows it, for given depth flags and
    /// monochrome flag.
    pub open spec fn spec_rest(
        s: Seq<bool>,
        pos: int,
        profile: SequenceProfile,
        high_bitdepth: bool,
        twelve_bit: bool,
        mono_chrome: bool,
    ) -> Decoded<Self> {
        match ColorDescription::spec_decode(s, pos) {
            Err(e) => Err(e),
            Ok((d, pos1)) => match ChromaFormat::spec_decode(
                s,
                pos1,
                profile,
                Self::depth_of(high_bitdepth, twelve_bit),
                mono_chrome,
                d.is_srgb_identity(),
            ) {
                Err(e) => Err(e),
                Ok((f, pos2)) => Ok(
                    (
                        ColorConfig {
                            high_bitdepth,
                            twelve_bit,
                            mono_chrome,
                            color_description_present: d.present,
                            color_primaries: d.color_primaries,
                            transfer_characteristics: d.transfer_characteristics,
                            matrix_coefficients: d.matrix_coefficients,
                            color_range: f.color_range,
                            subsampling_x: f.subsampling_x,
                            subsampling_y: f.subsampling_y,
                            chroma_sample_position: f.chroma_sample_position,
                            separate_uv_delta_q: f.separate_uv_delta_q,
                        },
                        pos2,
                    ),
                ),
            },
        }
    }

    /// The colour configuration at `pos`, and the context behind it. The
    /// context gets the bit depth as soon as the depth flags are read and the
    /// plane count as soon as the monochrome flag is, and keeps them where a
    /// later element fails.
    #[verifier::opaque]
    pub open spec fn spec_decode(
        ctx: DecodeContext,
        s: Seq<bool>,
        pos: int,
        profile: SequenceProfile,
    ) -> (DecodeContext, Decoded<Self>) {
        match Self::spec_depth_flags(s, pos, profile) {
            Err(e) => (ctx, Err(e)),
            Ok(((high_bitdepth, twelve_bit), pos1)) => {
                let ctx1 = DecodeContext {
                    bit_depth: Self::depth_of(high_bitdepth, twelve_bit),
                    ..ctx
                };
                match Self::spec_mono_chrome(s, pos1, profile) {
                    Err(e) => (ctx1, Err(e)),
                    Ok((mono_chrome, pos2)) => {
                        let ctx2 = DecodeContext {
                            num_planes: if mono_chrome { 1u8 } else { 3u8 },
                            ..ctx1
                        };
                        (
                            ctx2,
                            Self::spec_rest(s, pos2, profile, high_bitdepth, twelve_bit, mono_chrome),
                        )
                    },
                }
            },
        }
    }

    /// Reads the colour configuration of a sequence of the given profile, and
    /// records bit depth and plane count in the context.
    pub fn decode(ctx: &mut DecodeContext, reader: &mut BitReader, profile: SequenceProfile) -> (r:
        Result<Self, ObuError>)
        ensures
            *final(ctx) == Self::spec_decode(
                *old(ctx),
                old(reader).stream(),
                old(reader).position(),
                profile,
            ).0,
            old(reader).advanced(
                *final(reader),
                r,
                Self::spec_decode(
                    *old(ctx),
                    old(reader).stream(),
                    old(reader).position(),
                    profile,
                ).1,
            ),
            r matches Ok(c) ==> {
                &&& c.wf(profile)
                &&& final(ctx).bit_depth == c.bit_depth()
                &&& final(ctx).num_planes == c.num_planes()
            },
            r matches Ok(c) ==> (c.mono_chrome ==> {
                &&& c.subsampling_x
                &&& c.subsampling_y
                &&& c.chroma_sample_position == Some(ChromaSamplePosition::Unknown)
            }),
            old(ctx).wf() ==> final(ctx).wf(),
            *final(ctx) == (DecodeContext {
                bit_depth: final(ctx).bit_depth,
                num_planes: final(ctx).num_planes,
                ..*old(ctx)
            }),
    {
        reveal(ColorConfig::spec_decode);
        let high_bitdepth = reader.bit()?;
        let mut twelve_bit = false;
        if profile == SequenceProfile::Professional && high_bitdepth {
            twelve_bit = reader.bit()?;
        }
        ctx.bit_depth = if twelve_bit {
            12
        } else if high_bitdepth {
            10
        } else {
            8
        };
        let mono_chrome = if profile == SequenceProfile::High {
            false
        } else {
            reader.bit()?
        };
        ctx.num_planes = if mono_chrome {
            1
        } else {
            3
        };
        let d = ColorDescription::decode(reader)?;
        let srgb_identity = d.color_primaries == ColorPrimaries::Bt709
            && d.transfer_characteristics == TransferCharacteristics::Srgb
            && d.matrix_coefficients == MatrixCoefficients::Identity;
        let f = ChromaFormat::decode(reader, profile, ctx.bit_depth, mono_chrome, srgb_identity)?;
        Ok(
            ColorConfig {
                high_bitdepth,
                twelve_bit,
                mono_chrome,
                color_description_present: d.present,
                color_primaries: d.color_primaries,
                transfer_characteristics: d.transfer_characteristics,
                matrix_coefficients: d.matrix_coefficients,
                color_range: f.color_range,
                subsampling_x: f.subsampling_x,
                subsampling_y: f.subsampling_y,
                chroma_sample_position: f.chroma_sample_position,
                separate_uv_delta_q: f.separate_uv_delta_q,
            },
        )
    }

    /// The number of bits that a configuration takes in the stream.
    pub open spec fn encoded_len(self, profile: SequenceProfile) -> int {
        let depth_flags: int = if profile == SequenceProfile::Professional && self.high_bitdepth {
            2
        } else {
            1
        };
        let mono_flag: int = if profile == SequenceProfile::High {
            0
        } else {
            1
        };
        let description: int = if self.color_description_present {
            25
        } else {
            1
        };
        let format: int = if self.mono_chrome {
            1
        } else if self.description().is_srgb_identity() {
            1
        } else {
            let subsampling: int = if profile == SequenceProfile::Professional && self.twelve_bit {
                if self.subsampling_x {
                    2
                } else {
                    1
                }
            } else {
                0
            };
            let position: int = if self.subsampling_x && self.subsampling_y {
                2
            } else {
                0
            };
            1 + subsampling + position + 1
        };
        depth_flags + mono_flag + description + format
    }

    /// A decoded configuration ends as many bits behind its start as its
    /// values say, and is valid for its profile.
    pub proof fn lemma_decoded_len(
        ctx: DecodeContext,
        s: Seq<bool>,
        pos: int,
        profile: SequenceProfile,
    )
        ensures
            Self::spec_decode(ctx, s, pos, profile).1 matches Ok((c, end)) ==> {
                &&& end == pos + c.encoded_len(profile)
                &&& end <= s.len()
                &&& c.wf(profile)
            },
    {
        reveal(ColorConfig::spec_decode);
        reveal(ColorDescription::spec_decode);
        reveal(ChromaFormat::spec_decode);
    }

    /// Decoding touches two fields of the context, bit depth and plane
    /// count, and gives them values in their ranges. Behind a decoded
    /// configuration they are that configuration's.
    pub proof fn lemma_context(
        ctx: DecodeContext,
        s: Seq<bool>,
        pos: int,
        profile: SequenceProfile,
    )
        ensures
            ({
                let (after, decoded) = Self::spec_decode(ctx, s, pos, profile);
                &&& after == (DecodeContext {
                    bit_depth: after.bit_depth,
                    num_planes: after.num_planes,
                    ..ctx
                })
                &&& ctx.wf() ==> after.wf()
                &&& decoded matches Ok((c, end)) ==> {
                    &&& after.bit_depth == c.bit_depth()
                    &&& after.num_planes == c.num_planes()
                }
            }),
    {
        reveal(ColorConfig::spec_decode);
    }

    /// A monochrome configuration is subsampled in both directions with an
    /// unknown chroma sample position, whatever the stream holds.
    pub proof fn lemma_mono_chrome(
        ctx: DecodeContext,
        s: Seq<bool>,
        pos: int,
        profile: SequenceProfile,
    )
        ensures
            Self::spec_decode(ctx, s, pos, profile).1 matches Ok((c, end)) ==> (c.mono_chrome ==> {
                &&& c.subsampling_x
                &&& c.subsampling_y
                &&& c.chroma_sample_position == Some(ChromaSamplePosition::Unknown)
                &&& !c.separate_uv_delta_q
            }),
    {
        Self::lemma_decoded_len(ctx, s, pos, profile);
    }

    /// A configuration with three planes, BT.709 primaries, the sRGB
    /// transfer function and the identity matrix has full range and no
    /// subsampling, and the stream spends no bit on either: the bit behind
    /// the matrix coefficients is already the last one.
    pub proof fn lemma_srgb_identity(
        ctx: DecodeContext,
        s: Seq<bool>,
        pos: int,
        profile: SequenceProfile,
    )
        ensures
            Self::spec_decode(ctx, s, pos, profile).1 matches Ok((c, end)) ==> (!c.mono_chrome
                && c.description().is_srgb_identity() ==> {
                &&& c.color_range
                &&& !c.subsampling_x
                &&& !c.subsampling_y
                &&& c.chroma_sample_position is None
                &&& ColorDescription::spec_decode(s, end - 26) == Ok::<
                    (ColorDescription, int),
                    ObuError,
                >((c.description(), end - 1))
                &&& c.separate_uv_delta_q == s[end - 1]
            }),
    {
        reveal(ColorConfig::spec_decode);
        reveal(ColorDescription::spec_decode);
        reveal(ChromaFormat::spec_decode);
    }
}

} // verus!
