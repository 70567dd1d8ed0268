//! Timing information and the decoder model of a sequence.

use vstd::prelude::*;
use vstd::arithmetic::power2::lemma2_to64;
use crate::bitstream::{
    bits_value, spec_bits, spec_uvlc, lemma_bits_exact, lemma_bits_value_bound, lemma_uvlc_exact,
    Decoded,
};
use crate::error::ObuError;
use crate::reader::BitReader;

verus! {

/// The length of a picture in ticks, where all pictures have the same.
#[derive(Debug, Clone, Copy, PartialEq, Eq, Structural)]
pub struct EqualPictureInterval {
    pub num_ticks_per_picture: u32,
}

/// The display clock of a sequence.
#[derive(Debug, Clone, Copy, PartialEq, Eq, Structural)]
pub struct TimingInfo {
    pub num_units_in_display_tick: u32,
    pub time_scale: u32,
    pub equal_picture_interval: Option<EqualPictureInterval>,
}

/// The widths and the clock of the decoder model.
#[derive(Debug, Clone, Copy, PartialEq, Eq, Structural)]
pub struct DecoderModelInfo {
    pub buffer_delay_length: u8,
    pub num_units_in_decoding_tick: u32,
    pub buffer_removal_time_length: u8,
    pub frame_presentation_time_length: u8,
}

/// The decoder model parameters of one operating point.
#[derive(Debug, Clone, Copy, PartialEq, Eq, Structural)]
pub struct OperatingParametersInfo {
    pub decoder_buffer_delay: u32,
    pub encoder_buffer_delay: u32,
    pub low_delay_mode_flag: bool,
}

impl TimingInfo {
    /// Two numbers of 32 bits and a flag; where the flag is set, a
    /// variable-length code that is one less than the ticks per picture.
    pub open spec fn spec_decode(s: Seq<bool>, pos: int) -> Decoded<Self> {
        if pos + 65 > s.len() {
            Err(ObuError::Truncated)
        } else {
            let num_units_in_display_tick = bits_value(s, pos, 32) as u32;
            let time_scale = bits_value(s, pos + 32, 32) as u32;
            if !s[pos + 64] {
                Ok(
                    (
                        TimingInfo {
                            num_units_in_display_tick,
                            time_scale,
                            equal_picture_interval: None,
                        },
                        pos + 65,
                    ),
                )
            } else {
                match spec_uvlc(s, pos + 65) {
                    Err(e) => Err(e),
                    Ok((n, end)) => Ok(
                        (
                            TimingInfo {
                                num_units_in_display_tick,
                                time_scale,
                                equal_picture_interval: Some(
                                    EqualPictureInterval { num_ticks_per_picture: (n + 1) as u32 },
                                ),
                            },
                            end,
                        ),
                    ),
                }
            }
        }
    }

    /// Decoded timing information ends inside the window, its two numbers
    /// are the ones that their bits write, and a picture lasts one tick or
    /// more.
    pub proof fn lemma_decoded_valid(s: Seq<bool>, pos: int)
        ensures
            Self::spec_decode(s, pos) matches Ok((t, end)) ==> {
                &&& pos + 65 <= end <= s.len()
                &&& t.num_units_in_display_tick == bits_value(s, pos, 32)
                &&& t.time_scale == bits_value(s, pos + 32, 32)
                &&& t.equal_picture_interval is Some == s[pos + 64]
                &&& t.equal_picture_interval matches Some(i) ==> i.num_ticks_per_picture >= 1
            },
    {
        lemma_bits_exact(s, pos, 32);
        lemma_bits_exact(s, pos + 32, 32);
        lemma_uvlc_exact(s, pos + 65);
    }

    /// Reads the timing information.
    pub fn decode(reader: &mut BitReader) -> (r: Result<Self, ObuError>)
        ensures
            old(reader).advanced(
                *final(reader),
                r,
                Self::spec_decode(old(reader).stream(), old(reader).position()),
            ),
            r matches Ok(t) ==> (t.equal_picture_interval matches Some(i)
                ==> i.num_ticks_per_picture >= 1),
    {
        let num_units_in_display_tick = reader.bits(32)?;
        let time_scale = reader.bits(32)?;
        let equal_picture_interval = if reader.bit()? {
            Some(EqualPictureInterval { num_ticks_per_picture: reader.uvlc()? + 1 })
        } else {
            None
        };
        Ok(TimingInfo { num_units_in_display_tick, time_scale, equal_picture_interval })
    }
}

impl DecoderModelInfo {
    /// Each of the three lengths is a width of 1 to 32 bits.
    pub open spec fn wf(self) -> bool {
        &&& 1 <= self.buffer_delay_length <= 32
        &&& 1 <= self.buffer_removal_time_length <= 32
        &&& 1 <= self.frame_presentation_time_length <= 32
    }

    /// Four fields of 5, 32, 5 and 5 bits; each of the short ones is one less
    /// than a length.
    pub open spec fn spec_decode(s: Seq<bool>, pos: int) -> Decoded<Self> {
        if pos + 47 > s.len() {
            Err(ObuError::Truncated)
        } else {
            Ok(
                (
                    DecoderModelInfo {
                        buffer_delay_length: (bits_value(s, pos, 5) + 1) as u8,
                        num_units_in_decoding_tick: bits_value(s, pos + 5, 32) as u32,
                        buffer_removal_time_length: (bits_value(s, pos + 37, 5) + 1) as u8,
                        frame_presentation_time_length: (bits_value(s, pos + 42, 5) + 1) as u8,
                    },
                    pos + 47,
                ),
            )
        }
    }

    /// Decoded decoder model information takes 47 bits of the window and is
    /// valid.
    pub proof fn lemma_decoded_valid(s: Seq<bool>, pos: int)
        ensures
            Self::spec_decode(s, pos) matches Ok((m, end)) ==> {
                &&& m.wf()
                &&& end == pos + 47
                &&& end <= s.len()
                &&& m.buffer_delay_length == bits_value(s, pos, 5) + 1
                &&& m.num_units_in_decoding_tick == bits_value(s, pos + 5, 32)
                &&& m.buffer_removal_time_length == bits_value(s, pos + 37, 5) + 1
                &&& m.frame_presentation_time_length == bits_value(s, pos + 42, 5) + 1
            },
    {
        lemma2_to64();
        lemma_bits_value_bound(s, pos, 5);
        lemma_bits_exact(s, pos + 5, 32);
        lemma_bits_value_bound(s, pos + 37, 5);
        lemma_bits_value_bound(s, pos + 42, 5);
    }

    /// Reads the decoder model information.
    pub fn decode(reader: &mut BitReader) -> (r: Result<Self, ObuError>)
        ensures
            old(reader).advanced(
                *final(reader),
                r,
                Self::spec_decode(old(reader).stream(), old(reader).position()),
            ),
            r matches Ok(m) ==> m.wf(),
    {
        proof {
            lemma2_to64();
            lemma_bits_value_bound(reader.stream(), reader.position(), 5);
            lemma_bits_value_bound(reader.stream(), reader.position() + 37, 5);
            lemma_bits_value_bound(reader.stream(), reader.position() + 42, 5);
        }
        let buffer_delay_length = reader.bits(5)? as u8 + 1;
        let num_units_in_decoding_tick = reader.bits(32)?;
        let buffer_removal_time_length = reader.bits(5)? as u8 + 1;
        let frame_presentation_time_length = reader.bits(5)? as u8 + 1;
        Ok(
            DecoderModelInfo {
                buffer_delay_length,
                num_units_in_decoding_tick,
                buffer_removal_time_length,
                frame_presentation_time_length,
            },
        )
    }
}

impl OperatingParametersInfo {
    /// Two delays of `width` bits each and a flag.
    pub open spec fn spec_decode(s: Seq<bool>, pos: int, width: nat) -> Decoded<Self> {
        if pos + 2 * width + 1 > s.len() {
            Err(ObuError::Truncated)
        } else {
            Ok(
                (
                    OperatingParametersInfo {
                        decoder_buffer_delay: bits_value(s, pos, width) as u32,
                        encoder_buffer_delay: bits_value(s, pos + width, width) as u32,
                        low_delay_mode_flag: s[pos + 2 * width],
                    },
                    pos + 2 * width + 1,
                ),
            )
        }
    }

    /// Decoded parameters of a width up to 32 end inside the window, and the
    /// two delays are the numbers that their bits write.
    pub proof fn lemma_decoded_valid(s: Seq<bool>, pos: int, width: nat)
        requires
            width <= 32,
        ensures
            Self::spec_decode(s, pos, width) matches Ok((info, end)) ==> {
                &&& end == pos + 2 * width + 1
                &&& end <= s.len()
                &&& info.decoder_buffer_delay == bits_value(s, pos, width)
                &&& info.encoder_buffer_delay == bits_value(s, pos + width, width)
            },
    {
        lemma_bits_exact(s, pos, width);
        lemma_bits_exact(s, pos + width, width);
        if pos + 2 * width + 1 <= s.len() {
            assert(spec_bits(s, pos, width) is Ok);
            assert(spec_bits(s, pos + width, width) is Ok);
        }
    }

    /// Reads the parameters of one operating point; the decoder model gives
    /// the width of the two delays.
    pub fn decode(reader: &mut BitReader, decoder_model_info: &DecoderModelInfo) -> (r: Result<
        Self,
        ObuError,
    >)
        requires
            decoder_model_info.wf(),
        ensures
            old(reader).advanced(
                *final(reader),
                r,
                Self::spec_decode(
                    old(reader).stream(),
                    old(reader).position(),
                    decoder_model_info.buffer_delay_length as nat,
                ),
            ),
    {
        let width = decoder_model_info.buffer_delay_length as usize;
        let decoder_buffer_delay = reader.bits(width)?;
        let encoder_buffer_delay = reader.bits(width)?;
        let low_delay_mode_flag = reader.bit()?;
        Ok(
            OperatingParametersInfo {
                decoder_buffer_delay,
                encoder_buffer_delay,
                low_delay_mode_flag,
            },
        )
    }
}

} // verus!
