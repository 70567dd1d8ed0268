//! The frame size, the frame number lengths and the coding tools of a
//! sequence.

use vstd::prelude::*;
use vstd::arithmetic::power2::{pow2, lemma_pow2_strictly_increases, lemma2_to64};
use crate::bitstream::{
    bits_value, spec_bit, spec_bits, lemma_bits_exact, lemma_bits_value_bound, Decoded,
};
use crate::error::ObuError;
use crate::reader::BitReader;

verus! {

/// In `seq_force_screen_content_tools`: each frame chooses for itself.
pub const SELECT_SCREEN_CONTENT_TOOLS: u8 = 2;

/// In `seq_force_integer_mv`: each frame chooses for itself.
pub const SELECT_INTEGER_MV: u8 = 2;

/// The widths of the frame size fields and the largest frame size.
#[derive(Debug, Clone, Copy, PartialEq, Eq, Structural)]
pub struct FrameSize {
    pub frame_width_bits: u8,
    pub frame_height_bits: u8,
    pub max_frame_width: u16,
    pub max_frame_height: u16,
}

/// The widths of the frame numbers in frame headers.
#[derive(Debug, Clone, Copy, PartialEq, Eq, Structural)]
pub struct FrameIdNumbersPresent {
    pub delta_frame_id_length: u8,
    pub additional_frame_id_length: u8,
}

/// The inter coding tools of a sequence and the width of its order hints.
#[derive(Debug, Clone, Copy, PartialEq, Eq, Structural)]
pub struct Tools {
    pub enable_interintra_compound: bool,
    pub enable_masked_compound: bool,
    pub enable_warped_motion: bool,
    pub enable_dual_filter: bool,
    pub enable_order_hint: bool,
    pub enable_jnt_comp: bool,
    pub enable_ref_frame_mvs: bool,
    pub seq_choose_screen_content_tools: bool,
    pub seq_force_screen_content_tools: u8,
    pub seq_force_integer_mv: u8,
    pub order_hint_bits: usize,
}

/// Three flags in a row.
pub open spec fn spec_three_flags(s: Seq<bool>, pos: int) -> Decoded<(bool, bool, bool)> {
    if pos + 3 > s.len() {
        Err(ObuError::Truncated)
    } else {
        Ok(((s[pos], s[pos + 1], s[pos + 2]), pos + 3))
    }
}

/// Reads three flags in a row.
pub fn three_flags(reader: &mut BitReader) -> (r: Result<(bool, bool, bool), ObuError>)
    ensures
        old(reader).advanced(
            *final(reader),
            r,
            spec_three_flags(old(reader).stream(), old(reader).position()),
        ),
{
    let a = reader.bit()?;
    let b = reader.bit()?;
    let c = reader.bit()?;
    Ok((a, b, c))
}

impl FrameSize {
    /// Each width is 1 to 16 bits, and each maximum fits in its width.
    pub open spec fn wf(self) -> bool {
        &&& 1 <= self.frame_width_bits <= 16
        &&& 1 <= self.frame_height_bits <= 16
        &&& (self.max_frame_width as nat) < pow2(self.frame_width_bits as nat)
        &&& (self.max_frame_height as nat) < pow2(self.frame_height_bits as nat)
    }

    /// Two fields of four bits, each one less than a width, then the largest
    /// frame width and height in fields of these widths.
    pub open spec fn spec_decode(s: Seq<bool>, pos: int) -> Decoded<Self> {
        if pos + 8 > s.len() {
            Err(ObuError::Truncated)
        } else {
            let width_bits = bits_value(s, pos, 4) + 1;
            let height_bits = bits_value(s, pos + 4, 4) + 1;
            if pos + 8 + width_bits + height_bits > s.len() {
                Err(ObuError::Truncated)
            } else {
                Ok(
                    (
                        FrameSize {
                            frame_width_bits: width_bits as u8,
                            frame_height_bits: height_bits as u8,
                            max_frame_width: bits_value(s, pos + 8, width_bits) as u16,
                            max_frame_height: bits_value(s, pos + 8 + width_bits, height_bits) as u16,
                        },
                        pos + 8 + width_bits + height_bits,
                    ),
                )
            }
        }
    }

    /// A decoded frame size is valid and ends inside the window, and the two
    /// maxima are the numbers that their bits write.
    pub proof fn lemma_decoded_valid(s: Seq<bool>, pos: int)
        ensures
            Self::spec_decode(s, pos) matches Ok((f, end)) ==> {
                &&& f.wf()
                &&& end == pos + 8 + f.frame_width_bits + f.frame_height_bits
                &&& end <= s.len()
                &&& f.frame_width_bits == bits_value(s, pos, 4) + 1
                &&& f.frame_height_bits == bits_value(s, pos + 4, 4) + 1
                &&& f.max_frame_width == bits_value(s, pos + 8, f.frame_width_bits as nat)
                &&& f.max_frame_height == bits_value(
                    s,
                    pos + 8 + f.frame_width_bits,
                    f.frame_height_bits as nat,
                )
            },
    {
        lemma2_to64();
        lemma_bits_value_bound(s, pos, 4);
        lemma_bits_value_bound(s, pos + 4, 4);
        let width_bits = bits_value(s, pos, 4) + 1;
        let height_bits = bits_value(s, pos + 4, 4) + 1;
        lemma_bits_value_bound(s, pos + 8, width_bits);
        lemma_bits_value_bound(s, pos + 8 + width_bits, height_bits);
        if width_bits < 16 {
            lemma_pow2_strictly_increases(width_bits, 16);
        }
        if height_bits < 16 {
            lemma_pow2_strictly_increases(height_bits, 16);
        }
    }

    /// Reads the frame size fields.
    pub fn decode(reader: &mut BitReader) -> (r: Result<Self, ObuError>)
        ensures
            old(reader).advanced(
                *final(reader),
                r,
                Self::spec_decode(old(reader).stream(), old(reader).position()),
            ),
            r matches Ok(f) ==> f.wf(),
    {
        let ghost s = reader.stream();
        let ghost pos = reader.position();
        proof {
            lemma2_to64();
            lemma_bits_value_bound(s, pos, 4);
            lemma_bits_value_bound(s, pos + 4, 4);
        }
        let frame_width_bits = reader.bits(4)? as u8 + 1;
        let frame_height_bits = reader.bits(4)? as u8 + 1;
        proof {
            lemma_bits_value_bound(s, pos + 8, frame_width_bits as nat);
            lemma_bits_value_bound(s, pos + 8 + frame_width_bits, frame_height_bits as nat);
            if frame_width_bits < 16 {
                lemma_pow2_strictly_increases(frame_width_bits as nat, 16);
            }
            if frame_height_bits < 16 {
                lemma_pow2_strictly_increases(frame_height_bits as nat, 16);
            }
        }
        let max_frame_width = reader.bits(frame_width_bits as usize)? as u16;
        let max_frame_height = reader.bits(frame_height_bits as usize)? as u16;
        Ok(FrameSize { frame_width_bits, frame_height_bits, max_frame_width, max_frame_height })
    }
}

impl FrameIdNumbersPresent {
    /// Both lengths are in the range that their fields can give.
    pub open spec fn wf(self) -> bool {
        &&& 2 <= self.delta_frame_id_length <= 17
        &&& 1 <= self.additional_frame_id_length <= 16
    }

    /// Two fields of four bits: two less than the first length, one less
    /// than the second.
    pub open spec fn spec_decode(s: Seq<bool>, pos: int) -> Decoded<Self> {
        if pos + 8 > s.len() {
            Err(ObuError::Truncated)
        } else {
            Ok(
                (
                    FrameIdNumbersPresent {
                        delta_frame_id_length: (bits_value(s, pos, 4) + 2) as u8,
                        additional_frame_id_length: (bits_value(s, pos + 4, 4) + 1) as u8,
                    },
                    pos + 8,
                ),
            )
        }
    }

    /// Decoded frame number lengths are valid and take eight bits of the
    /// window.
    pub proof fn lemma_decoded_valid(s: Seq<bool>, pos: int)
        ensures
            Self::spec_decode(s, pos) matches Ok((f, end)) ==> {
                &&& f.wf()
                &&& end == pos + 8
                &&& end <= s.len()
                &&& f.delta_frame_id_length == bits_value(s, pos, 4) + 2
                &&& f.additional_frame_id_length == bits_value(s, pos + 4, 4) + 1
            },
    {
        lemma2_to64();
        lemma_bits_value_bound(s, pos, 4);
        lemma_bits_value_bound(s, pos + 4, 4);
    }

    /// Reads the two frame number lengths.
    pub fn decode(reader: &mut BitReader) -> (r: Result<Self, ObuError>)
        ensures
            old(reader).advanced(
                *final(reader),
                r,
                Self::spec_decode(old(reader).stream(), old(reader).position()),
            ),
            r matches Ok(f) ==> f.wf(),
    {
        proof {
            lemma2_to64();
            lemma_bits_value_bound(reader.stream(), reader.position(), 4);
            lemma_bits_value_bound(reader.stream(), reader.position() + 4, 4);
        }
        let delta_frame_id_length = reader.bits(4)? as u8 + 2;
        let additional_frame_id_length = reader.bits(4)? as u8 + 1;
        Ok(FrameIdNumbersPresent { delta_frame_id_length, additional_frame_id_length })
    }

    /// The lengths where the header has them: not in a reduced header, and
    /// elsewhere behind a presence bit that is set.
    pub open spec fn spec_optional(s: Seq<bool>, pos: int, reduced: bool) -> Decoded<Option<Self>> {
        if reduced {
            Ok((None, pos))
        } else {
            match spec_bit(s, pos) {
                Err(e) => Err(e),
                Ok((present, pos1)) => if present {
                    match Self::spec_decode(s, pos1) {
                        Err(e) => Err(e),
                        Ok((f, end)) => Ok((Some(f), end)),
                    }
                } else {
                    Ok((None, pos1))
                },
            }
        }
    }

    /// Reads the frame number lengths where the header has them.
    pub fn decode_optional(reader: &mut BitReader, reduced: bool) -> (r: Result<
        Option<Self>,
        ObuError,
    >)
        ensures
            old(reader).advanced(
                *final(reader),
                r,
                Self::spec_optional(old(reader).stream(), old(reader).position(), reduced),
            ),
            r matches Ok(Some(f)) ==> f.wf() && !reduced,
    {
        proof {
            use_type_invariant(&*reader);
            reader.lemma_position_in_window();
        }
        if !reduced && reader.bit()? {
            Ok(Some(Self::decode(reader)?))
        } else {
            Ok(None)
        }
    }
}

impl Tools {
    /// The tools of a reduced still picture header: none, and no order hints.
    pub open spec fn reduced() -> Self {
        Tools {
            enable_interintra_compound: false,
            enable_masked_compound: false,
            enable_warped_motion: false,
            enable_dual_filter: false,
            enable_order_hint: false,
            enable_jnt_comp: false,
            enable_ref_frame_mvs: false,
            seq_choose_screen_content_tools: false,
            seq_force_screen_content_tools: SELECT_SCREEN_CONTENT_TOOLS,
            seq_force_integer_mv: SELECT_INTEGER_MV,
            order_hint_bits: 0,
        }
    }

    /// What holds of every decoded set of tools: the two tools that need
    /// order hints are on only with order hints; the two forced values are 0,
    /// 1 or the value that leaves the choice to each frame; and an order hint
    /// is 1 to 8 bits wide where there are order hints, else 0.
    pub open spec fn wf(self) -> bool {
        &&& self.enable_jnt_comp || self.enable_ref_frame_mvs ==> self.enable_order_hint
        &&& self.seq_force_screen_content_tools <= SELECT_SCREEN_CONTENT_TOOLS
        &&& self.seq_choose_screen_content_tools ==> self.seq_force_screen_content_tools
            == SELECT_SCREEN_CONTENT_TOOLS
        &&& self.seq_force_integer_mv <= SELECT_INTEGER_MV
        &&& self.seq_force_screen_content_tools == 0 ==> self.seq_force_integer_mv
            == SELECT_INTEGER_MV
        &&& if self.enable_order_hint {
            1 <= self.order_hint_bits <= 8
        } else {
            self.order_hint_bits == 0
        }
    }

    /// The two tools that need order hints: a bit each where order hints are
    /// enabled, else off.
    pub open spec fn spec_order_hint_tools(
        s: Seq<bool>,
        pos: int,
        enable_order_hint: bool,
    ) -> Decoded<(bool, bool)> {
        if !enable_order_hint {
            Ok(((false, false), pos))
        } else if pos + 2 > s.len() {
            Err(ObuError::Truncated)
        } else {
            Ok(((s[pos], s[pos + 1]), pos + 2))
        }
    }

    /// Whether each frame chooses its screen content tools, and what holds
    /// for all where it does not: a bit, and behind a clear one a second.
    pub open spec fn spec_screen_content_tools(s: Seq<bool>, pos: int) -> Decoded<(bool, u8)> {
        match spec_bit(s, pos) {
            Err(e) => Err(e),
            Ok((choose, pos1)) => if choose {
                Ok(((choose, SELECT_SCREEN_CONTENT_TOOLS), pos1))
            } else {
                match spec_bit(s, pos1) {
                    Err(e) => Err(e),
                    Ok((force, pos2)) => Ok(((choose, if force { 1u8 } else { 0u8 }), pos2)),
                }
            },
        }
    }

    /// What holds of integer motion vectors: with screen content tools that
    /// may be on, a bit that leaves the choice to each frame and, behind a
    /// clear one, a second; else the choice is left to each frame.
    pub open spec fn spec_integer_mv(
        s: Seq<bool>,
        pos: int,
        force_screen_content_tools: u8,
    ) -> Decoded<u8> {
        if force_screen_content_tools > 0 {
            match spec_bit(s, pos) {
                Err(e) => Err(e),
                Ok((choose, pos1)) => if choose {
                    Ok((SELECT_INTEGER_MV, pos1))
                } else {
                    match spec_bit(s, pos1) {
                        Err(e) => Err(e),
                        Ok((force, pos2)) => Ok((if force { 1u8 } else { 0u8 }, pos2)),
                    }
                },
            }
        } else {
            Ok((SELECT_INTEGER_MV, pos))
        }
    }

    /// The width of an order hint: with order hints, three bits that are one
    /// less than it; else zero.
    pub open spec fn spec_order_hint_bits(
        s: Seq<bool>,
        pos: int,
        enable_order_hint: bool,
    ) -> Decoded<usize> {
        if enable_order_hint {
            match spec_bits(s, pos, 3) {
                Err(e) => Err(e),
                Ok((v, end)) => Ok(((v + 1) as usize, end)),
            }
        } else {
            Ok((0, pos))
        }
    }

    /// The tools at `pos`. A reduced header has none of these fields. Any
    /// other has five flags, the last of which enables order hints, then the
    /// two tools that need order hints, screen content tools, integer motion
    /// vectors and the width of an order hint.
    #[verifier::opaque]
    pub open spec fn spec_decode(s: Seq<bool>, pos: int, reduced: bool) -> Decoded<Self> {
        if reduced {
            Ok((Self::reduced(), pos))
        } else if pos + 5 > s.len() {
            Err(ObuError::Truncated)
        } else {
            let enable_order_hint = s[pos + 4];
            match Self::spec_order_hint_tools(s, pos + 5, enable_order_hint) {
                Err(e) => Err(e),
                Ok(((enable_jnt_comp, enable_ref_frame_mvs), pos1)) => match Self::spec_screen_content_tools(
                    s,
                    pos1,
                ) {
                    Err(e) => Err(e),
                    Ok(
                        ((seq_choose_screen_content_tools, seq_force_screen_content_tools), pos2),
                    ) => match Self::spec_integer_mv(s, pos2, seq_force_screen_content_tools) {
                        Err(e) => Err(e),
                        Ok((seq_force_integer_mv, pos3)) => match Self::spec_order_hint_bits(
                            s,
                            pos3,
                            enable_order_hint,
                        ) {
                            Err(e) => Err(e),
                            Ok((order_hint_bits, pos4)) => Ok(
                                (
                                    Tools {
                                        enable_interintra_compound: s[pos],
                                        enable_masked_compound: s[pos + 1],
                                        enable_warped_motion: s[pos + 2],
                                        enable_dual_filter: s[pos + 3],
                                        enable_order_hint,
                                        enable_jnt_comp,
                                        enable_ref_frame_mvs,
                                        seq_choose_screen_content_tools,
                                        seq_force_screen_content_tools,
                                        seq_force_integer_mv,
                                        order_hint_bits,
                                    },
                                    pos4,
                                ),
                            ),
                        },
                    },
                },
            }
        }
    }

    /// Decoded tools are valid, and those of a reduced header are none and
    /// take no bit.
    pub proof fn lemma_decoded_valid(s: Seq<bool>, pos: int, reduced: bool)
        ensures
            Self::spec_decode(s, pos, reduced) matches Ok((t, end)) ==> {
                &&& t.wf()
                &&& pos <= end
                &&& reduced ==> t == Self::reduced() && end == pos
                &&& !reduced ==> pos + 7 <= end <= s.len()
            },
    {
        reveal(Tools::spec_decode);
        lemma2_to64();
        if let Ok((t, end)) = Self::spec_decode(s, pos, reduced) {
            if t.enable_order_hint {
                lemma_bits_exact(s, end - 3, 3);
            }
        }
    }

    /// Reads the two tools that need order hints.
    fn order_hint_tools(reader: &mut BitReader, enable_order_hint: bool) -> (r: Result<
        (bool, bool),
        ObuError,
    >)
        ensures
            old(reader).advanced(
                *final(reader),
                r,
                Self::spec_order_hint_tools(
                    old(reader).stream(),
                    old(reader).position(),
                    enable_order_hint,
                ),
            ),
            r matches Ok(t) ==> (t.0 || t.1 ==> enable_order_hint),
    {
        proof {
            use_type_invariant(&*reader);
            reader.lemma_position_in_window();
        }
        if !enable_order_hint {
            return Ok((false, false));
        }
        let enable_jnt_comp = reader.bit()?;
        let enable_ref_frame_mvs = reader.bit()?;
        Ok((enable_jnt_comp, enable_ref_frame_mvs))
    }

    /// Reads what the header says of screen content tools.
    fn screen_content_tools(reader: &mut BitReader) -> (r: Result<(bool, u8), ObuError>)
        ensures
            old(reader).advanced(
                *final(reader),
                r,
                Self::spec_screen_content_tools(old(reader).stream(), old(reader).position()),
            ),
            r matches Ok(t) ==> {
                &&& t.1 <= SELECT_SCREEN_CONTENT_TOOLS
                &&& t.0 ==> t.1 == SELECT_SCREEN_CONTENT_TOOLS
            },
    {
        if reader.bit()? {
            return Ok((true, SELECT_SCREEN_CONTENT_TOOLS));
        }
        let force = reader.bit()?;
        Ok((false, if force { 1 } else { 0 }))
    }

    /// Reads what the header says of integer motion vectors.
    fn integer_mv(reader: &mut BitReader, force_screen_content_tools: u8) -> (r: Result<
        u8,
        ObuError,
    >)
        ensures
            old(reader).advanced(
                *final(reader),
                r,
                Self::spec_integer_mv(
                    old(reader).stream(),
                    old(reader).position(),
                    force_screen_content_tools,
                ),
            ),
            r matches Ok(v) ==> {
                &&& v <= SELECT_INTEGER_MV
                &&& force_screen_content_tools == 0 ==> v == SELECT_INTEGER_MV
            },
    {
        proof {
            use_type_invariant(&*reader);
            reader.lemma_position_in_window();
        }
        if force_screen_content_tools == 0 {
            return Ok(SELECT_INTEGER_MV);
        }
        if reader.bit()? {
            return Ok(SELECT_INTEGER_MV);
        }
        let force = reader.bit()?;
        Ok(if force { 1 } else { 0 })
    }

    /// Reads the width of an order hint.
    fn order_hint_width(reader: &mut BitReader, enable_order_hint: bool) -> (r: Result<
        usize,
        ObuError,
    >)
        ensures
            old(reader).advanced(
                *final(reader),
                r,
                Self::spec_order_hint_bits(
                    old(reader).stream(),
                    old(reader).position(),
                    enable_order_hint,
                ),
            ),
            r matches Ok(v) ==> if enable_order_hint {
                1 <= v <= 8
            } else {
                v == 0
            },
    {
        proof {
            use_type_invariant(&*reader);
            reader.lemma_position_in_window();
            lemma2_to64();
            lemma_bits_value_bound(reader.stream(), reader.position(), 3);
        }
        if !enable_order_hint {
            return Ok(0);
        }
        Ok(reader.bits(3)? as usize + 1)
    }

    /// Reads the tools of a header that is reduced or not.
    pub fn decode(reader: &mut BitReader, reduced: bool) -> (r: Result<Self, ObuError>)
        ensures
            old(reader).advanced(
                *final(reader),
                r,
                Self::spec_decode(old(reader).stream(), old(reader).position(), reduced),
            ),
            r matches Ok(t) ==> {
                &&& t.wf()
                &&& reduced ==> t == Self::reduced()
            },
    {
        reveal(Tools::spec_decode);
        proof {
            use_type_invariant(&*reader);
            reader.lemma_position_in_window();
        }
        if reduced {
            return Ok(
                Tools {
                    enable_interintra_compound: false,
                    enable_masked_compound: false,
                    enable_warped_motion: false,
                    enable_dual_filter: false,
                    enable_order_hint: false,
                    enable_jnt_comp: false,
                    enable_ref_frame_mvs: false,
                    seq_choose_screen_content_tools: false,
                    seq_force_screen_content_tools: SELECT_SCREEN_CONTENT_TOOLS,
                    seq_force_integer_mv: SELECT_INTEGER_MV,
                    order_hint_bits: 0,
                },
            );
        }
        let (enable_interintra_compound, enable_masked_compound, enable_warped_motion) =
            three_flags(reader)?;
        let enable_dual_filter = reader.bit()?;
        let enable_order_hint = reader.bit()?;
        let (enable_jnt_comp, enable_ref_frame_mvs) = Self::order_hint_tools(
            reader,
            enable_order_hint,
        )?;
        let (seq_choose_screen_content_tools, seq_force_screen_content_tools) =
            Self::screen_content_tools(reader)?;
        let seq_force_integer_mv = Self::integer_mv(reader, seq_force_screen_content_tools)?;
        let order_hint_bits = Self::order_hint_width(reader, enable_order_hint)?;
        Ok(
            Tools {
                enable_interintra_compound,
                enable_masked_compound,
                enable_warped_motion,
                enable_dual_filter,
                enable_order_hint,
                enable_jnt_comp,
                enable_ref_frame_mvs,
                seq_choose_screen_content_tools,
                seq_force_screen_content_tools,
                seq_force_integer_mv,
                order_hint_bits,
            },
        )
    }
}

/// The fields between the operating set and the three flags in front of the
/// colour configuration.
#[derive(Debug, Clone, Copy, PartialEq, Eq, Structural)]
pub struct FramePart {
    pub size: FrameSize,
    pub frame_id_numbers_present: Option<FrameIdNumbersPresent>,
    pub use_128x128_superblock: bool,
    pub enable_filter_intra: bool,
    pub enable_intra_edge_filter: bool,
    pub tools: Tools,
}

impl FramePart {
    /// Each part is in its ranges, and a reduced header has neither frame
    /// number lengths nor tools.
    pub open spec fn wf(self, reduced: bool) -> bool {
        &&& self.size.wf()
        &&& self.frame_id_numbers_present matches Some(f) ==> f.wf() && !reduced
        &&& self.tools.wf()
        &&& reduced ==> self.tools == Tools::reduced()
    }

    /// Frame size, frame number lengths, three flags and the tools.
    #[verifier::opaque]
    pub open spec fn spec_decode(s: Seq<bool>, pos: int, reduced: bool) -> Decoded<Self> {
        match FrameSize::spec_decode(s, pos) {
            Err(e) => Err(e),
            Ok((size, pos1)) => match FrameIdNumbersPresent::spec_optional(s, pos1, reduced) {
                Err(e) => Err(e),
                Ok((frame_id_numbers_present, pos2)) => match spec_three_flags(s, pos2) {
                    Err(e) => Err(e),
                    Ok((intra, pos3)) => match Tools::spec_decode(s, pos3, reduced) {
                        Err(e) => Err(e),
                        Ok((tools, pos4)) => Ok(
                            (
                                FramePart {
                                    size,
                                    frame_id_numbers_present,
                                    use_128x128_superblock: intra.0,
                                    enable_filter_intra: intra.1,
                                    enable_intra_edge_filter: intra.2,
                                    tools,
                                },
                                pos4,
                            ),
                        ),
                    },
                },
            },
        }
    }

    /// A decoded part is valid and ends inside the window.
    pub proof fn lemma_decoded_valid(s: Seq<bool>, pos: int, reduced: bool)
        ensures
            Self::spec_decode(s, pos, reduced) matches Ok((part, end)) ==> {
                &&& part.wf(reduced)
                &&& pos + 13 <= end <= s.len()
            },
    {
        reveal(FramePart::spec_decode);
        FrameSize::lemma_decoded_valid(s, pos);
        if let Ok((_, pos1)) = FrameSize::spec_decode(s, pos) {
            if !reduced {
                FrameIdNumbersPresent::lemma_decoded_valid(s, pos1 + 1);
            }
            if let Ok((_, pos2)) = FrameIdNumbersPresent::spec_optional(s, pos1, reduced) {
                Tools::lemma_decoded_valid(s, pos2 + 3, reduced);
            }
        }
    }

    /// Reads the fields between the operating set and the three flags in
    /// front of the colour configuration.
    pub fn decode(reader: &mut BitReader, reduced: bool) -> (r: Result<Self, ObuError>)
        ensures
            old(reader).advanced(
                *final(reader),
                r,
                Self::spec_decode(old(reader).stream(), old(reader).position(), reduced),
            ),
            r matches Ok(f) ==> f.wf(reduced),
    {
        reveal(FramePart::spec_decode);
        let size = FrameSize::decode(reader)?;
        let frame_id_numbers_present = FrameIdNumbersPresent::decode_optional(reader, reduced)?;
        let (use_128x128_superblock, enable_filter_intra, enable_intra_edge_filter) = three_flags(
            reader,
        )?;
        let tools = Tools::decode(reader, reduced)?;
        Ok(
            FramePart {
                size,
                frame_id_numbers_present,
                use_128x128_superblock,
                enable_filter_intra,
                enable_intra_edge_filter,
                tools,
            },
        )
    }
}

} // verus!
