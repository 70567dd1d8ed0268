//! The operating points of a sequence, with its timing information and
//! decoder model.

use vstd::prelude::*;
use vstd::arithmetic::power2::lemma2_to64;
use crate::bitstream::{
    bits_value, spec_bit, spec_bits, lemma_bits_exact, lemma_bits_value_bound, Decoded,
};
use crate::error::ObuError;
use crate::obu::timing::{DecoderModelInfo, OperatingParametersInfo, TimingInfo};
use crate::reader::BitReader;

verus! {

/// The display delay of an operating point that signals none.
pub const DEFAULT_INITIAL_DISPLAY_DELAY: u8 = 10;

/// The largest number of operating points in a sequence.
pub const MAX_OPERATING_POINTS: usize = 32;

/// One selectable subset of the layers of a sequence.
#[derive(Debug, Clone, Copy, PartialEq, Eq, Structural)]
pub struct OperatingPoint {
    /// Layer mask: bit `t` for temporal layer `t`, bit `8 + s` for spatial layer `s`.
    pub idc: u16,
    pub level_idx: u8,
    pub tier: bool,
    pub operating_parameters_info: Option<OperatingParametersInfo>,
    pub initial_display_delay: u8,
}

impl OperatingPoint {
    /// Every field is in its range.
    pub open spec fn wf(self) -> bool {
        &&& self.idc < 4096
        &&& self.level_idx < 32
        &&& self.tier ==> self.level_idx > 7
        &&& 1 <= self.initial_display_delay <= 16
    }

    /// The one operating point of a reduced still picture header.
    pub open spec fn reduced(level_idx: u8) -> Self {
        OperatingPoint {
            idc: 0,
            level_idx,
            tier: false,
            operating_parameters_info: None,
            initial_display_delay: DEFAULT_INITIAL_DISPLAY_DELAY,
        }
    }

    /// The tier: one bit for a level above 7, else false.
    pub open spec fn spec_tier(s: Seq<bool>, pos: int, level_idx: u8) -> Decoded<bool> {
        if level_idx > 7 {
            spec_bit(s, pos)
        } else {
            Ok((false, pos))
        }
    }

    /// The decoder model parameters: with a decoder model, a presence bit
    /// and, where it is set, the parameters.
    pub open spec fn spec_parameters(
        s: Seq<bool>,
        pos: int,
        model: Option<DecoderModelInfo>,
    ) -> Decoded<Option<OperatingParametersInfo>> {
        match model {
            None => Ok((None, pos)),
            Some(m) => match spec_bit(s, pos) {
                Err(e) => Err(e),
                Ok((present, pos1)) => if present {
                    match OperatingParametersInfo::spec_decode(s, pos1, m.buffer_delay_length as nat) {
                        Err(e) => Err(e),
                        Ok((info, end)) => Ok((Some(info), end)),
                    }
                } else {
                    Ok((None, pos1))
                },
            },
        }
    }

    /// The display delay: where delays are signalled, a presence bit and,
    /// where it is set, four bits that are one less than the delay; else the
    /// default.
    pub open spec fn spec_initial_display_delay(
        s: Seq<bool>,
        pos: int,
        delay_present: bool,
    ) -> Decoded<u8> {
        if !delay_present {
            Ok((DEFAULT_INITIAL_DISPLAY_DELAY, pos))
        } else {
            match spec_bit(s, pos) {
                Err(e) => Err(e),
                Ok((present, pos1)) => if present {
                    match spec_bits(s, pos1, 4) {
                        Err(e) => Err(e),
                        Ok((v, end)) => Ok(((v + 1) as u8, end)),
                    }
                } else {
                    Ok((DEFAULT_INITIAL_DISPLAY_DELAY, pos1))
                },
            }
        }
    }

    /// One operating point: a mask of 12 bits, a level of 5 bits, then tier,
    /// decoder model parameters and display delay.
    #[verifier::opaque]
    pub open spec fn spec_decode(
        s: Seq<bool>,
        pos: int,
        model: Option<DecoderModelInfo>,
        delay_present: bool,
    ) -> Decoded<Self> {
        if pos + 17 > s.len() {
            Err(ObuError::Truncated)
        } else {
            let idc = bits_value(s, pos, 12) as u16;
            let level_idx = bits_value(s, pos + 12, 5) as u8;
            match Self::spec_tier(s, pos + 17, level_idx) {
                Err(e) => Err(e),
                Ok((tier, pos1)) => match Self::spec_parameters(s, pos1, model) {
                    Err(e) => Err(e),
                    Ok((operating_parameters_info, pos2)) => match Self::spec_initial_display_delay(
                        s,
                        pos2,
                        delay_present,
                    ) {
                        Err(e) => Err(e),
                        Ok((initial_display_delay, pos3)) => Ok(
                            (
                                OperatingPoint {
                                    idc,
                                    level_idx,
                                    tier,
                                    operating_parameters_info,
                                    initial_display_delay,
                                },
                                pos3,
                            ),
                        ),
                    },
                },
            }
        }
    }

    /// A decoded operating point is valid and ends inside the window. It has
    /// decoder model parameters only with a decoder model, and a display
    /// delay other than the default only where delays are signalled.
    pub proof fn lemma_decoded_valid(
        s: Seq<bool>,
        pos: int,
        model: Option<DecoderModelInfo>,
        delay_present: bool,
    )
        requires
            model matches Some(m) ==> m.wf(),
        ensures
            Self::spec_decode(s, pos, model, delay_present) matches Ok((op, end)) ==> {
                &&& op.wf()
                &&& pos + 17 <= end <= s.len()
                &&& op.idc == bits_value(s, pos, 12)
                &&& op.level_idx == bits_value(s, pos + 12, 5)
                &&& model is None ==> op.operating_parameters_info is None
                &&& !delay_present ==> op.initial_display_delay == DEFAULT_INITIAL_DISPLAY_DELAY
            },
    {
        reveal(OperatingPoint::spec_decode);
        lemma2_to64();
        lemma_bits_value_bound(s, pos, 12);
        lemma_bits_value_bound(s, pos + 12, 5);
        if let Ok((op, _)) = Self::spec_decode(s, pos, model, delay_present) {
            let (_, pos1) = Self::spec_tier(s, pos + 17, op.level_idx)->Ok_0;
            let (_, pos2) = Self::spec_parameters(s, pos1, model)->Ok_0;
            if let Some(m) = model {
                OperatingParametersInfo::lemma_decoded_valid(
                    s,
                    pos1 + 1,
                    m.buffer_delay_length as nat,
                );
            }
            if delay_present {
                lemma_bits_exact(s, pos2 + 1, 4);
            }
        }
    }

    /// Reads one operating point of a sequence with the given decoder model,
    /// if it has one, and with or without signalled display delays.
    pub fn decode(
        reader: &mut BitReader,
        model: Option<DecoderModelInfo>,
        delay_present: bool,
    ) -> (r: Result<Self, ObuError>)
        requires
            model matches Some(m) ==> m.wf(),
        ensures
            old(reader).advanced(
                *final(reader),
                r,
                Self::spec_decode(
                    old(reader).stream(),
                    old(reader).position(),
                    model,
                    delay_present,
                ),
            ),
            r matches Ok(op) ==> {
                &&& op.wf()
                &&& model is None ==> op.operating_parameters_info is None
                &&& !delay_present ==> op.initial_display_delay == DEFAULT_INITIAL_DISPLAY_DELAY
            },
    {
        reveal(OperatingPoint::spec_decode);
        proof {
            lemma2_to64();
            lemma_bits_value_bound(reader.stream(), reader.position(), 12);
            lemma_bits_value_bound(reader.stream(), reader.position() + 12, 5);
        }
        let idc = reader.bits(12)? as u16;
        let level_idx = reader.bits(5)? as u8;
        let tier = if level_idx > 7 {
            reader.bit()?
        } else {
            false
        };
        let mut operating_parameters_info = None;
        if let Some(m) = model {
            if reader.bit()? {
                operating_parameters_info = Some(OperatingParametersInfo::decode(reader, &m)?);
            }
        }
        let mut initial_display_delay = DEFAULT_INITIAL_DISPLAY_DELAY;
        if delay_present {
            if reader.bit()? {
                proof {
                    lemma_bits_value_bound(reader.stream(), reader.position(), 4);
                }
                initial_display_delay = reader.bits(4)? as u8 + 1;
            }
        }
        Ok(
            OperatingPoint {
                idc,
                level_idx,
                tier,
                operating_parameters_info,
                initial_display_delay,
            },
        )
    }

    /// The first `count` operating points of a list at `pos`.
    pub open spec fn spec_list(
        s: Seq<bool>,
        pos: int,
        count: nat,
        model: Option<DecoderModelInfo>,
        delay_present: bool,
    ) -> Decoded<Seq<Self>>
        decreases count,
    {
        if count == 0 {
            Ok((Seq::empty(), pos))
        } else {
            match Self::spec_list(s, pos, (count - 1) as nat, model, delay_present) {
                Err(e) => Err(e),
                Ok((front, pos1)) => match Self::spec_decode(s, pos1, model, delay_present) {
                    Err(e) => Err(e),
                    Ok((op, end)) => Ok((front.push(op), end)),
                },
            }
        }
    }

    /// A decoded list has as many operating points as were asked for, each of
    /// them valid, and ends inside the window or, where it is empty, where it
    /// began.
    pub proof fn lemma_list_valid(
        s: Seq<bool>,
        pos: int,
        count: nat,
        model: Option<DecoderModelInfo>,
        delay_present: bool,
    )
        requires
            model matches Some(m) ==> m.wf(),
        ensures
            Self::spec_list(s, pos, count, model, delay_present) matches Ok((points, end)) ==> {
                &&& points.len() == count
                &&& pos + 17 * count <= end
                &&& count > 0 ==> end <= s.len()
                &&& forall|i: int| 0 <= i < points.len() ==> (#[trigger] points[i]).wf()
                &&& model is None ==> forall|i: int|
                    0 <= i < points.len() ==> (#[trigger] points[i]).operating_parameters_info is None
                &&& !delay_present ==> forall|i: int|
                    0 <= i < points.len() ==> (#[trigger] points[i]).initial_display_delay
                        == DEFAULT_INITIAL_DISPLAY_DELAY
            },
        decreases count,
    {
        if count > 0 {
            Self::lemma_list_valid(s, pos, (count - 1) as nat, model, delay_present);
            if let Ok((_, pos1)) = Self::spec_list(
                s,
                pos,
                (count - 1) as nat,
                model,
                delay_present,
            ) {
                Self::lemma_decoded_valid(s, pos1, model, delay_present);
            }
        }
    }

    /// A list that fails after `count` operating points fails in the same
    /// way after more.
    pub proof fn lemma_list_failure(
        s: Seq<bool>,
        pos: int,
        count: nat,
        more: nat,
        model: Option<DecoderModelInfo>,
        delay_present: bool,
    )
        requires
            count <= more,
            Self::spec_list(s, pos, count, model, delay_present) is Err,
        ensures
            Self::spec_list(s, pos, more, model, delay_present) == Self::spec_list(
                s,
                pos,
                count,
                model,
                delay_present,
            ),
        decreases more,
    {
        if count < more {
            Self::lemma_list_failure(s, pos, count, (more - 1) as nat, model, delay_present);
        }
    }

    /// Reads a list of `count` operating points.
    pub fn decode_list(
        reader: &mut BitReader,
        count: usize,
        model: Option<DecoderModelInfo>,
        delay_present: bool,
    ) -> (r: Result<Vec<Self>, ObuError>)
        requires
            model matches Some(m) ==> m.wf(),
        ensures
            old(reader).advanced(
                *final(reader),
                match r {
                    Ok(v) => Ok(v@),
                    Err(e) => Err(e),
                },
                Self::spec_list(
                    old(reader).stream(),
                    old(reader).position(),
                    count as nat,
                    model,
                    delay_present,
                ),
            ),
            r matches Ok(v) ==> {
                &&& v@.len() == count
                &&& forall|i: int| 0 <= i < v@.len() ==> (#[trigger] v@[i]).wf()
                &&& model is None ==> forall|i: int|
                    0 <= i < v@.len() ==> (#[trigger] v@[i]).operating_parameters_info is None
                &&& !delay_present ==> forall|i: int|
                    0 <= i < v@.len() ==> (#[trigger] v@[i]).initial_display_delay
                        == DEFAULT_INITIAL_DISPLAY_DELAY
            },
    {
        let mut points: Vec<OperatingPoint> = Vec::new();
        let mut i: usize = 0;
        let ghost s = reader.stream();
        let ghost start = reader.position();
        proof {
            use_type_invariant(&*reader);
            reader.lemma_position_in_window();
            assert(points@ =~= Seq::<Self>::empty());
        }
        while i < count
            invariant
                i <= count,
                model matches Some(m) ==> m.wf(),
                reader.bytes() == old(reader).bytes(),
                s == old(reader).stream(),
                start == old(reader).position(),
                start <= reader.position() <= s.len(),
                points@.len() == i,
                Self::spec_list(s, start, i as nat, model, delay_present) == Ok::<
                    (Seq<Self>, int),
                    ObuError,
                >((points@, reader.position())),
                forall|j: int| 0 <= j < points@.len() ==> (#[trigger] points@[j]).wf(),
                model is None ==> forall|j: int|
                    0 <= j < points@.len() ==> (#[trigger] points@[j]).operating_parameters_info is None,
                !delay_present ==> forall|j: int|
                    0 <= j < points@.len() ==> (#[trigger] points@[j]).initial_display_delay
                        == DEFAULT_INITIAL_DISPLAY_DELAY,
            decreases count - i,
        {
            match Self::decode(reader, model, delay_present) {
                Ok(op) => {
                    points.push(op);
                },
                Err(e) => {
                    proof {
                        Self::lemma_list_failure(
                            s,
                            start,
                            (i + 1) as nat,
                            count as nat,
                            model,
                            delay_present,
                        );
                    }
                    return Err(e);
                },
            }
            i = i + 1;
        }
        Ok(points)
    }
}

/// Timing, decoder model and operating points of a sequence.
#[derive(Debug, Clone, PartialEq, Eq)]
pub struct OperatingSet {
    pub timing_info: Option<TimingInfo>,
    pub decoder_model_info: Option<DecoderModelInfo>,
    pub initial_display_delay_present_flag: bool,
    pub operating_points: Vec<OperatingPoint>,
}

/// An operating set as a mathematical value.
pub struct OperatingSetView {
    pub timing_info: Option<TimingInfo>,
    pub decoder_model_info: Option<DecoderModelInfo>,
    pub initial_display_delay_present_flag: bool,
    pub operating_points: Seq<OperatingPoint>,
}

impl View for OperatingSet {
    type V = OperatingSetView;

    open spec fn view(&self) -> OperatingSetView {
        OperatingSetView {
            timing_info: self.timing_info,
            decoder_model_info: self.decoder_model_info,
            initial_display_delay_present_flag: self.initial_display_delay_present_flag,
            operating_points: self.operating_points@,
        }
    }
}

impl OperatingSetView {
    /// There are 1 to 32 operating points, each in its ranges; a decoder
    /// model needs timing information, decoder model parameters need a
    /// decoder model, and a display delay other than the default needs the
    /// flag.
    pub open spec fn wf(self) -> bool {
        &&& 1 <= self.operating_points.len() <= MAX_OPERATING_POINTS
        &&& forall|i: int|
            0 <= i < self.operating_points.len() ==> (#[trigger] self.operating_points[i]).wf()
        &&& self.decoder_model_info is Some ==> self.timing_info is Some
        &&& self.decoder_model_info matches Some(m) ==> m.wf()
        &&& self.decoder_model_info is None ==> forall|i: int|
            0 <= i < self.operating_points.len() ==> (
            #[trigger] self.operating_points[i]).operating_parameters_info is None
        &&& !self.initial_display_delay_present_flag ==> forall|i: int|
            0 <= i < self.operating_points.len() ==> (
            #[trigger] self.operating_points[i]).initial_display_delay
            == DEFAULT_INITIAL_DISPLAY_DELAY
    }

    /// The operating set of a reduced still picture header with the given level.
    pub open spec fn reduced(level_idx: u8) -> Self {
        OperatingSetView {
            timing_info: None,
            decoder_model_info: None,
            initial_display_delay_present_flag: false,
            operating_points: seq![OperatingPoint::reduced(level_idx)],
        }
    }
}

impl OperatingSet {
    /// Timing information behind a presence bit that is set, and behind it
    /// the decoder model behind another.
    pub open spec fn spec_models(s: Seq<bool>, pos: int) -> Decoded<
        (Option<TimingInfo>, Option<DecoderModelInfo>),
    > {
        match spec_bit(s, pos) {
            Err(e) => Err(e),
            Ok((timing_present, pos1)) => if !timing_present {
                Ok(((None, None), pos1))
            } else {
                match TimingInfo::spec_decode(s, pos1) {
                    Err(e) => Err(e),
                    Ok((timing, pos2)) => match spec_bit(s, pos2) {
                        Err(e) => Err(e),
                        Ok((model_present, pos3)) => if !model_present {
                            Ok(((Some(timing), None), pos3))
                        } else {
                            match DecoderModelInfo::spec_decode(s, pos3) {
                                Err(e) => Err(e),
                                Ok((model, pos4)) => Ok(((Some(timing), Some(model)), pos4)),
                            }
                        },
                    },
                }
            },
        }
    }

    /// Reads timing information and decoder model, as far as the stream has them.
    fn models(reader: &mut BitReader) -> (r: Result<
        (Option<TimingInfo>, Option<DecoderModelInfo>),
        ObuError,
    >)
        ensures
            old(reader).advanced(
                *final(reader),
                r,
                Self::spec_models(old(reader).stream(), old(reader).position()),
            ),
            r matches Ok(m) ==> {
                &&& m.1 is Some ==> m.0 is Some
                &&& m.1 matches Some(d) ==> d.wf()
            },
    {
        if !reader.bit()? {
            return Ok((None, None));
        }
        let timing = TimingInfo::decode(reader)?;
        if !reader.bit()? {
            return Ok((Some(timing), None));
        }
        let model = DecoderModelInfo::decode(reader)?;
        Ok((Some(timing), Some(model)))
    }

    /// The operating set at `pos`. A reduced header has a level of five bits
    /// and nothing else. Any other has timing information and decoder model,
    /// the display delay flag, a count of five bits that is one less than the
    /// number of operating points, and the operating points.
    #[verifier::opaque]
    pub open spec fn spec_decode(s: Seq<bool>, pos: int, reduced: bool) -> Decoded<
        OperatingSetView,
    > {
        if reduced {
            match spec_bits(s, pos, 5) {
                Err(e) => Err(e),
                Ok((level, end)) => Ok((OperatingSetView::reduced(level as u8), end)),
            }
        } else {
            match Self::spec_models(s, pos) {
                Err(e) => Err(e),
                Ok(((timing_info, decoder_model_info), pos1)) => if pos1 + 6 > s.len() {
                    Err(ObuError::Truncated)
                } else {
                    let initial_display_delay_present_flag = s[pos1];
                    match OperatingPoint::spec_list(
                        s,
                        pos1 + 6,
                        bits_value(s, pos1 + 1, 5) + 1,
                        decoder_model_info,
                        initial_display_delay_present_flag,
                    ) {
                        Err(e) => Err(e),
                        Ok((operating_points, end)) => Ok(
                            (
                                OperatingSetView {
                                    timing_info,
                                    decoder_model_info,
                                    initial_display_delay_present_flag,
                                    operating_points,
                                },
                                end,
                            ),
                        ),
                    }
                },
            }
        }
    }

    /// A decoded operating set is valid and ends inside the window, and that
    /// of a reduced header is the one that its level gives.
    pub proof fn lemma_decoded_valid(s: Seq<bool>, pos: int, reduced: bool)
        ensures
            Self::spec_decode(s, pos, reduced) matches Ok((set, end)) ==> {
                &&& set.wf()
                &&& pos < end <= s.len()
                &&& reduced ==> set == OperatingSetView::reduced(set.operating_points[0].level_idx)
            },
    {
        reveal(OperatingSet::spec_decode);
        lemma2_to64();
        if reduced {
            lemma_bits_exact(s, pos, 5);
        } else if let Ok(((_, decoder_model_info), pos1)) = Self::spec_models(s, pos) {
            TimingInfo::lemma_decoded_valid(s, pos + 1);
            if let Ok((_, pos2)) = TimingInfo::spec_decode(s, pos + 1) {
                DecoderModelInfo::lemma_decoded_valid(s, pos2 + 1);
            }
            lemma_bits_value_bound(s, pos1 + 1, 5);
            OperatingPoint::lemma_list_valid(
                s,
                pos1 + 6,
                bits_value(s, pos1 + 1, 5) + 1,
                decoder_model_info,
                s[pos1],
            );
        }
    }

    /// Reads the operating set of a header that is reduced or not.
    pub fn decode(reader: &mut BitReader, reduced: bool) -> (r: Result<Self, ObuError>)
        ensures
            old(reader).advanced(
                *final(reader),
                match r {
                    Ok(set) => Ok(set@),
                    Err(e) => Err(e),
                },
                Self::spec_decode(old(reader).stream(), old(reader).position(), reduced),
            ),
            r matches Ok(set) ==> {
                &&& set@.wf()
                &&& reduced ==> set@ == OperatingSetView::reduced(
                    set.operating_points@[0].level_idx,
                )
            },
    {
        reveal(OperatingSet::spec_decode);
        proof {
            lemma2_to64();
        }
        if reduced {
            proof {
                lemma_bits_value_bound(reader.stream(), reader.position(), 5);
            }
            let level_idx = reader.bits(5)? as u8;
            let mut operating_points = Vec::new();
            operating_points.push(
                OperatingPoint {
                    idc: 0,
                    level_idx,
                    tier: false,
                    operating_parameters_info: None,
                    initial_display_delay: DEFAULT_INITIAL_DISPLAY_DELAY,
                },
            );
            assert(operating_points@ =~= seq![OperatingPoint::reduced(level_idx)]);
            return Ok(
                OperatingSet {
                    timing_info: None,
                    decoder_model_info: None,
                    initial_display_delay_present_flag: false,
                    operating_points,
                },
            );
        }
        let (timing_info, decoder_model_info) = Self::models(reader)?;
        let initial_display_delay_present_flag = reader.bit()?;
        proof {
            lemma_bits_value_bound(reader.stream(), reader.position(), 5);
        }
        let count = reader.bits(5)? as usize + 1;
        let operating_points = OperatingPoint::decode_list(
            reader,
            count,
            decoder_model_info,
            initial_display_delay_present_flag,
        )?;
        Ok(
            OperatingSet {
                timing_info,
                decoder_model_info,
                initial_display_delay_present_flag,
                operating_points,
            },
        )
    }
}

/// The layer mask of the operating point at `index`, or of the first one
/// where the list has no such index.
pub open spec fn selected_idc(points: Seq<OperatingPoint>, index: usize) -> u16 {
    if index < points.len() {
        points[index as int].idc
    } else {
        points[0].idc
    }
}

} // verus!
