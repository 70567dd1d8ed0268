//! The sequence header: the parameters that hold for a whole coded sequence.

use vstd::prelude::*;
use vstd::arithmetic::power2::lemma2_to64;
use crate::bitstream::{bits_value, spec_bit, lemma_bits_value_bound, Decoded};
use crate::context::DecodeContext;
use crate::error::{ObuError, ObuUnknownError};
use crate::obu::color_config::{spec_coded, ColorConfig};
use crate::obu::frame::{
    spec_three_flags, three_flags, FrameIdNumbersPresent, FramePart, FrameSize, Tools,
};
use crate::obu::operating_point::{
    selected_idc, OperatingPoint, OperatingSet, OperatingSetView,
};
use crate::obu::profile::SequenceProfile;
use crate::obu::timing::{DecoderModelInfo, TimingInfo};
use crate::reader::BitReader;

verus! {

/// The sequence header.
#[derive(Debug, Clone, PartialEq, Eq)]
pub struct SequenceHeader {
    pub seq_profile: SequenceProfile,
    pub still_picture: bool,
    pub reduced_still_picture_header: bool,
    pub timing_info: Option<TimingInfo>,
    pub decoder_model_info: Option<DecoderModelInfo>,
    pub initial_display_delay_present_flag: bool,
    pub operating_points: Vec<OperatingPoint>,
    pub frame_width_bits: u8,
    pub frame_height_bits: u8,
    pub max_frame_width: u16,
    pub max_frame_height: u16,
    pub frame_id_numbers_present: Option<FrameIdNumbersPresent>,
    pub use_128x128_superblock: bool,
    pub enable_filter_intra: bool,
    pub enable_intra_edge_filter: bool,
    pub enable_interintra_compound: bool,
    pub enable_masked_compound: bool,
    pub enable_warped_motion: bool,
    pub enable_dual_filter: bool,
    pub enable_order_hint: bool,
    pub enable_jnt_comp: bool,
    pub enable_ref_frame_mvs: bool,
    pub seq_choose_screen_content_tools: bool,
    pub seq_force_screen_content_tools: u8,
    pub seq_force_integer_mv: u8,
    pub enable_superres: bool,
    pub enable_cdef: bool,
    pub enable_restoration: bool,
    pub color_config: ColorConfig,
    pub film_grain_params_present: bool,
}

/// A sequence header as a mathematical value.
pub struct SequenceHeaderView {
    pub seq_profile: SequenceProfile,
    pub still_picture: bool,
    pub reduced_still_picture_header: bool,
    pub timing_info: Option<TimingInfo>,
    pub decoder_model_info: Option<DecoderModelInfo>,
    pub initial_display_delay_present_flag: bool,
    pub operating_points: Seq<OperatingPoint>,
    pub frame_width_bits: u8,
    pub frame_height_bits: u8,
    pub max_frame_width: u16,
    pub max_frame_height: u16,
    pub frame_id_numbers_present: Option<FrameIdNumbersPresent>,
    pub use_128x128_superblock: bool,
    pub enable_filter_intra: bool,
    pub enable_intra_edge_filter: bool,
    pub enable_interintra_compound: bool,
    pub enable_masked_compound: bool,
    pub enable_warped_motion: bool,
    pub enable_dual_filter: bool,
    pub enable_order_hint: bool,
    pub enable_jnt_comp: bool,
    pub enable_ref_frame_mvs: bool,
    pub seq_choose_screen_content_tools: bool,
    pub seq_force_screen_content_tools: u8,
    pub seq_force_integer_mv: u8,
    pub enable_superres: bool,
    pub enable_cdef: bool,
    pub enable_restoration: bool,
    pub color_config: ColorConfig,
    pub film_grain_params_present: bool,
}

/// The profile, a code of three bits, and the two still picture flags.
#[verifier::opaque]
pub open spec fn spec_preamble(s: Seq<bool>, pos: int) -> Decoded<(SequenceProfile, bool, bool)> {
    match spec_coded(s, pos, 3, |c: u8| SequenceProfile::of_code(c)) {
        Err(e) => Err(e),
        Ok((profile, pos1)) => if pos1 + 2 > s.len() {
            Err(ObuError::Truncated)
        } else {
            Ok(((profile, s[pos1], s[pos1 + 1]), pos1 + 2))
        },
    }
}

/// Reads the profile and the two still picture flags.
fn preamble(reader: &mut BitReader) -> (r: Result<(SequenceProfile, bool, bool), ObuError>)
    ensures
        old(reader).advanced(
            *final(reader),
            r,
            spec_preamble(old(reader).stream(), old(reader).position()),
        ),
{
    reveal(spec_preamble);
    proof {
        lemma2_to64();
        lemma_bits_value_bound(reader.stream(), reader.position(), 3);
    }
    let profile = SequenceProfile::try_from(reader.bits(3)? as u8)?;
    let still_picture = reader.bit()?;
    let reduced_still_picture_header = reader.bit()?;
    Ok((profile, still_picture, reduced_still_picture_header))
}

impl View for SequenceHeader {
    type V = SequenceHeaderView;

    open spec fn view(&self) -> SequenceHeaderView {
        SequenceHeaderView {
            seq_profile: self.seq_profile,
            still_picture: self.still_picture,
            reduced_still_picture_header: self.reduced_still_picture_header,
            timing_info: self.timing_info,
            decoder_model_info: self.decoder_model_info,
            initial_display_delay_present_flag: self.initial_display_delay_present_flag,
            operating_points: self.operating_points@,
            frame_width_bits: self.frame_width_bits,
            frame_height_bits: self.frame_height_bits,
            max_frame_width: self.max_frame_width,
            max_frame_height: self.max_frame_height,
            frame_id_numbers_present: self.frame_id_numbers_present,
            use_128x128_superblock: self.use_128x128_superblock,
            enable_filter_intra: self.enable_filter_intra,
            enable_intra_edge_filter: self.enable_intra_edge_filter,
            enable_interintra_compound: self.enable_interintra_compound,
            enable_masked_compound: self.enable_masked_compound,
            enable_warped_motion: self.enable_warped_motion,
            enable_dual_filter: self.enable_dual_filter,
            enable_order_hint: self.enable_order_hint,
            enable_jnt_comp: self.enable_jnt_comp,
            enable_ref_frame_mvs: self.enable_ref_frame_mvs,
            seq_choose_screen_content_tools: self.seq_choose_screen_content_tools,
            seq_force_screen_content_tools: self.seq_force_screen_content_tools,
            seq_force_integer_mv: self.seq_force_integer_mv,
            enable_superres: self.enable_superres,
            enable_cdef: self.enable_cdef,
            enable_restoration: self.enable_restoration,
            color_config: self.color_config,
            film_grain_params_present: self.film_grain_params_present,
        }
    }
}

impl SequenceHeaderView {
    /// The header that is made of these parts.
    pub open spec fn assemble(
        preamble: (SequenceProfile, bool, bool),
        set: OperatingSetView,
        part: FramePart,
        post: (bool, bool, bool),
        color_config: ColorConfig,
        film_grain_params_present: bool,
    ) -> Self {
        SequenceHeaderView {
            seq_profile: preamble.0,
            still_picture: preamble.1,
            reduced_still_picture_header: preamble.2,
            timing_info: set.timing_info,
            decoder_model_info: set.decoder_model_info,
            initial_display_delay_present_flag: set.initial_display_delay_present_flag,
            operating_points: set.operating_points,
            frame_width_bits: part.size.frame_width_bits,
            frame_height_bits: part.size.frame_height_bits,
            max_frame_width: part.size.max_frame_width,
            max_frame_height: part.size.max_frame_height,
            frame_id_numbers_present: part.frame_id_numbers_present,
            use_128x128_superblock: part.use_128x128_superblock,
            enable_filter_intra: part.enable_filter_intra,
            enable_intra_edge_filter: part.enable_intra_edge_filter,
            enable_interintra_compound: part.tools.enable_interintra_compound,
            enable_masked_compound: part.tools.enable_masked_compound,
            enable_warped_motion: part.tools.enable_warped_motion,
            enable_dual_filter: part.tools.enable_dual_filter,
            enable_order_hint: part.tools.enable_order_hint,
            enable_jnt_comp: part.tools.enable_jnt_comp,
            enable_ref_frame_mvs: part.tools.enable_ref_frame_mvs,
            seq_choose_screen_content_tools: part.tools.seq_choose_screen_content_tools,
            seq_force_screen_content_tools: part.tools.seq_force_screen_content_tools,
            seq_force_integer_mv: part.tools.seq_force_integer_mv,
            enable_superres: post.0,
            enable_cdef: post.1,
            enable_restoration: post.2,
            color_config,
            film_grain_params_present,
        }
    }

    /// A header that is made of parts has these parts.
    pub proof fn lemma_assembled_parts(
        preamble: (SequenceProfile, bool, bool),
        set: OperatingSetView,
        part: FramePart,
        post: (bool, bool, bool),
        color_config: ColorConfig,
        film_grain_params_present: bool,
    )
        ensures
            ({
                let h = Self::assemble(
                    preamble,
                    set,
                    part,
                    post,
                    color_config,
                    film_grain_params_present,
                );
                &&& h.seq_profile == preamble.0
                &&& h.reduced_still_picture_header == preamble.2
                &&& h.operating_points == set.operating_points
                &&& h.operating_set() == set
                &&& h.frame_part(part.tools.order_hint_bits) == part
                &&& h.color_config == color_config
            }),
    {
    }

    /// The operating set in this header.
    pub open spec fn operating_set(self) -> OperatingSetView {
        OperatingSetView {
            timing_info: self.timing_info,
            decoder_model_info: self.decoder_model_info,
            initial_display_delay_present_flag: self.initial_display_delay_present_flag,
            operating_points: self.operating_points,
        }
    }

    /// The part of this header between the operating set and the three flags
    /// in front of the colour configuration, for a given width of the order
    /// hints, which the header itself does not keep.
    pub open spec fn frame_part(self, order_hint_bits: usize) -> FramePart {
        FramePart {
            size: FrameSize {
                frame_width_bits: self.frame_width_bits,
                frame_height_bits: self.frame_height_bits,
                max_frame_width: self.max_frame_width,
                max_frame_height: self.max_frame_height,
            },
            frame_id_numbers_present: self.frame_id_numbers_present,
            use_128x128_superblock: self.use_128x128_superblock,
            enable_filter_intra: self.enable_filter_intra,
            enable_intra_edge_filter: self.enable_intra_edge_filter,
            tools: Tools {
                enable_interintra_compound: self.enable_interintra_compound,
                enable_masked_compound: self.enable_masked_compound,
                enable_warped_motion: self.enable_warped_motion,
                enable_dual_filter: self.enable_dual_filter,
                enable_order_hint: self.enable_order_hint,
                enable_jnt_comp: self.enable_jnt_comp,
                enable_ref_frame_mvs: self.enable_ref_frame_mvs,
                seq_choose_screen_content_tools: self.seq_choose_screen_content_tools,
                seq_force_screen_content_tools: self.seq_force_screen_content_tools,
                seq_force_integer_mv: self.seq_force_integer_mv,
                order_hint_bits,
            },
        }
    }

    /// What holds of a decoded header and the context that its decoding left:
    /// every part is in its ranges, a reduced header has the one synthesized
    /// operating point and nothing optional, and the context holds what the
    /// header resolved.
    pub open spec fn wf(self, ctx: DecodeContext) -> bool {
        &&& self.operating_set().wf()
        &&& self.frame_part(ctx.order_hint_bits).wf(self.reduced_still_picture_header)
        &&& self.color_config.wf(self.seq_profile)
        &&& self.reduced_still_picture_header ==> self.operating_set() == OperatingSetView::reduced(
            self.operating_points[0].level_idx,
        )
        &&& ctx.operating_point_idc == selected_idc(self.operating_points, ctx.operating_point)
        &&& ctx.bit_depth == self.color_config.bit_depth()
        &&& ctx.num_planes == self.color_config.num_planes()
    }
}

/// The view of a header that is put together from its parts is the header
/// that the model assembles from the views of these parts.
proof fn lemma_assembled_view(
    h: SequenceHeader,
    preamble: (SequenceProfile, bool, bool),
    set: OperatingSet,
    part: FramePart,
    post: (bool, bool, bool),
    color_config: ColorConfig,
    film_grain_params_present: bool,
)
    requires
        h == (SequenceHeader {
            seq_profile: preamble.0,
            still_picture: preamble.1,
            reduced_still_picture_header: preamble.2,
            timing_info: set.timing_info,
            decoder_model_info: set.decoder_model_info,
            initial_display_delay_present_flag: set.initial_display_delay_present_flag,
            operating_points: set.operating_points,
            frame_width_bits: part.size.frame_width_bits,
            frame_height_bits: part.size.frame_height_bits,
            max_frame_width: part.size.max_frame_width,
            max_frame_height: part.size.max_frame_height,
            frame_id_numbers_present: part.frame_id_numbers_present,
            use_128x128_superblock: part.use_128x128_superblock,
            enable_filter_intra: part.enable_filter_intra,
            enable_intra_edge_filter: part.enable_intra_edge_filter,
            enable_interintra_compound: part.tools.enable_interintra_compound,
            enable_masked_compound: part.tools.enable_masked_compound,
            enable_warped_motion: part.tools.enable_warped_motion,
            enable_dual_filter: part.tools.enable_dual_filter,
            enable_order_hint: part.tools.enable_order_hint,
            enable_jnt_comp: part.tools.enable_jnt_comp,
            enable_ref_frame_mvs: part.tools.enable_ref_frame_mvs,
            seq_choose_screen_content_tools: part.tools.seq_choose_screen_content_tools,
            seq_force_screen_content_tools: part.tools.seq_force_screen_content_tools,
            seq_force_integer_mv: part.tools.seq_force_integer_mv,
            enable_superres: post.0,
            enable_cdef: post.1,
            enable_restoration: post.2,
            color_config,
            film_grain_params_present,
        }),
    ensures
        h@ == SequenceHeaderView::assemble(
            preamble,
            set@,
            part,
            post,
            color_config,
            film_grain_params_present,
        ),
{
}

impl SequenceHeader {
    /// The first stage of a header: the preamble and the operating set. The
    /// context gets the layer mask of the operating point that it names.
    #[verifier::opaque]
    pub open spec fn spec_operating(ctx: DecodeContext, s: Seq<bool>, pos: int) -> (
        DecodeContext,
        Decoded<((SequenceProfile, bool, bool), OperatingSetView)>,
    ) {
        match spec_preamble(s, pos) {
            Err(e) => (ctx, Err(e)),
            Ok((preamble, pos1)) => match OperatingSet::spec_decode(s, pos1, preamble.2) {
                Err(e) => (ctx, Err(e)),
                Ok((set, pos2)) => (
                    DecodeContext {
                        operating_point_idc: selected_idc(set.operating_points, ctx.operating_point),
                        ..ctx
                    },
                    Ok(((preamble, set), pos2)),
                ),
            },
        }
    }

    /// The second stage of a header: frame size, frame number lengths, flags
    /// and tools, then three more flags. The context gets the width of the
    /// order hints once the tools are read.
    #[verifier::opaque]
    pub open spec fn spec_frame(ctx: DecodeContext, s: Seq<bool>, pos: int, reduced: bool) -> (
        DecodeContext,
        Decoded<(FramePart, (bool, bool, bool))>,
    ) {
        match FramePart::spec_decode(s, pos, reduced) {
            Err(e) => (ctx, Err(e)),
            Ok((part, pos1)) => {
                let ctx1 = DecodeContext { order_hint_bits: part.tools.order_hint_bits, ..ctx };
                match spec_three_flags(s, pos1) {
                    Err(e) => (ctx1, Err(e)),
                    Ok((post, pos2)) => (ctx1, Ok(((part, post), pos2))),
                }
            },
        }
    }

    /// The third stage of a header: the colour configuration, which gives
    /// the context bit depth and plane count, and the film grain flag.
    #[verifier::opaque]
    pub open spec fn spec_color(
        ctx: DecodeContext,
        s: Seq<bool>,
        pos: int,
        profile: SequenceProfile,
    ) -> (DecodeContext, Decoded<(ColorConfig, bool)>) {
        let (ctx1, color) = ColorConfig::spec_decode(ctx, s, pos, profile);
        match color {
            Err(e) => (ctx1, Err(e)),
            Ok((color_config, pos1)) => match spec_bit(s, pos1) {
                Err(e) => (ctx1, Err(e)),
                Ok((film_grain_params_present, pos2)) => (
                    ctx1,
                    Ok(((color_config, film_grain_params_present), pos2)),
                ),
            },
        }
    }

    /// The sequence header at `pos`, and the context behind it: the three
    /// stages in a row. Where a stage fails, the context keeps what it got
    /// up to there.
    pub open spec fn spec_decode(ctx: DecodeContext, s: Seq<bool>, pos: int) -> (
        DecodeContext,
        Decoded<SequenceHeaderView>,
    ) {
        let (ctx1, operating) = Self::spec_operating(ctx, s, pos);
        match operating {
            Err(e) => (ctx1, Err(e)),
            Ok(((preamble, set), pos1)) => {
                let (ctx2, frame) = Self::spec_frame(ctx1, s, pos1, preamble.2);
                match frame {
                    Err(e) => (ctx2, Err(e)),
                    Ok(((part, post), pos2)) => {
                        let (ctx3, color) = Self::spec_color(ctx2, s, pos2, preamble.0);
                        match color {
                            Err(e) => (ctx3, Err(e)),
                            Ok(((color_config, film_grain_params_present), pos3)) => (
                                ctx3,
                                Ok(
                                    (
                                        SequenceHeaderView::assemble(
                                            preamble,
                                            set,
                                            part,
                                            post,
                                            color_config,
                                            film_grain_params_present,
                                        ),
                                        pos3,
                                    ),
                                ),
                            ),
                        }
                    },
                }
            },
        }
    }

    /// A header starts with the code of its profile. Where the code is 0, 1
    /// or 2, a decoded header has that profile; with any other code the header
    /// fails as one of unknown profile, and the context stays as it was.
    pub proof fn lemma_profile(ctx: DecodeContext, s: Seq<bool>, pos: int)
        requires
            pos + 3 <= s.len(),
        ensures
            bits_value(s, pos, 3) >= 3 ==> Self::spec_decode(ctx, s, pos) == (
                ctx,
                Err::<(SequenceHeaderView, int), ObuError>(
                    ObuError::UnknownCode(ObuUnknownError::Profile),
                ),
            ),
            Self::spec_decode(ctx, s, pos).1 matches Ok((h, end)) ==> SequenceProfile::of_code(
                bits_value(s, pos, 3) as u8,
            ) == Ok::<SequenceProfile, ObuError>(h.seq_profile),
    {
        reveal(SequenceHeader::spec_operating);
        reveal(spec_preamble);
        lemma2_to64();
        lemma_bits_value_bound(s, pos, 3);
    }

    /// The first stage changes the layer mask in the context and nothing
    /// else, and only where it succeeds. Its operating set is valid, and the
    /// layer mask is that of the chosen operating point.
    pub proof fn lemma_operating_valid(ctx: DecodeContext, s: Seq<bool>, pos: int)
        ensures
            ({
                let (after, decoded) = Self::spec_operating(ctx, s, pos);
                &&& after == (DecodeContext {
                    operating_point_idc: after.operating_point_idc,
                    ..ctx
                })
                &&& decoded is Err ==> after == ctx
                &&& decoded matches Ok(((preamble, set), end)) ==> {
                    &&& set.wf()
                    &&& preamble.2 ==> set == OperatingSetView::reduced(
                        set.operating_points[0].level_idx,
                    )
                    &&& after.operating_point_idc == selected_idc(
                        set.operating_points,
                        ctx.operating_point,
                    )
                    &&& after.operating_point_idc < 4096
                    &&& pos < end <= s.len()
                }
            }),
    {
        reveal(SequenceHeader::spec_operating);
        reveal(spec_preamble);
        if let Ok((preamble, pos1)) = spec_preamble(s, pos) {
            OperatingSet::lemma_decoded_valid(s, pos1, preamble.2);
        }
    }

    /// The second stage changes the width of the order hints in the context
    /// and nothing else, and the width stays in its range. Its part is valid,
    /// and the width is that of its tools.
    pub proof fn lemma_frame_valid(ctx: DecodeContext, s: Seq<bool>, pos: int, reduced: bool)
        ensures
            ({
                let (after, decoded) = Self::spec_frame(ctx, s, pos, reduced);
                &&& after == (DecodeContext { order_hint_bits: after.order_hint_bits, ..ctx })
                &&& ctx.order_hint_bits <= 8 ==> after.order_hint_bits <= 8
                &&& decoded matches Ok(((part, post), end)) ==> {
                    &&& part.wf(reduced)
                    &&& after.order_hint_bits == part.tools.order_hint_bits
                    &&& pos < end <= s.len()
                }
            }),
    {
        reveal(SequenceHeader::spec_frame);
        FramePart::lemma_decoded_valid(s, pos, reduced);
    }

    /// The third stage changes bit depth and plane count in the context and
    /// nothing else, and both stay in their ranges. Its colour configuration
    /// is valid, and bit depth and plane count are its own.
    pub proof fn lemma_color_valid(
        ctx: DecodeContext,
        s: Seq<bool>,
        pos: int,
        profile: SequenceProfile,
    )
        ensures
            ({
                let (after, decoded) = Self::spec_color(ctx, s, pos, profile);
                &&& after == (DecodeContext {
                    bit_depth: after.bit_depth,
                    num_planes: after.num_planes,
                    ..ctx
                })
                &&& ctx.wf() ==> after.wf()
                &&& decoded matches Ok(((color_config, film), end)) ==> {
                    &&& color_config.wf(profile)
                    &&& after.bit_depth == color_config.bit_depth()
                    &&& after.num_planes == color_config.num_planes()
                    &&& pos < end <= s.len()
                }
            }),
    {
        reveal(SequenceHeader::spec_color);
        ColorConfig::lemma_context(ctx, s, pos, profile);
        ColorConfig::lemma_decoded_len(ctx, s, pos, profile);
    }

    /// A decoded header is valid together with the context that its decoding
    /// leaves, and ends inside the window. Whether the header is decoded or
    /// not, a valid context stays valid and keeps its operating point.
    pub proof fn lemma_decoded_valid(ctx: DecodeContext, s: Seq<bool>, pos: int)
        ensures
            Self::spec_decode(ctx, s, pos).0.operating_point == ctx.operating_point,
            ctx.wf() ==> Self::spec_decode(ctx, s, pos).0.wf(),
            Self::spec_decode(ctx, s, pos).1 matches Ok((h, end)) ==> {
                &&& h.wf(Self::spec_decode(ctx, s, pos).0)
                &&& Self::spec_decode(ctx, s, pos).0.wf()
                &&& pos < end <= s.len()
            },
    {
        Self::lemma_operating_valid(ctx, s, pos);
        let (ctx1, operating) = Self::spec_operating(ctx, s, pos);
        if let Ok(((preamble, set), pos1)) = operating {
            Self::lemma_frame_valid(ctx1, s, pos1, preamble.2);
            let (ctx2, frame) = Self::spec_frame(ctx1, s, pos1, preamble.2);
            if let Ok(((part, post), pos2)) = frame {
                Self::lemma_color_valid(ctx2, s, pos2, preamble.0);
                let (ctx3, color) = Self::spec_color(ctx2, s, pos2, preamble.0);
                if let Ok(((color_config, film), _)) = color {
                    SequenceHeaderView::lemma_assembled_parts(
                        preamble,
                        set,
                        part,
                        post,
                        color_config,
                        film,
                    );
                    assert(ctx3.order_hint_bits == part.tools.order_hint_bits);
                }
            }
        }
    }

    /// A reduced still picture header has the one operating point that the
    /// decoder makes up for it, with an empty layer mask and the default
    /// display delay, and leaves the context without order hints.
    pub proof fn lemma_reduced(ctx: DecodeContext, s: Seq<bool>, pos: int)
        ensures
            Self::spec_decode(ctx, s, pos).1 matches Ok((h, end)) ==> (
            h.reduced_still_picture_header ==> {
                &&& Self::spec_decode(ctx, s, pos).0.order_hint_bits == 0
                &&& h.operating_points.len() == 1
                &&& h.operating_points[0].idc == 0
                &&& h.operating_points[0].initial_display_delay == 10
                &&& h.operating_points[0].operating_parameters_info is None
                &&& h.timing_info is None
                &&& h.decoder_model_info is None
                &&& h.frame_id_numbers_present is None
                &&& !h.enable_order_hint
            }),
    {
        reveal(SequenceHeader::spec_operating);
        reveal(SequenceHeader::spec_frame);
        reveal(SequenceHeader::spec_color);
        reveal(OperatingSet::spec_decode);
        reveal(FramePart::spec_decode);
        reveal(Tools::spec_decode);
        reveal(ColorConfig::spec_decode);
    }

    /// Reads the first stage of a header.
    fn operating(ctx: &mut DecodeContext, reader: &mut BitReader) -> (r: Result<
        ((SequenceProfile, bool, bool), OperatingSet),
        ObuError,
    >)
        ensures
            *final(ctx) == Self::spec_operating(
                *old(ctx),
                old(reader).stream(),
                old(reader).position(),
            ).0,
            old(reader).advanced(
                *final(reader),
                match r {
                    Ok(v) => Ok((v.0, v.1@)),
                    Err(e) => Err(e),
                },
                Self::spec_operating(*old(ctx), old(reader).stream(), old(reader).position()).1,
            ),
            *final(ctx) == (DecodeContext {
                operating_point_idc: final(ctx).operating_point_idc,
                ..*old(ctx)
            }),
            r is Err ==> *final(ctx) == *old(ctx),
            r matches Ok(v) ==> {
                &&& v.1@.wf()
                &&& v.0.2 ==> v.1@ == OperatingSetView::reduced(v.1.operating_points@[0].level_idx)
                &&& final(ctx).operating_point_idc == selected_idc(
                    v.1.operating_points@,
                    old(ctx).operating_point,
                )
                &&& final(ctx).operating_point_idc < 4096
            },
    {
        reveal(SequenceHeader::spec_operating);
        let preamble = preamble(reader)?;
        let set = OperatingSet::decode(reader, preamble.2)?;
        ctx.operating_point_idc = if ctx.operating_point < set.operating_points.len() {
            set.operating_points[ctx.operating_point].idc
        } else {
            set.operating_points[0].idc
        };
        Ok((preamble, set))
    }

    /// Reads the second stage of a header.
    fn frame(ctx: &mut DecodeContext, reader: &mut BitReader, reduced: bool) -> (r: Result<
        (FramePart, (bool, bool, bool)),
        ObuError,
    >)
        ensures
            *final(ctx) == Self::spec_frame(
                *old(ctx),
                old(reader).stream(),
                old(reader).position(),
                reduced,
            ).0,
            old(reader).advanced(
                *final(reader),
                r,
                Self::spec_frame(
                    *old(ctx),
                    old(reader).stream(),
                    old(reader).position(),
                    reduced,
                ).1,
            ),
            *final(ctx) == (DecodeContext {
                order_hint_bits: final(ctx).order_hint_bits,
                ..*old(ctx)
            }),
            old(ctx).order_hint_bits <= 8 ==> final(ctx).order_hint_bits <= 8,
            r matches Ok(v) ==> {
                &&& v.0.wf(reduced)
                &&& final(ctx).order_hint_bits == v.0.tools.order_hint_bits
            },
    {
        reveal(SequenceHeader::spec_frame);
        let part = FramePart::decode(reader, reduced)?;
        ctx.order_hint_bits = part.tools.order_hint_bits;
        let post = three_flags(reader)?;
        Ok((part, post))
    }

    /// Reads the third stage of a header.
    fn color(
        ctx: &mut DecodeContext,
        reader: &mut BitReader,
        profile: SequenceProfile,
    ) -> (r: Result<(ColorConfig, bool), ObuError>)
        ensures
            *final(ctx) == Self::spec_color(
                *old(ctx),
                old(reader).stream(),
                old(reader).position(),
                profile,
            ).0,
            old(reader).advanced(
                *final(reader),
                r,
                Self::spec_color(
                    *old(ctx),
                    old(reader).stream(),
                    old(reader).position(),
                    profile,
                ).1,
            ),
            *final(ctx) == (DecodeContext {
                bit_depth: final(ctx).bit_depth,
                num_planes: final(ctx).num_planes,
                ..*old(ctx)
            }),
            old(ctx).wf() ==> final(ctx).wf(),
            r matches Ok(v) ==> {
                &&& v.0.wf(profile)
                &&& final(ctx).bit_depth == v.0.bit_depth()
                &&& final(ctx).num_planes == v.0.num_planes()
            },
    {
        reveal(SequenceHeader::spec_color);
        let color_config = ColorConfig::decode(ctx, reader, profile)?;
        let film_grain_params_present = reader.bit()?;
        Ok((color_config, film_grain_params_present))
    }

    /// Reads a sequence header, and records in the context the layer mask of
    /// the operating point that the context names, the width of the order
    /// hints, the bit depth and the number of planes.
    pub fn decode(ctx: &mut DecodeContext, reader: &mut BitReader) -> (r: Result<Self, ObuError>)
        ensures
            *final(ctx) == Self::spec_decode(
                *old(ctx),
                old(reader).stream(),
                old(reader).position(),
            ).0,
            old(reader).advanced(
                *final(reader),
                match r {
                    Ok(h) => Ok(h@),
                    Err(e) => Err(e),
                },
                Self::spec_decode(*old(ctx), old(reader).stream(), old(reader).position()).1,
            ),
            final(ctx).operating_point == old(ctx).operating_point,
            old(ctx).wf() ==> final(ctx).wf(),
            r matches Ok(h) ==> h@.wf(*final(ctx)) && final(ctx).wf(),
            r matches Ok(h) ==> (h.reduced_still_picture_header ==> {
                &&& final(ctx).order_hint_bits == 0
                &&& h.operating_points@.len() == 1
                &&& h.operating_points@[0].idc == 0
                &&& h.operating_points@[0].initial_display_delay == 10
            }),
    {
        let (preamble, set) = Self::operating(ctx, reader)?;
        let (part, post) = Self::frame(ctx, reader, preamble.2)?;
        let (color_config, film_grain_params_present) = Self::color(ctx, reader, preamble.0)?;
        let h = SequenceHeader {
            seq_profile: preamble.0,
            still_picture: preamble.1,
            reduced_still_picture_header: preamble.2,
            timing_info: set.timing_info,
            decoder_model_info: set.decoder_model_info,
            initial_display_delay_present_flag: set.initial_display_delay_present_flag,
            operating_points: set.operating_points,
            frame_width_bits: part.size.frame_width_bits,
            frame_height_bits: part.size.frame_height_bits,
            max_frame_width: part.size.max_frame_width,
            max_frame_height: part.size.max_frame_height,
            frame_id_numbers_present: part.frame_id_numbers_present,
            use_128x128_superblock: part.use_128x128_superblock,
            enable_filter_intra: part.enable_filter_intra,
            enable_intra_edge_filter: part.enable_intra_edge_filter,
            enable_interintra_compound: part.tools.enable_interintra_compound,
            enable_masked_compound: part.tools.enable_masked_compound,
            enable_warped_motion: part.tools.enable_warped_motion,
            enable_dual_filter: part.tools.enable_dual_filter,
            enable_order_hint: part.tools.enable_order_hint,
            enable_jnt_comp: part.tools.enable_jnt_comp,
            enable_ref_frame_mvs: part.tools.enable_ref_frame_mvs,
            seq_choose_screen_content_tools: part.tools.seq_choose_screen_content_tools,
            seq_force_screen_content_tools: part.tools.seq_force_screen_content_tools,
            seq_force_integer_mv: part.tools.seq_force_integer_mv,
            enable_superres: post.0,
            enable_cdef: post.1,
            enable_restoration: post.2,
            color_config,
            film_grain_params_present,
        };
        proof {
            lemma_assembled_view(
                h,
                preamble,
                set,
                part,
                post,
                color_config,
                film_grain_params_present,
            );
            SequenceHeaderView::lemma_assembled_parts(
                preamble,
                set@,
                part,
                post,
                color_config,
                film_grain_params_present,
            );
        }
        Ok(h)
    }
}

} // verus!
