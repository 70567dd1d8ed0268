use av1_obu::context::DecodeContext;
use av1_obu::error::{ObuError, ObuUnknownError};
use av1_obu::obu::frame::{FramePart, FrameSize, Tools};
use av1_obu::obu::operating_point::OperatingSet;
use av1_obu::obu::{
    ChromaSamplePosition, ColorConfig, ColorPrimaries, DecoderModelInfo, DecoderSession,
    EqualPictureInterval, FrameIdNumbersPresent, MatrixCoefficients, Obu, ObuDecodeRet, ObuKind,
    OperatingParametersInfo, OperatingPoint, SequenceHeader, SequenceProfile, TimingInfo,
    TransferCharacteristics,
};
use av1_obu::reader::BitReader;

/// Packs a string of `0` and `1` into bytes, first bit most significant;
/// other characters separate fields, and the last byte is filled with zeros.
fn pack(bits: &str) -> Vec<u8> {
    let mut bytes = Vec::new();
    let mut current = 0u8;
    let mut count = 0;
    for c in bits.chars() {
        if c != '0' && c != '1' {
            continue;
        }
        current = (current << 1) | if c == '1' { 1 } else { 0 };
        count += 1;
        if count == 8 {
            bytes.push(current);
            current = 0;
            count = 0;
        }
    }
    if count > 0 {
        bytes.push(current << (8 - count));
    }
    bytes
}

fn position(reader: &BitReader) -> usize {
    reader.byte_position() * 8 + reader.bit_offset() as usize
}

/// The bits of a list of fields, in a row.
fn bits_of(fields: &[(&str, &str)]) -> String {
    let mut bits = String::new();
    for (_, b) in fields.iter() {
        bits.push_str(b);
    }
    bits
}

/// The fields with other bits for the field of the given name.
fn with(fields: &[(&'static str, &'static str)], name: &str, bits: &'static str) -> Vec<(&'static str, &'static str)> {
    assert!(fields.iter().any(|(n, _)| *n == name));
    fields.iter().map(|(n, b)| if *n == name { (*n, bits) } else { (*n, *b) }).collect()
}

/// The fields without the field of the given name.
fn without(fields: &[(&'static str, &'static str)], name: &str) -> Vec<(&'static str, &'static str)> {
    assert!(fields.iter().any(|(n, _)| *n == name));
    fields.iter().filter(|(n, _)| *n != name).map(|(n, b)| (*n, *b)).collect()
}

/// The number of bits up to the end of the field of the given name.
fn end_of(fields: &[(&str, &str)], name: &str) -> usize {
    let mut n = 0;
    for (f, b) in fields.iter() {
        n += b.len();
        if *f == name {
            return n;
        }
    }
    panic!("no field {}", name)
}

/// A sequence header payload as an encoder wrote it: main profile, one
/// operating point, 960x540, ten bits, film grain.
const STREAM_HEADER: [u8; 11] = [0x00, 0x00, 0x00, 0x24, 0xCF, 0x7F, 0x0D, 0xBF, 0xFF, 0x38, 0x18];

fn stream_header() -> SequenceHeader {
    SequenceHeader {
        seq_profile: SequenceProfile::Main,
        still_picture: false,
        reduced_still_picture_header: false,
        timing_info: None,
        decoder_model_info: None,
        initial_display_delay_present_flag: false,
        operating_points: vec![
            OperatingPoint {
                idc: 0,
                level_idx: 4,
                tier: false,
                operating_parameters_info: None,
                initial_display_delay: 10,
            },
        ],
        frame_width_bits: 10,
        frame_height_bits: 10,
        max_frame_width: 959,
        max_frame_height: 539,
        frame_id_numbers_present: None,
        use_128x128_superblock: true,
        enable_filter_intra: true,
        enable_intra_edge_filter: true,
        enable_interintra_compound: true,
        enable_masked_compound: true,
        enable_warped_motion: true,
        enable_dual_filter: true,
        enable_order_hint: true,
        enable_jnt_comp: true,
        enable_ref_frame_mvs: true,
        seq_choose_screen_content_tools: true,
        seq_force_screen_content_tools: 2,
        seq_force_integer_mv: 2,
        enable_superres: false,
        enable_cdef: true,
        enable_restoration: true,
        color_config: ColorConfig {
            high_bitdepth: true,
            twelve_bit: false,
            mono_chrome: false,
            color_description_present: false,
            color_primaries: ColorPrimaries::Unspecified,
            transfer_characteristics: TransferCharacteristics::Unspecified,
            matrix_coefficients: MatrixCoefficients::Unspecified,
            color_range: false,
            subsampling_x: true,
            subsampling_y: true,
            chroma_sample_position: Some(ChromaSamplePosition::Unknown),
            separate_uv_delta_q: false,
        },
        film_grain_params_present: true,
    }
}

/// The fields of a header with every optional part, each with its bits, and
/// the trailing bit behind them.
fn full_header_fields() -> Vec<(&'static str, &'static str)> {
    vec![
        ("seq_profile", "000"), // main
        ("still_picture", "0"),
        ("reduced_still_picture_header", "0"),
        ("timing_info_present_flag", "1"),
        ("num_units_in_display_tick", "00000000000000000000001111101001"), // 1001
        ("time_scale", "00000000000000000111010100110000"), // 30000
        ("equal_picture_interval", "1"),
        ("num_ticks_per_picture_minus_1", "1"), // uvlc 0
        ("decoder_model_info_present_flag", "1"),
        ("buffer_delay_length_minus_1", "01001"), // 9
        ("num_units_in_decoding_tick", "00000000000000000000000000000001"), // 1
        ("buffer_removal_time_length_minus_1", "00100"), // 4
        ("frame_presentation_time_length_minus_1", "00111"), // 7
        ("initial_display_delay_present_flag", "1"),
        ("operating_points_cnt_minus_1", "00001"), // 1
        ("operating_point_idc[0]", "000100000011"), // 0x103
        ("seq_level_idx[0]", "01000"), // 8
        ("seq_tier[0]", "1"),
        ("decoder_model_present_for_this_op[0]", "1"),
        ("decoder_buffer_delay[0]", "0000010100"), // 20
        ("encoder_buffer_delay[0]", "0000001010"), // 10
        ("low_delay_mode_flag[0]", "0"),
        ("initial_display_delay_present_for_this_op[0]", "1"),
        ("initial_display_delay_minus_1[0]", "0011"), // 3
        ("operating_point_idc[1]", "000100000001"), // 0x101
        ("seq_level_idx[1]", "00100"), // 4
        ("decoder_model_present_for_this_op[1]", "0"),
        ("initial_display_delay_present_for_this_op[1]", "0"),
        ("frame_width_bits_minus_1", "1010"), // 10
        ("frame_height_bits_minus_1", "1010"), // 10
        ("max_frame_width_minus_1", "11101111111"), // 1919
        ("max_frame_height_minus_1", "10000110111"), // 1079
        ("frame_id_numbers_present_flag", "1"),
        ("delta_frame_id_length_minus_2", "1100"), // 12
        ("additional_frame_id_length_minus_1", "0010"), // 2
        ("use_128x128_superblock", "1"),
        ("enable_filter_intra", "0"),
        ("enable_intra_edge_filter", "1"),
        ("enable_interintra_compound", "1"),
        ("enable_masked_compound", "0"),
        ("enable_warped_motion", "1"),
        ("enable_dual_filter", "1"),
        ("enable_order_hint", "1"),
        ("enable_jnt_comp", "0"),
        ("enable_ref_frame_mvs", "1"),
        ("seq_choose_screen_content_tools", "0"),
        ("seq_force_screen_content_tools", "1"),
        ("seq_choose_integer_mv", "0"),
        ("seq_force_integer_mv", "0"),
        ("order_hint_bits_minus_1", "110"), // 6
        ("enable_superres", "0"),
        ("enable_cdef", "1"),
        ("enable_restoration", "1"),
        ("high_bitdepth", "1"),
        ("mono_chrome", "0"),
        ("color_description_present_flag", "1"),
        ("color_primaries", "00001001"), // 9
        ("transfer_characteristics", "00010000"), // 16
        ("matrix_coefficients", "00001001"), // 9
        ("color_range", "0"),
        ("chroma_sample_position", "10"), // 2
        ("separate_uv_delta_q", "1"),
        ("film_grain_params_present", "1"),
        ("trailing bit", "1"),
    ]
}

/// The same header as bytes.
const FULL_HEADER: [u8; 36] = [
    0x04, 0x00, 0x00, 0x0F, 0xA4, 0x00, 0x01, 0xD4, 0xC3, 0xA4, 0x00, 0x00, 0x00, 0x04, 0x87, 0x84,
    0x40, 0xD1, 0x82, 0x80, 0x52, 0x62, 0x02, 0x42, 0xAB, 0xBF, 0xC3, 0x7E, 0x15, 0xBA, 0x99, 0xD0,
    0x91, 0x00, 0x95, 0xC0,
];

fn full_header() -> SequenceHeader {
    SequenceHeader {
        seq_profile: SequenceProfile::Main,
        still_picture: false,
        reduced_still_picture_header: false,
        timing_info: Some(
            TimingInfo {
                num_units_in_display_tick: 1001,
                time_scale: 30000,
                equal_picture_interval: Some(EqualPictureInterval { num_ticks_per_picture: 1 }),
            },
        ),
        decoder_model_info: Some(
            DecoderModelInfo {
                buffer_delay_length: 10,
                num_units_in_decoding_tick: 1,
                buffer_removal_time_length: 5,
                frame_presentation_time_length: 8,
            },
        ),
        initial_display_delay_present_flag: true,
        operating_points: vec![
            OperatingPoint {
                idc: 0x103,
                level_idx: 8,
                tier: true,
                operating_parameters_info: Some(
                    OperatingParametersInfo {
                        decoder_buffer_delay: 20,
                        encoder_buffer_delay: 10,
                        low_delay_mode_flag: false,
                    },
                ),
                initial_display_delay: 4,
            },
            OperatingPoint {
                idc: 0x101,
                level_idx: 4,
                tier: false,
                operating_parameters_info: None,
                initial_display_delay: 10,
            },
        ],
        frame_width_bits: 11,
        frame_height_bits: 11,
        max_frame_width: 1919,
        max_frame_height: 1079,
        frame_id_numbers_present: Some(
            FrameIdNumbersPresent { delta_frame_id_length: 14, additional_frame_id_length: 3 },
        ),
        use_128x128_superblock: true,
        enable_filter_intra: false,
        enable_intra_edge_filter: true,
        enable_interintra_compound: true,
        enable_masked_compound: false,
        enable_warped_motion: true,
        enable_dual_filter: true,
        enable_order_hint: true,
        enable_jnt_comp: false,
        enable_ref_frame_mvs: true,
        seq_choose_screen_content_tools: false,
        seq_force_screen_content_tools: 1,
        seq_force_integer_mv: 0,
        enable_superres: false,
        enable_cdef: true,
        enable_restoration: true,
        color_config: ColorConfig {
            high_bitdepth: true,
            twelve_bit: false,
            mono_chrome: false,
            color_description_present: true,
            color_primaries: ColorPrimaries::Bt2020,
            transfer_characteristics: TransferCharacteristics::Smpte2084,
            matrix_coefficients: MatrixCoefficients::Bt2020Ncl,
            color_range: false,
            subsampling_x: true,
            subsampling_y: true,
            chroma_sample_position: Some(ChromaSamplePosition::Colocated),
            separate_uv_delta_q: true,
        },
        film_grain_params_present: true,
    }
}

/// The fields of a reduced still picture header of the main profile at
/// level 13, each with its bits.
fn reduced_header_fields() -> Vec<(&'static str, &'static str)> {
    vec![
        ("seq_profile", "000"), // main
        ("still_picture", "1"),
        ("reduced_still_picture_header", "1"),
        ("seq_level_idx[0]", "01101"), // 13
        ("frame_width_bits_minus_1", "0111"), // 7
        ("frame_height_bits_minus_1", "0110"), // 6
        ("max_frame_width_minus_1", "11111111"), // 255
        ("max_frame_height_minus_1", "1100011"), // 99
        ("use_128x128_superblock", "0"),
        ("enable_filter_intra", "1"),
        ("enable_intra_edge_filter", "1"),
        ("enable_superres", "1"),
        ("enable_cdef", "0"),
        ("enable_restoration", "1"),
        ("high_bitdepth", "0"),
        ("mono_chrome", "0"),
        ("color_description_present_flag", "0"),
        ("color_range", "1"),
        ("chroma_sample_position", "01"), // 1
        ("separate_uv_delta_q", "0"),
        ("film_grain_params_present", "0"),
    ]
}

fn reduced_header() -> SequenceHeader {
    SequenceHeader {
        seq_profile: SequenceProfile::Main,
        still_picture: true,
        reduced_still_picture_header: true,
        timing_info: None,
        decoder_model_info: None,
        initial_display_delay_present_flag: false,
        operating_points: vec![
            OperatingPoint {
                idc: 0,
                level_idx: 13,
                tier: false,
                operating_parameters_info: None,
                initial_display_delay: 10,
            },
        ],
        frame_width_bits: 8,
        frame_height_bits: 7,
        max_frame_width: 255,
        max_frame_height: 99,
        frame_id_numbers_present: None,
        use_128x128_superblock: false,
        enable_filter_intra: true,
        enable_intra_edge_filter: true,
        enable_interintra_compound: false,
        enable_masked_compound: false,
        enable_warped_motion: false,
        enable_dual_filter: false,
        enable_order_hint: false,
        enable_jnt_comp: false,
        enable_ref_frame_mvs: false,
        seq_choose_screen_content_tools: false,
        seq_force_screen_content_tools: 2,
        seq_force_integer_mv: 2,
        enable_superres: true,
        enable_cdef: false,
        enable_restoration: true,
        color_config: ColorConfig {
            high_bitdepth: false,
            twelve_bit: false,
            mono_chrome: false,
            color_description_present: false,
            color_primaries: ColorPrimaries::Unspecified,
            transfer_characteristics: TransferCharacteristics::Unspecified,
            matrix_coefficients: MatrixCoefficients::Unspecified,
            color_range: true,
            subsampling_x: true,
            subsampling_y: true,
            chroma_sample_position: Some(ChromaSamplePosition::Vertical),
            separate_uv_delta_q: false,
        },
        film_grain_params_present: false,
    }
}

#[test]
fn golden_header_from_a_stream() {
    let mut reader = BitReader::new(&STREAM_HEADER);
    let mut ctx = DecodeContext::new(0);
    assert_eq!(SequenceHeader::decode(&mut ctx, &mut reader), Ok(stream_header()));
    assert_eq!(
        ctx,
        DecodeContext {
            bit_depth: 10,
            num_planes: 3,
            order_hint_bits: 7,
            operating_point: 0,
            operating_point_idc: 0,
        }
    );
    // what is left is the trailing one bit and zeros
    assert_eq!(position(&reader), 84);
    assert_eq!(reader.bits(4), Ok(0b1000));
    assert_eq!(reader.bit(), Err(ObuError::Truncated));
}

#[test]
fn golden_header_with_every_optional_part() {
    assert_eq!(pack(&bits_of(&full_header_fields())), FULL_HEADER.to_vec());
    let mut reader = BitReader::new(&FULL_HEADER);
    let mut ctx = DecodeContext::new(1);
    assert_eq!(SequenceHeader::decode(&mut ctx, &mut reader), Ok(full_header()));
    assert_eq!(
        ctx,
        DecodeContext {
            bit_depth: 10,
            num_planes: 3,
            order_hint_bits: 7,
            operating_point: 1,
            operating_point_idc: 0x101,
        }
    );
    assert_eq!(position(&reader), 281);
    assert_eq!(position(&reader), end_of(&full_header_fields(), "film_grain_params_present"));
    assert_eq!(reader.bits(7), Ok(0b1000000));
}

#[test]
fn golden_reduced_still_picture_header() {
    let data = pack(&bits_of(&reduced_header_fields()));
    let mut reader = BitReader::new(&data);
    let mut ctx = DecodeContext {
        bit_depth: 12,
        num_planes: 1,
        order_hint_bits: 5,
        operating_point: 0,
        operating_point_idc: 0xFFF,
    };
    assert_eq!(SequenceHeader::decode(&mut ctx, &mut reader), Ok(reduced_header()));
    assert_eq!(
        ctx,
        DecodeContext {
            bit_depth: 8,
            num_planes: 3,
            order_hint_bits: 0,
            operating_point: 0,
            operating_point_idc: 0,
        }
    );
    assert_eq!(position(&reader), end_of(&reduced_header_fields(), "film_grain_params_present"));
    assert_eq!(position(&reader), 47);
}

#[test]
fn reduced_header_has_one_operating_point_and_no_order_hints() {
    let levels = [
        "00000", "00001", "00010", "00011", "00100", "00101", "00110", "00111", "01000", "01001",
        "01010", "01011", "01100", "01101", "01110", "01111", "10000", "10001", "10010", "10011",
        "10100", "10101", "10110", "10111", "11000", "11001", "11010", "11011", "11100", "11101",
        "11110", "11111",
    ];
    for level in 0..32usize {
        let fields = with(&reduced_header_fields(), "seq_level_idx[0]", levels[level]);
        let data = pack(&bits_of(&fields));
        let mut ctx = DecodeContext { order_hint_bits: 8, ..DecodeContext::new(5) };
        let h = SequenceHeader::decode(&mut ctx, &mut BitReader::new(&data)).unwrap();
        assert!(h.reduced_still_picture_header);
        assert_eq!(ctx.order_hint_bits, 0);
        assert_eq!(h.operating_points.len(), 1);
        assert_eq!(h.operating_points[0].idc, 0);
        assert_eq!(h.operating_points[0].initial_display_delay, 10);
        assert_eq!(h.operating_points[0].level_idx, level as u8);
        assert!(!h.operating_points[0].tier);
        assert_eq!(h.operating_points[0].operating_parameters_info, None);
        assert_eq!(h.timing_info, None);
        assert_eq!(h.decoder_model_info, None);
        assert_eq!(h.frame_id_numbers_present, None);
        assert!(!h.enable_order_hint);
        assert_eq!(h.seq_force_screen_content_tools, 2);
        assert_eq!(h.seq_force_integer_mv, 2);
        // the chosen operating point does not exist: the first one counts
        assert_eq!(ctx.operating_point_idc, 0);
    }
}

#[test]
fn profiles_by_code() {
    let profiles = [
        ("000", SequenceProfile::Main),
        ("001", SequenceProfile::High),
        ("010", SequenceProfile::Professional),
    ];
    for (code, profile) in profiles.iter() {
        let fields = with(&full_header_fields(), "seq_profile", code);
        let fields = match profile {
            SequenceProfile::Main => fields,
            // no mono_chrome bit, and no subsampling, so no chroma sample position
            SequenceProfile::High => without(&without(&fields, "mono_chrome"), "chroma_sample_position"),
            // at eight bits: subsampled in one direction, so no chroma sample position
            SequenceProfile::Professional => {
                without(&with(&fields, "high_bitdepth", "0"), "chroma_sample_position")
            },
        };
        let data = pack(&bits_of(&fields));
        let mut ctx = DecodeContext::new(0);
        let mut reader = BitReader::new(&data);
        let h = SequenceHeader::decode(&mut ctx, &mut reader).unwrap();
        assert_eq!(position(&reader), end_of(&fields, "film_grain_params_present"));
        assert_eq!(h.seq_profile, *profile);
        assert_eq!(h.operating_points, full_header().operating_points);
        assert!(h.film_grain_params_present);
        assert!(h.color_config.separate_uv_delta_q);
        assert_eq!(h.color_config.color_primaries, ColorPrimaries::Bt2020);
        let (depth, x, y) = match profile {
            SequenceProfile::Main => (10, true, true),
            SequenceProfile::High => (10, false, false),
            SequenceProfile::Professional => (8, true, false),
        };
        assert_eq!(ctx.bit_depth, depth);
        assert_eq!((h.color_config.subsampling_x, h.color_config.subsampling_y), (x, y));
    }
    for code in ["011", "100", "101", "110", "111"].iter() {
        let fields = with(&full_header_fields(), "seq_profile", code);
        let data = pack(&bits_of(&fields));
        let start = DecodeContext::new(0);
        let mut ctx = start;
        assert_eq!(
            SequenceHeader::decode(&mut ctx, &mut BitReader::new(&data)),
            Err(ObuError::UnknownCode(ObuUnknownError::Profile))
        );
        assert_eq!(ctx, start);
    }
}

#[test]
fn unknown_profile_is_reported_with_three_bits_in_the_window() {
    let data = pack("00000 111");
    let mut reader = BitReader::new(&data);
    assert_eq!(reader.bits(5), Ok(0));
    let mut ctx = DecodeContext::new(0);
    assert_eq!(
        SequenceHeader::decode(&mut ctx, &mut reader),
        Err(ObuError::UnknownCode(ObuUnknownError::Profile))
    );
}

#[test]
fn chosen_operating_point_gives_the_layer_mask() {
    for (operating_point, idc) in [(0usize, 0x103u16), (1, 0x101), (2, 0x103), (31, 0x103), (usize::MAX, 0x103)].iter() {
        let mut ctx = DecodeContext::new(*operating_point);
        let h = SequenceHeader::decode(&mut ctx, &mut BitReader::new(&FULL_HEADER)).unwrap();
        assert_eq!(h.operating_points.len(), 2);
        assert_eq!(ctx.operating_point_idc, *idc);
        assert_eq!(ctx.operating_point, *operating_point);
    }
}

#[test]
fn header_that_ends_early_is_truncated_at_every_length() {
    let whole = bits_of(&full_header_fields());
    for n in 0..281 {
        let lead = (8 - n % 8) % 8;
        let padded = format!("{}{}", "0".repeat(lead), &whole[..n]);
        let data = pack(&padded);
        let mut reader = BitReader::new(&data);
        assert_eq!(reader.bits(lead), Ok(0));
        let mut ctx = DecodeContext::new(0);
        assert_eq!(SequenceHeader::decode(&mut ctx, &mut reader), Err(ObuError::Truncated));
    }
}

#[test]
fn header_decode_leaves_in_the_context_what_it_got_before_a_failure() {
    let fields = full_header_fields();
    let whole = bits_of(&fields);
    let start = DecodeContext {
        bit_depth: 12,
        num_planes: 1,
        order_hint_bits: 2,
        operating_point: 1,
        operating_point_idc: 0x00F,
    };
    // the lengths at which the context gets a value: behind the operating
    // points, behind order_hint_bits_minus_1, behind high_bitdepth, behind
    // mono_chrome
    let after_points = end_of(&fields, "initial_display_delay_present_for_this_op[1]");
    let after_hint = end_of(&fields, "order_hint_bits_minus_1");
    let after_depth = end_of(&fields, "high_bitdepth");
    let after_mono = end_of(&fields, "mono_chrome");
    assert_eq!((after_points, after_hint, after_depth, after_mono), (190, 246, 250, 251));
    for n in 0..281 {
        let data = pack(&whole[..n]);
        // cut the window at a byte boundary below n, so that no padding is read
        let data = &data[..n / 8];
        let have = n / 8 * 8;
        let mut ctx = start;
        assert_eq!(
            SequenceHeader::decode(&mut ctx, &mut BitReader::new(data)),
            Err(ObuError::Truncated)
        );
        let mut expected = start;
        if have >= after_points {
            expected.operating_point_idc = 0x101;
        }
        if have >= after_hint {
            expected.order_hint_bits = 7;
        }
        if have >= after_depth {
            expected.bit_depth = 10;
        }
        if have >= after_mono {
            expected.num_planes = 3;
        }
        assert_eq!(ctx, expected);
    }
}

#[test]
fn unknown_colour_code_leaves_the_context_filled() {
    let fields = with(&full_header_fields(), "transfer_characteristics", "00000011");
    let data = pack(&bits_of(&fields));
    let mut ctx = DecodeContext::new(0);
    assert_eq!(
        SequenceHeader::decode(&mut ctx, &mut BitReader::new(&data)),
        Err(ObuError::UnknownCode(ObuUnknownError::TransferCharacteristics))
    );
    assert_eq!(
        ctx,
        DecodeContext {
            bit_depth: 10,
            num_planes: 3,
            order_hint_bits: 7,
            operating_point: 0,
            operating_point_idc: 0x103,
        }
    );
}

#[test]
fn header_behind_its_obu_header() {
    // an OBU header with size field, the size, then the payload
    let mut data = vec![0b0_0001_0_1_0u8, 11];
    data.extend_from_slice(&STREAM_HEADER);
    let mut session = DecoderSession::new(None, true, 0);
    let mut reader = BitReader::new(&data);
    let obu = match Obu::decode(&session, &mut reader) {
        Ok(ObuDecodeRet::Obu(obu)) => obu,
        other => panic!("{:?}", other),
    };
    assert_eq!(obu.header.kind, ObuKind::SequenceHeader);
    assert_eq!(obu.size, 11);
    let start = reader.byte_position();
    let mut ctx = session.context();
    let h = SequenceHeader::decode(&mut ctx, &mut reader).unwrap();
    assert_eq!(h, stream_header());
    session.resolve(&ctx);
    assert_eq!(session.operating_point_idc, 0);
    assert!(reader.byte_position() < start + obu.size);
}

#[test]
fn timing_info_with_and_without_equal_pictures() {
    let data = pack("00000000000000000000001111101001 00000000000000000111010100110000 0 1");
    let mut reader = BitReader::new(&data);
    assert_eq!(
        TimingInfo::decode(&mut reader),
        Ok(TimingInfo { num_units_in_display_tick: 1001, time_scale: 30000, equal_picture_interval: None })
    );
    assert_eq!(position(&reader), 65);
    // ticks per picture: uvlc 00101 is 4, plus one
    let data = pack("11111111111111111111111111111111 00000000000000000000000000000000 1 00101");
    let mut reader = BitReader::new(&data);
    assert_eq!(
        TimingInfo::decode(&mut reader),
        Ok(
            TimingInfo {
                num_units_in_display_tick: u32::MAX,
                time_scale: 0,
                equal_picture_interval: Some(EqualPictureInterval { num_ticks_per_picture: 5 }),
            }
        )
    );
    assert_eq!(position(&reader), 70);
}

#[test]
fn timing_info_largest_ticks_per_picture() {
    let mut bits = String::from("00000000000000000000000000000001 00000000000000000000000000000001 1 ");
    bits.push_str(&"0".repeat(31));
    bits.push('1');
    bits.push_str(&"1".repeat(31));
    let data = pack(&bits);
    let t = TimingInfo::decode(&mut BitReader::new(&data)).unwrap();
    assert_eq!(t.equal_picture_interval, Some(EqualPictureInterval { num_ticks_per_picture: u32::MAX }));
}

#[test]
fn timing_info_failures() {
    let data = pack("00000000000000000000001111101001 0000000000000000011101010011000");
    assert_eq!(TimingInfo::decode(&mut BitReader::new(&data[..7])), Err(ObuError::Truncated));
    let data = pack("00000000000000000000001111101001 00000000000000000111010100110000 1 0000000");
    assert_eq!(TimingInfo::decode(&mut BitReader::new(&data)), Err(ObuError::Truncated));
    let mut bits = String::from("00000000000000000000001111101001 00000000000000000111010100110000 1 ");
    bits.push_str(&"0".repeat(32));
    bits.push_str(&"1".repeat(40));
    let data = pack(&bits);
    assert_eq!(TimingInfo::decode(&mut BitReader::new(&data)), Err(ObuError::Overflow));
}

#[test]
fn decoder_model_info_fields() {
    let data = pack("01001 00000000000000000000000000000001 00100 00111 1");
    let mut reader = BitReader::new(&data);
    assert_eq!(
        DecoderModelInfo::decode(&mut reader),
        Ok(
            DecoderModelInfo {
                buffer_delay_length: 10,
                num_units_in_decoding_tick: 1,
                buffer_removal_time_length: 5,
                frame_presentation_time_length: 8,
            }
        )
    );
    assert_eq!(position(&reader), 47);
    let data = pack("11111 10000000000000000000000000000000 00000 11111");
    assert_eq!(
        DecoderModelInfo::decode(&mut BitReader::new(&data)),
        Ok(
            DecoderModelInfo {
                buffer_delay_length: 32,
                num_units_in_decoding_tick: 0x8000_0000,
                buffer_removal_time_length: 1,
                frame_presentation_time_length: 32,
            }
        )
    );
    assert_eq!(DecoderModelInfo::decode(&mut BitReader::new(&data[..5])), Err(ObuError::Truncated));
}

#[test]
fn operating_parameters_are_as_wide_as_the_model_says() {
    let model = |buffer_delay_length| DecoderModelInfo {
        buffer_delay_length,
        num_units_in_decoding_tick: 1,
        buffer_removal_time_length: 1,
        frame_presentation_time_length: 1,
    };
    let data = pack("0000010100 0000001010 1");
    let mut reader = BitReader::new(&data);
    assert_eq!(
        OperatingParametersInfo::decode(&mut reader, &model(10)),
        Ok(OperatingParametersInfo { decoder_buffer_delay: 20, encoder_buffer_delay: 10, low_delay_mode_flag: true })
    );
    assert_eq!(position(&reader), 21);
    // the same bits with a width of 1
    let mut reader = BitReader::new(&data);
    assert_eq!(
        OperatingParametersInfo::decode(&mut reader, &model(1)),
        Ok(OperatingParametersInfo { decoder_buffer_delay: 0, encoder_buffer_delay: 0, low_delay_mode_flag: false })
    );
    assert_eq!(position(&reader), 3);
    // a width of 32
    let data = pack("11111111111111111111111111111110 00000000000000000000000000000011 0");
    let mut reader = BitReader::new(&data);
    assert_eq!(
        OperatingParametersInfo::decode(&mut reader, &model(32)),
        Ok(
            OperatingParametersInfo {
                decoder_buffer_delay: u32::MAX - 1,
                encoder_buffer_delay: 3,
                low_delay_mode_flag: false,
            }
        )
    );
    assert_eq!(position(&reader), 65);
    assert_eq!(
        OperatingParametersInfo::decode(&mut BitReader::new(&data[..8]), &model(32)),
        Err(ObuError::Truncated)
    );
}

#[test]
fn operating_point_reads_the_tier_above_level_7() {
    // level 7: no tier bit
    let data = pack("000000000001 00111 1");
    let mut reader = BitReader::new(&data);
    assert_eq!(
        OperatingPoint::decode(&mut reader, None, false),
        Ok(
            OperatingPoint {
                idc: 1,
                level_idx: 7,
                tier: false,
                operating_parameters_info: None,
                initial_display_delay: 10,
            }
        )
    );
    assert_eq!(position(&reader), 17);
    // level 8: tier bit
    let data = pack("111111111111 01000 1");
    let mut reader = BitReader::new(&data);
    assert_eq!(
        OperatingPoint::decode(&mut reader, None, false),
        Ok(
            OperatingPoint {
                idc: 0xFFF,
                level_idx: 8,
                tier: true,
                operating_parameters_info: None,
                initial_display_delay: 10,
            }
        )
    );
    assert_eq!(position(&reader), 18);
}

#[test]
fn operating_point_display_delay() {
    // signalled and present: four bits plus one
    let data = pack("000000000000 00000 1 1111");
    let op = OperatingPoint::decode(&mut BitReader::new(&data), None, true).unwrap();
    assert_eq!(op.initial_display_delay, 16);
    let data = pack("000000000000 00000 1 0000");
    let op = OperatingPoint::decode(&mut BitReader::new(&data), None, true).unwrap();
    assert_eq!(op.initial_display_delay, 1);
    // signalled and absent
    let data = pack("000000000000 00000 0 1111");
    let mut reader = BitReader::new(&data);
    let op = OperatingPoint::decode(&mut reader, None, true).unwrap();
    assert_eq!(op.initial_display_delay, 10);
    assert_eq!(position(&reader), 18);
    // not signalled
    let mut reader = BitReader::new(&data);
    let op = OperatingPoint::decode(&mut reader, None, false).unwrap();
    assert_eq!(op.initial_display_delay, 10);
    assert_eq!(position(&reader), 17);
}

#[test]
fn operating_point_list() {
    let data = pack("000000000011 00000  000000000001 01001 0  000100000001 11111 1");
    let mut reader = BitReader::new(&data);
    let points = OperatingPoint::decode_list(&mut reader, 3, None, false).unwrap();
    assert_eq!(position(&reader), 53);
    assert_eq!(
        points,
        vec![
            OperatingPoint { idc: 3, level_idx: 0, tier: false, operating_parameters_info: None, initial_display_delay: 10 },
            OperatingPoint { idc: 1, level_idx: 9, tier: false, operating_parameters_info: None, initial_display_delay: 10 },
            OperatingPoint { idc: 0x101, level_idx: 31, tier: true, operating_parameters_info: None, initial_display_delay: 10 },
        ]
    );
    let mut reader = BitReader::new(&data);
    assert_eq!(OperatingPoint::decode_list(&mut reader, 0, None, false), Ok(vec![]));
    assert_eq!(position(&reader), 0);
    assert_eq!(
        OperatingPoint::decode_list(&mut BitReader::new(&data), 4, None, false),
        Err(ObuError::Truncated)
    );
}

#[test]
fn operating_set_of_32_points() {
    let mut bits = String::from("0 0 11111 ");
    for i in 0..32u32 {
        bits.push_str(&format!("{:012b} {:05b} ", i + 1, 0));
    }
    let data = pack(&bits);
    let mut reader = BitReader::new(&data);
    let set = OperatingSet::decode(&mut reader, false).unwrap();
    assert_eq!(set.timing_info, None);
    assert_eq!(set.decoder_model_info, None);
    assert!(!set.initial_display_delay_present_flag);
    assert_eq!(set.operating_points.len(), 32);
    for i in 0..32usize {
        assert_eq!(set.operating_points[i].idc, i as u16 + 1);
    }
    assert_eq!(position(&reader), 7 + 32 * 17);
}

#[test]
fn operating_set_with_timing_but_no_model() {
    let data = pack(
        "1 00000000000000000000000000000001 00000000000000000000000000011001 0 0  1 00000 000000000001 00000 1 0100",
    );
    let mut reader = BitReader::new(&data);
    let set = OperatingSet::decode(&mut reader, false).unwrap();
    assert_eq!(
        set,
        OperatingSet {
            timing_info: Some(
                TimingInfo { num_units_in_display_tick: 1, time_scale: 25, equal_picture_interval: None },
            ),
            decoder_model_info: None,
            initial_display_delay_present_flag: true,
            operating_points: vec![
                OperatingPoint { idc: 1, level_idx: 0, tier: false, operating_parameters_info: None, initial_display_delay: 5 },
            ],
        }
    );
    assert_eq!(position(&reader), 95);
}

#[test]
fn frame_size_widths_from_1_to_16() {
    let data = pack("0000 0000 1 0");
    let mut reader = BitReader::new(&data);
    assert_eq!(
        FrameSize::decode(&mut reader),
        Ok(FrameSize { frame_width_bits: 1, frame_height_bits: 1, max_frame_width: 1, max_frame_height: 0 })
    );
    assert_eq!(position(&reader), 10);
    let data = pack("1111 1111 1111111111111111 1000000000000001");
    let mut reader = BitReader::new(&data);
    assert_eq!(
        FrameSize::decode(&mut reader),
        Ok(
            FrameSize {
                frame_width_bits: 16,
                frame_height_bits: 16,
                max_frame_width: 0xFFFF,
                max_frame_height: 0x8001,
            }
        )
    );
    assert_eq!(position(&reader), 40);
    assert_eq!(FrameSize::decode(&mut BitReader::new(&data[..4])), Err(ObuError::Truncated));
    assert_eq!(FrameSize::decode(&mut BitReader::new(&data[..0])), Err(ObuError::Truncated));
}

#[test]
fn frame_id_numbers() {
    let data = pack("0000 0000");
    assert_eq!(
        FrameIdNumbersPresent::decode(&mut BitReader::new(&data)),
        Ok(FrameIdNumbersPresent { delta_frame_id_length: 2, additional_frame_id_length: 1 })
    );
    let data = pack("1111 1111");
    assert_eq!(
        FrameIdNumbersPresent::decode(&mut BitReader::new(&data)),
        Ok(FrameIdNumbersPresent { delta_frame_id_length: 17, additional_frame_id_length: 16 })
    );
    let data = pack("1 1100 0010");
    let mut reader = BitReader::new(&data);
    assert_eq!(
        FrameIdNumbersPresent::decode_optional(&mut reader, false),
        Ok(Some(FrameIdNumbersPresent { delta_frame_id_length: 14, additional_frame_id_length: 3 }))
    );
    assert_eq!(position(&reader), 9);
    let mut reader = BitReader::new(&data);
    assert_eq!(FrameIdNumbersPresent::decode_optional(&mut reader, true), Ok(None));
    assert_eq!(position(&reader), 0);
    let data = pack("0 1100 0010");
    let mut reader = BitReader::new(&data);
    assert_eq!(FrameIdNumbersPresent::decode_optional(&mut reader, false), Ok(None));
    assert_eq!(position(&reader), 1);
    let data = pack("1 1100 001");
    assert_eq!(
        FrameIdNumbersPresent::decode_optional(&mut BitReader::new(&data[..1]), false),
        Err(ObuError::Truncated)
    );
}

fn no_tools() -> Tools {
    Tools {
        enable_interintra_compound: false,
        enable_masked_compound: false,
        enable_warped_motion: false,
        enable_dual_filter: false,
        enable_order_hint: false,
        enable_jnt_comp: false,
        enable_ref_frame_mvs: false,
        seq_choose_screen_content_tools: false,
        seq_force_screen_content_tools: 2,
        seq_force_integer_mv: 2,
        order_hint_bits: 0,
    }
}

#[test]
fn tools_of_a_reduced_header_read_nothing() {
    let data = pack("1111 1111");
    let mut reader = BitReader::new(&data);
    assert_eq!(Tools::decode(&mut reader, true), Ok(no_tools()));
    assert_eq!(position(&reader), 0);
    let empty: [u8; 0] = [];
    assert_eq!(Tools::decode(&mut BitReader::new(&empty), true), Ok(no_tools()));
}

#[test]
fn tools_without_order_hints() {
    // four flags, order hint 0, choose screen content tools 1, choose integer mv 1
    let data = pack("1010 0 1 1 111");
    let mut reader = BitReader::new(&data);
    assert_eq!(
        Tools::decode(&mut reader, false),
        Ok(
            Tools {
                enable_interintra_compound: true,
                enable_warped_motion: true,
                seq_choose_screen_content_tools: true,
                ..no_tools()
            }
        )
    );
    assert_eq!(position(&reader), 7);
}

#[test]
fn tools_screen_content_and_integer_mv() {
    // forced screen content tools 0: integer mv is not read
    let data = pack("0000 0 0 0 111");
    let mut reader = BitReader::new(&data);
    assert_eq!(
        Tools::decode(&mut reader, false),
        Ok(Tools { seq_force_screen_content_tools: 0, ..no_tools() })
    );
    assert_eq!(position(&reader), 7);
    // forced screen content tools 1, integer mv left to the frames
    let data = pack("0000 0 0 1 1 11");
    let mut reader = BitReader::new(&data);
    assert_eq!(
        Tools::decode(&mut reader, false),
        Ok(Tools { seq_force_screen_content_tools: 1, ..no_tools() })
    );
    assert_eq!(position(&reader), 8);
    // forced screen content tools 1, forced integer mv 1
    let data = pack("0000 0 0 1 0 1 1");
    let mut reader = BitReader::new(&data);
    assert_eq!(
        Tools::decode(&mut reader, false),
        Ok(Tools { seq_force_screen_content_tools: 1, seq_force_integer_mv: 1, ..no_tools() })
    );
    assert_eq!(position(&reader), 9);
    // screen content tools left to the frames, forced integer mv 0
    let data = pack("0000 0 1 0 0 1");
    let mut reader = BitReader::new(&data);
    assert_eq!(
        Tools::decode(&mut reader, false),
        Ok(Tools { seq_choose_screen_content_tools: true, seq_force_integer_mv: 0, ..no_tools() })
    );
    assert_eq!(position(&reader), 8);
}

#[test]
fn tools_order_hint_widths() {
    for w in 0..8u32 {
        // order hint 1, jnt_comp 1, ref_frame_mvs 0, choose 1, choose 1, width minus 1
        let data = pack(&format!("0000 1 1 0 1 1 {:03b}", w));
        let mut reader = BitReader::new(&data);
        assert_eq!(
            Tools::decode(&mut reader, false),
            Ok(
                Tools {
                    enable_order_hint: true,
                    enable_jnt_comp: true,
                    seq_choose_screen_content_tools: true,
                    order_hint_bits: w as usize + 1,
                    ..no_tools()
                }
            )
        );
        assert_eq!(position(&reader), 12);
    }
}

#[test]
fn frame_part_of_a_reduced_header() {
    let data = pack("0111 0110 11111111 1100011 0 1 1 1");
    let mut reader = BitReader::new(&data);
    assert_eq!(
        FramePart::decode(&mut reader, true),
        Ok(
            FramePart {
                size: FrameSize {
                    frame_width_bits: 8,
                    frame_height_bits: 7,
                    max_frame_width: 255,
                    max_frame_height: 99,
                },
                frame_id_numbers_present: None,
                use_128x128_superblock: false,
                enable_filter_intra: true,
                enable_intra_edge_filter: true,
                tools: no_tools(),
            }
        )
    );
    assert_eq!(position(&reader), 26);
}
