use av1_obu::error::ObuError;
use av1_obu::reader::BitReader;

/// Packs a string of `0` and `1` into bytes, first bit most significant;
/// other characters separate fields, and the last byte is filled with zeros.
fn pack(bits: &str) -> Vec<u8> {
    let mut bytes = Vec::new();
    let mut current = 0u8;
    let mut count = 0;
    for c in bits.chars() {
        if c != '0' && c != '1' {
            continue;
        }
        current = (current << 1) | if c == '1' { 1 } else { 0 };
        count += 1;
        if count == 8 {
            bytes.push(current);
            current = 0;
            count = 0;
        }
    }
    if count > 0 {
        bytes.push(current << (8 - count));
    }
    bytes
}

fn position(reader: &BitReader) -> usize {
    reader.byte_position() * 8 + reader.bit_offset() as usize
}

#[test]
fn pack_is_most_significant_first() {
    assert_eq!(pack("1011"), vec![0xB0]);
    assert_eq!(pack("0000 0001 1"), vec![0x01, 0x80]);
}

#[test]
fn new_reader_is_at_the_start() {
    let data = [0xFFu8, 0x00];
    let reader = BitReader::new(&data);
    assert_eq!(reader.byte_position(), 0);
    assert_eq!(reader.bit_offset(), 0);
}

#[test]
fn bit_reads_most_significant_first() {
    let data = [0b1010_0001u8];
    let mut reader = BitReader::new(&data);
    let expected = [true, false, true, false, false, false, false, true];
    for (i, e) in expected.iter().enumerate() {
        assert_eq!(position(&reader), i);
        assert_eq!(reader.bit(), Ok(*e));
    }
    assert_eq!(position(&reader), 8);
    assert_eq!(reader.byte_position(), 1);
    assert_eq!(reader.bit_offset(), 0);
}

#[test]
fn bit_past_the_end_is_truncated() {
    let data: [u8; 0] = [];
    let mut reader = BitReader::new(&data);
    assert_eq!(reader.bit(), Err(ObuError::Truncated));
    assert_eq!(position(&reader), 0);

    let data = [0x80u8];
    let mut reader = BitReader::new(&data);
    assert_eq!(reader.bits(8), Ok(0x80));
    assert_eq!(reader.bit(), Err(ObuError::Truncated));
    assert_eq!(position(&reader), 8);
}

#[test]
fn bits_of_1011_is_11() {
    let data = pack("1011");
    let mut reader = BitReader::new(&data);
    assert_eq!(reader.bits(4), Ok(11));
    assert_eq!(position(&reader), 4);
}

#[test]
fn bits_of_width_zero_reads_nothing() {
    let data = [0xFFu8];
    let mut reader = BitReader::new(&data);
    assert_eq!(reader.bits(0), Ok(0));
    assert_eq!(position(&reader), 0);
    let empty: [u8; 0] = [];
    let mut reader = BitReader::new(&empty);
    assert_eq!(reader.bits(0), Ok(0));
}

#[test]
fn bits_crosses_byte_boundaries() {
    let data = [0x12u8, 0x34, 0x56, 0x78, 0x9A];
    let mut reader = BitReader::new(&data);
    assert_eq!(reader.bits(4), Ok(0x1));
    assert_eq!(reader.bits(12), Ok(0x234));
    assert_eq!(reader.bits(3), Ok(0b010));
    assert_eq!(position(&reader), 19);
    assert_eq!(reader.byte_position(), 2);
    assert_eq!(reader.bit_offset(), 3);
    // 0x56789A without its first three bits: 1 0110 0111 1000 1001 1010
    assert_eq!(reader.bits(21), Ok(0x16789A));
    assert_eq!(position(&reader), 40);
}

#[test]
fn bits_of_width_32() {
    let data = [0xFFu8, 0xFF, 0xFF, 0xFF, 0x80, 0x00, 0x00, 0x01];
    let mut reader = BitReader::new(&data);
    assert_eq!(reader.bits(32), Ok(u32::MAX));
    assert_eq!(reader.bits(32), Ok(0x8000_0001));
    assert_eq!(position(&reader), 64);
}

#[test]
fn bits_of_width_32_off_the_byte_boundary() {
    let data = [0x7Fu8, 0xFF, 0xFF, 0xFF, 0xFE];
    let mut reader = BitReader::new(&data);
    assert_eq!(reader.bits(1), Ok(0));
    assert_eq!(reader.bits(32), Ok(0xFFFF_FFFF));
    assert_eq!(reader.bits(7), Ok(0x7E));
    assert_eq!(reader.bit(), Err(ObuError::Truncated));
}

#[test]
fn bits_past_the_end_is_truncated_and_reads_nothing() {
    let data = [0xABu8, 0xCD];
    let mut reader = BitReader::new(&data);
    assert_eq!(reader.bits(9), Ok(0x157));
    assert_eq!(reader.bits(8), Err(ObuError::Truncated));
    assert_eq!(position(&reader), 9);
    assert_eq!(reader.bits(7), Ok(0x4D));
    assert_eq!(reader.bits(1), Err(ObuError::Truncated));
    assert_eq!(position(&reader), 16);
}

#[test]
fn bits_needs_every_bit_in_a_long_window() {
    let data = [0u8; 12];
    let mut reader = BitReader::new(&data);
    assert_eq!(reader.bits(32), Ok(0));
    assert_eq!(reader.bits(32), Ok(0));
    assert_eq!(reader.bits(31), Ok(0));
    assert_eq!(reader.bits(2), Err(ObuError::Truncated));
    assert_eq!(reader.bits(1), Ok(0));
    assert_eq!(reader.bits(1), Err(ObuError::Truncated));
}

#[test]
fn uvlc_of_1_is_0() {
    let data = pack("1");
    let mut reader = BitReader::new(&data);
    assert_eq!(reader.uvlc(), Ok(0));
    assert_eq!(position(&reader), 1);
}

#[test]
fn uvlc_of_001101_is_5() {
    let data = pack("001101");
    let mut reader = BitReader::new(&data);
    assert_eq!(reader.uvlc(), Ok(5));
    assert_eq!(position(&reader), 5);
}

#[test]
fn uvlc_small_values() {
    // k zeros, a one, k bits of suffix: 2^k - 1 + suffix
    let cases: [(&str, u32, usize); 8] = [
        ("1", 0, 1),
        ("010", 1, 3),
        ("011", 2, 3),
        ("00100", 3, 5),
        ("00101", 4, 5),
        ("00110", 5, 5),
        ("00111", 6, 5),
        ("0001000", 7, 7),
    ];
    for (bits, value, len) in cases.iter() {
        let data = pack(bits);
        let mut reader = BitReader::new(&data);
        assert_eq!(reader.uvlc(), Ok(*value));
        assert_eq!(position(&reader), *len);
    }
}

#[test]
fn uvlc_in_a_row() {
    let data = pack("1 010 00111 1");
    let mut reader = BitReader::new(&data);
    assert_eq!(reader.uvlc(), Ok(0));
    assert_eq!(reader.uvlc(), Ok(1));
    assert_eq!(reader.uvlc(), Ok(6));
    assert_eq!(reader.uvlc(), Ok(0));
    assert_eq!(position(&reader), 10);
}

#[test]
fn uvlc_largest_value() {
    // 31 zeros, a one, 31 ones: 2^31 - 1 + 2^31 - 1
    let mut bits = String::new();
    for _ in 0..31 {
        bits.push('0');
    }
    bits.push('1');
    for _ in 0..31 {
        bits.push('1');
    }
    let data = pack(&bits);
    let mut reader = BitReader::new(&data);
    assert_eq!(reader.uvlc(), Ok(u32::MAX - 1));
    assert_eq!(position(&reader), 63);
}

#[test]
fn uvlc_without_a_one_is_truncated() {
    let data = pack("0000 0000");
    let mut reader = BitReader::new(&data);
    assert_eq!(reader.uvlc(), Err(ObuError::Truncated));
    let empty: [u8; 0] = [];
    let mut reader = BitReader::new(&empty);
    assert_eq!(reader.uvlc(), Err(ObuError::Truncated));
}

#[test]
fn uvlc_without_its_suffix_is_truncated() {
    // four zeros, a one, and only three of four suffix bits
    let data = pack("0000 1101");
    let mut reader = BitReader::new(&data);
    assert_eq!(reader.uvlc(), Err(ObuError::Truncated));
}

#[test]
fn uvlc_of_32_zeros_is_overflow() {
    let data = [0u8, 0, 0, 0, 0x80, 0, 0, 0, 0];
    let mut reader = BitReader::new(&data);
    assert_eq!(reader.uvlc(), Err(ObuError::Overflow));
    // 32 zeros and the end of the window: still too long, not truncated
    let data = [0u8, 0, 0, 0];
    let mut reader = BitReader::new(&data);
    assert_eq!(reader.uvlc(), Err(ObuError::Overflow));
}

#[test]
fn leb128_of_05_is_5() {
    let data = [0x05u8];
    let mut reader = BitReader::new(&data);
    assert_eq!(reader.leb128(), Ok(5));
    assert_eq!(position(&reader), 8);
}

#[test]
fn leb128_of_85_01_is_133() {
    let data = [0x85u8, 0x01];
    let mut reader = BitReader::new(&data);
    assert_eq!(reader.leb128(), Ok(133));
    assert_eq!(position(&reader), 16);
}

#[test]
fn leb128_values() {
    let data = [0x00u8];
    assert_eq!(BitReader::new(&data).leb128(), Ok(0));
    let data = [0x7Fu8];
    assert_eq!(BitReader::new(&data).leb128(), Ok(127));
    let data = [0x80u8, 0x01];
    assert_eq!(BitReader::new(&data).leb128(), Ok(128));
    let data = [0xE5u8, 0x8E, 0x26];
    assert_eq!(BitReader::new(&data).leb128(), Ok(624485));
    // padded with zero groups
    let data = [0x85u8, 0x80, 0x80, 0x00];
    let mut reader = BitReader::new(&data);
    assert_eq!(reader.leb128(), Ok(5));
    assert_eq!(position(&reader), 32);
}

#[test]
fn leb128_stops_at_the_first_byte_without_continuation() {
    let data = [0x05u8, 0x85, 0x01];
    let mut reader = BitReader::new(&data);
    assert_eq!(reader.leb128(), Ok(5));
    assert_eq!(reader.leb128(), Ok(133));
    assert_eq!(reader.leb128(), Err(ObuError::Truncated));
}

#[test]
fn leb128_of_eight_bytes() {
    let data = [0xFFu8, 0xFF, 0xFF, 0xFF, 0xFF, 0xFF, 0xFF, 0x7F];
    let mut reader = BitReader::new(&data);
    assert_eq!(reader.leb128(), Ok((1u64 << 56) - 1));
    assert_eq!(position(&reader), 64);
    let data = [0x80u8, 0x80, 0x80, 0x80, 0x80, 0x80, 0x80, 0x01];
    assert_eq!(BitReader::new(&data).leb128(), Ok(1u64 << 49));
}

#[test]
fn leb128_of_more_than_eight_bytes_is_overflow() {
    let data = [0x80u8, 0x80, 0x80, 0x80, 0x80, 0x80, 0x80, 0x80, 0x00];
    assert_eq!(BitReader::new(&data).leb128(), Err(ObuError::Overflow));
    // eight continuation bytes and the end of the window
    let data = [0xFFu8; 8];
    assert_eq!(BitReader::new(&data).leb128(), Err(ObuError::Overflow));
}

#[test]
fn leb128_without_its_last_byte_is_truncated() {
    let data = [0x85u8];
    assert_eq!(BitReader::new(&data).leb128(), Err(ObuError::Truncated));
    let data = [0x85u8, 0x80, 0x80];
    assert_eq!(BitReader::new(&data).leb128(), Err(ObuError::Truncated));
    let empty: [u8; 0] = [];
    assert_eq!(BitReader::new(&empty).leb128(), Err(ObuError::Truncated));
}

#[test]
fn leb128_off_the_byte_boundary() {
    // four bits, then 0x85 0x01, then four bits
    let data = pack("1111 1000 0101 0000 0001 1010");
    let mut reader = BitReader::new(&data);
    assert_eq!(reader.bits(4), Ok(0xF));
    assert_eq!(reader.leb128(), Ok(133));
    assert_eq!(reader.bits(4), Ok(0xA));
}

#[test]
fn reads_never_move_the_cursor_back() {
    let data = [0x12u8, 0x34, 0x85, 0x01, 0x20];
    let mut reader = BitReader::new(&data);
    let mut last = position(&reader);
    let _ = reader.bit();
    assert!(position(&reader) >= last);
    last = position(&reader);
    let _ = reader.bits(15);
    assert!(position(&reader) >= last);
    last = position(&reader);
    let _ = reader.leb128();
    assert!(position(&reader) >= last);
    last = position(&reader);
    let _ = reader.uvlc();
    assert!(position(&reader) >= last);
    last = position(&reader);
    let _ = reader.bits(32);
    assert!(position(&reader) >= last);
    assert!(position(&reader) <= 40);
}
