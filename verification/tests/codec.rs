use nelly::platform_message::binary::{BinaryReader, BinaryWriter, CodecError};
use nelly::view::ViewId;

fn encoded_u64(value: u64) -> Vec<u8> {
    let mut writer = BinaryWriter::new();
    writer.write::<u64>(&value);
    writer.into_bytes()
}

#[test]
fn new_writer_is_empty() {
    assert_eq!(BinaryWriter::new().into_bytes(), Vec::<u8>::new());
}

#[test]
fn u32_is_written_least_significant_byte_first() {
    let mut writer = BinaryWriter::new();
    writer.write::<u32>(&0x0102_0304);
    assert_eq!(writer.into_bytes(), vec![4, 3, 2, 1]);
}

#[test]
fn u64_matches_the_little_endian_bytes_of_std() {
    for value in [0u64, 1, 255, 256, 0x0123_4567_89ab_cdef, u64::MAX] {
        assert_eq!(encoded_u64(value), value.to_le_bytes().to_vec());
    }
}

#[test]
fn i64_is_written_in_twos_complement() {
    let mut writer = BinaryWriter::new();
    writer.write::<i64>(&-2);
    assert_eq!(writer.into_bytes(), vec![0xfe, 0xff, 0xff, 0xff, 0xff, 0xff, 0xff, 0xff]);
}

#[test]
fn write_uint_keeps_the_low_bytes() {
    let mut writer = BinaryWriter::new();
    writer.write_uint(0x0a0b_0c0d, 2);
    assert_eq!(writer.into_bytes(), vec![0x0d, 0x0c]);
}

#[test]
fn unsigned_scalars_round_trip() {
    let mut writer = BinaryWriter::new();
    writer.write::<u8>(&0);
    writer.write::<u8>(&u8::MAX);
    writer.write::<u16>(&0xbeef);
    writer.write::<u16>(&u16::MAX);
    writer.write::<u32>(&0xdead_beef);
    writer.write::<u32>(&u32::MAX);
    writer.write::<u64>(&0x0123_4567_89ab_cdef);
    writer.write::<u64>(&u64::MAX);
    let bytes = writer.into_bytes();
    assert_eq!(bytes.len(), 2 + 4 + 8 + 16);
    let mut reader = BinaryReader::new(&bytes);
    assert_eq!(reader.read::<u8>(), Ok(0));
    assert_eq!(reader.read::<u8>(), Ok(u8::MAX));
    assert_eq!(reader.read::<u16>(), Ok(0xbeef));
    assert_eq!(reader.read::<u16>(), Ok(u16::MAX));
    assert_eq!(reader.read::<u32>(), Ok(0xdead_beef));
    assert_eq!(reader.read::<u32>(), Ok(u32::MAX));
    assert_eq!(reader.read::<u64>(), Ok(0x0123_4567_89ab_cdef));
    assert_eq!(reader.read::<u64>(), Ok(u64::MAX));
    assert_eq!(reader.assert_finished(), Ok(()));
}

#[test]
fn signed_scalars_round_trip() {
    let mut writer = BinaryWriter::new();
    writer.write::<i8>(&i8::MIN);
    writer.write::<i8>(&-1);
    writer.write::<i16>(&i16::MIN);
    writer.write::<i16>(&12345);
    writer.write::<i32>(&i32::MIN);
    writer.write::<i32>(&i32::MAX);
    writer.write::<i64>(&i64::MIN);
    writer.write::<i64>(&-1234567890123);
    let bytes = writer.into_bytes();
    let mut reader = BinaryReader::new(&bytes);
    assert_eq!(reader.read::<i8>(), Ok(i8::MIN));
    assert_eq!(reader.read::<i8>(), Ok(-1));
    assert_eq!(reader.read::<i16>(), Ok(i16::MIN));
    assert_eq!(reader.read::<i16>(), Ok(12345));
    assert_eq!(reader.read::<i32>(), Ok(i32::MIN));
    assert_eq!(reader.read::<i32>(), Ok(i32::MAX));
    assert_eq!(reader.read::<i64>(), Ok(i64::MIN));
    assert_eq!(reader.read::<i64>(), Ok(-1234567890123));
    assert_eq!(reader.assert_finished(), Ok(()));
}

#[test]
fn doubles_round_trip_through_their_bits() {
    for value in [0.0f64, -0.0, 1.5, -2.25, f64::MAX, f64::MIN_POSITIVE, f64::INFINITY] {
        let mut writer = BinaryWriter::new();
        writer.write::<u64>(&value.to_bits());
        let bytes = writer.into_bytes();
        assert_eq!(bytes, value.to_le_bytes().to_vec());
        let mut reader = BinaryReader::new(&bytes);
        let back = f64::from_bits(reader.read::<u64>().unwrap());
        assert_eq!(back.to_bits(), value.to_bits());
    }
}

#[test]
fn singles_round_trip_through_their_bits() {
    for value in [0.0f32, -1.5, f32::MAX, f32::NEG_INFINITY] {
        let mut writer = BinaryWriter::new();
        writer.write::<u32>(&value.to_bits());
        let bytes = writer.into_bytes();
        assert_eq!(bytes, value.to_le_bytes().to_vec());
        let mut reader = BinaryReader::new(&bytes);
        let back = f32::from_bits(reader.read::<u32>().unwrap());
        assert_eq!(back.to_bits(), value.to_bits());
    }
}

#[test]
fn nan_keeps_its_bits() {
    let bits = f64::NAN.to_bits();
    let bytes = encoded_u64(bits);
    let mut reader = BinaryReader::new(&bytes);
    assert_eq!(reader.read::<u64>(), Ok(bits));
}

#[test]
fn view_id_round_trip() {
    let mut writer = BinaryWriter::new();
    writer.write::<ViewId>(&ViewId(-7));
    let bytes = writer.into_bytes();
    assert_eq!(bytes, (-7i64).to_le_bytes().to_vec());
    let mut reader = BinaryReader::new(&bytes);
    assert_eq!(reader.read::<ViewId>(), Ok(ViewId(-7)));
}

#[test]
fn string_is_length_then_utf8() {
    let mut writer = BinaryWriter::new();
    writer.write_string("hé");
    assert_eq!(writer.into_bytes(), vec![3, 0, 0, 0, 0, 0, 0, 0, b'h', 0xc3, 0xa9]);
}

#[test]
fn empty_string_round_trip() {
    let mut writer = BinaryWriter::new();
    writer.write_string("");
    let bytes = writer.into_bytes();
    assert_eq!(bytes, vec![0; 8]);
    let mut reader = BinaryReader::new(&bytes);
    assert_eq!(reader.read_string(), Ok(String::new()));
    assert_eq!(reader.assert_finished(), Ok(()));
}

#[test]
fn strings_round_trip() {
    let long = "añ→𝄞".repeat(5000);
    for text in ["a", "hello world", "日本語のテキスト", "\u{10ffff}\u{0}", long.as_str()] {
        let mut writer = BinaryWriter::new();
        writer.write_string(text);
        writer.write::<u8>(&0xaa);
        let bytes = writer.into_bytes();
        assert_eq!(bytes.len(), 8 + text.len() + 1);
        let mut reader = BinaryReader::new(&bytes);
        assert_eq!(reader.read_string(), Ok(text.to_string()));
        assert_eq!(reader.read::<u8>(), Ok(0xaa));
        assert_eq!(reader.assert_finished(), Ok(()));
    }
}

#[test]
fn invalid_utf8_is_refused() {
    let mut bytes = 2u64.to_le_bytes().to_vec();
    bytes.extend_from_slice(&[0xff, 0xfe]);
    let mut reader = BinaryReader::new(&bytes);
    assert_eq!(reader.read_string(), Err(CodecError::InvalidUtf8));
}

#[test]
fn overlong_and_surrogate_encodings_are_refused() {
    for body in [vec![0xc0u8, 0x80], vec![0xed, 0xa0, 0x80], vec![0xe2, 0x82]] {
        let mut bytes = (body.len() as u64).to_le_bytes().to_vec();
        bytes.extend_from_slice(&body);
        let mut reader = BinaryReader::new(&bytes);
        assert_eq!(reader.read_string(), Err(CodecError::InvalidUtf8));
    }
}

#[test]
fn string_shorter_than_its_length_is_an_underflow() {
    let mut bytes = 5u64.to_le_bytes().to_vec();
    bytes.extend_from_slice(b"abc");
    let mut reader = BinaryReader::new(&bytes);
    assert_eq!(reader.read_string(), Err(CodecError::UnexpectedEof));
}

#[test]
fn string_with_an_absurd_length_is_an_underflow() {
    let mut bytes = u64::MAX.to_le_bytes().to_vec();
    bytes.extend_from_slice(b"abc");
    let mut reader = BinaryReader::new(&bytes);
    assert_eq!(reader.read_string(), Err(CodecError::UnexpectedEof));
}

#[test]
fn string_without_a_whole_length_is_an_underflow() {
    let bytes = [1u8, 0, 0];
    let mut reader = BinaryReader::new(&bytes);
    assert_eq!(reader.read_string(), Err(CodecError::UnexpectedEof));
}

#[test]
fn short_input_is_an_underflow() {
    let bytes = [1u8, 2, 3];
    let mut reader = BinaryReader::new(&bytes);
    assert_eq!(reader.read::<u32>(), Err(CodecError::UnexpectedEof));
    let mut reader = BinaryReader::new(&[]);
    assert_eq!(reader.read::<u8>(), Err(CodecError::UnexpectedEof));
}

#[test]
fn underflow_leaves_the_reader_at_the_end() {
    let bytes = [1u8, 2, 3];
    let mut reader = BinaryReader::new(&bytes);
    assert_eq!(reader.read::<u64>(), Err(CodecError::UnexpectedEof));
    assert_eq!(reader.remaining_len(), 0);
}

#[test]
fn trailing_bytes_are_refused() {
    let bytes = [1u8, 2, 3, 4, 5];
    let mut reader = BinaryReader::new(&bytes);
    assert_eq!(reader.read::<u32>(), Ok(0x0403_0201));
    assert_eq!(reader.remaining_len(), 1);
    assert_eq!(reader.assert_finished(), Err(CodecError::TrailingData));
    assert_eq!(reader.remaining_len(), 0);
}

#[test]
fn fresh_reader_over_nothing_is_finished() {
    let mut reader = BinaryReader::new(&[]);
    assert_eq!(reader.assert_finished(), Ok(()));
}

#[test]
fn fill_bytes_takes_exactly_what_is_asked() {
    let bytes = [9u8, 8, 7, 6];
    let mut reader = BinaryReader::new(&bytes);
    assert_eq!(reader.fill_bytes(3), Ok(vec![9, 8, 7]));
    assert_eq!(reader.fill_bytes(0), Ok(vec![]));
    assert_eq!(reader.fill_bytes(2), Err(CodecError::UnexpectedEof));
}

#[test]
fn read_uint_reads_three_bytes() {
    let bytes = [0x01u8, 0x02, 0x03, 0x04];
    let mut reader = BinaryReader::new(&bytes);
    assert_eq!(reader.read_uint(3), Ok(0x03_0201));
    assert_eq!(reader.read_uint(0), Ok(0));
    assert_eq!(reader.read_uint(1), Ok(4));
}

#[test]
fn slices_and_vectors_round_trip() {
    let values: Vec<u16> = vec![1, 2, 0xffff, 0x1234];
    let mut writer = BinaryWriter::new();
    writer.write_slice::<u16>(&values);
    let bytes = writer.into_bytes();
    assert_eq!(bytes, vec![1, 0, 2, 0, 0xff, 0xff, 0x34, 0x12]);
    let mut reader = BinaryReader::new(&bytes);
    assert_eq!(reader.read_vec::<u16>(4), Ok(values));
    assert_eq!(reader.assert_finished(), Ok(()));
}

#[test]
fn empty_vector_reads_nothing() {
    let bytes = [1u8];
    let mut reader = BinaryReader::new(&bytes);
    assert_eq!(reader.read_vec::<u32>(0), Ok(vec![]));
    assert_eq!(reader.remaining_len(), 1);
}

#[test]
fn vector_that_runs_out_fails_whole() {
    let bytes = [1u8, 0, 2, 0, 3];
    let mut reader = BinaryReader::new(&bytes);
    assert_eq!(reader.read_vec::<u16>(3), Err(CodecError::UnexpectedEof));
}

#[test]
fn arrays_round_trip() {
    let bytes = [1u8, 0, 0, 0, 2, 0, 0, 0, 3, 0, 0, 0];
    let mut reader = BinaryReader::new(&bytes);
    assert_eq!(reader.read_array::<u32, 3>(), Ok([1, 2, 3]));
    assert_eq!(reader.assert_finished(), Ok(()));
}

#[test]
fn array_of_nothing() {
    let mut reader = BinaryReader::new(&[]);
    assert_eq!(reader.read_array::<u64, 0>(), Ok([]));
}

#[test]
fn array_that_runs_out_hands_out_nothing() {
    let bytes = [1u8, 2, 3];
    let mut reader = BinaryReader::new(&bytes);
    assert_eq!(reader.read_array::<u8, 4>(), Err(CodecError::UnexpectedEof));
}

#[test]
fn write_bytes_appends() {
    let mut writer = BinaryWriter::new();
    writer.write_bytes(&[1, 2]);
    writer.write_bytes(&[]);
    writer.write_bytes(&[3]);
    assert_eq!(writer.into_bytes(), vec![1, 2, 3]);
}
