use easy_async_opencl3::formatter::Formatter;

#[test]
fn u32_little_endian_round_trip() {
    let bytes = [0x78u8, 0x56, 0x34, 0x12];
    assert_eq!(u32::from_buffer(&bytes), Some(0x1234_5678));
    assert_eq!(u32::from_buffer(&0xDEAD_BEEFu32.to_le_bytes()), Some(0xDEAD_BEEF));
}

#[test]
fn u32_rejects_wrong_length() {
    assert_eq!(u32::from_buffer(&[1, 2, 3]), None);
    assert_eq!(u32::from_buffer(&[1, 2, 3, 4, 5]), None);
    assert_eq!(u32::from_buffer(&[]), None);
}

#[test]
fn u64_little_endian_round_trip() {
    let x = 0x0123_4567_89AB_CDEFu64;
    assert_eq!(u64::from_buffer(&x.to_le_bytes()), Some(x));
    assert_eq!(u64::from_buffer(&[0; 4]), None);
}

#[test]
fn usize_reads_eight_bytes() {
    let x = 4096usize;
    assert_eq!(usize::from_buffer(&(x as u64).to_le_bytes()), Some(x));
    assert_eq!(usize::from_buffer(&[0; 7]), None);
}

#[test]
fn signed_decoders_read_twos_complement() {
    assert_eq!(i32::from_buffer(&(-1i32).to_le_bytes()), Some(-1));
    assert_eq!(i32::from_buffer(&(-123456i32).to_le_bytes()), Some(-123456));
    assert_eq!(i32::from_buffer(&2147483647i32.to_le_bytes()), Some(2147483647));
    assert_eq!(i64::from_buffer(&(-2i64).to_le_bytes()), Some(-2));
    assert_eq!(i64::from_buffer(&i64::MIN.to_le_bytes()), Some(i64::MIN));
    assert_eq!(isize::from_buffer(&(-5i64).to_le_bytes()), Some(-5isize));
}

#[test]
fn bool_is_nonzero_32_bit() {
    assert_eq!(bool::from_buffer(&[0, 0, 0, 0]), Some(false));
    assert_eq!(bool::from_buffer(&[1, 0, 0, 0]), Some(true));
    assert_eq!(bool::from_buffer(&[0, 0, 0, 4]), Some(true));
    assert_eq!(bool::from_buffer(&[1, 0]), None);
}

#[test]
fn string_decodes_utf8() {
    let r = String::from_buffer(b"hello");
    assert_eq!(r, Some(String::from("hello")));
}

#[test]
fn string_keeps_trailing_nul() {
    let r = String::from_buffer(b"abc\0");
    assert_eq!(r, Some(String::from("abc\0")));
}

#[test]
fn string_decodes_multi_byte_utf8_byte_exactly() {
    let text = "héllo wörld";
    let r = String::from_buffer(text.as_bytes());
    assert_eq!(r, Some(String::from(text)));
    assert_eq!(r.unwrap().as_bytes(), text.as_bytes());
}

#[test]
fn string_rejects_invalid_utf8() {
    assert_eq!(String::from_buffer(&[0xFF, 0xFE]), None);
}

#[test]
fn u64_vector_decodes_chunk_by_chunk() {
    let mut bytes = Vec::new();
    bytes.extend_from_slice(&1u64.to_le_bytes());
    bytes.extend_from_slice(&0xFFFF_0000_1234u64.to_le_bytes());
    let r: Option<Vec<u64>> = Vec::<u64>::from_buffer(&bytes);
    assert_eq!(r, Some(vec![1, 0xFFFF_0000_1234]));
}

#[test]
fn u64_vector_rejects_partial_chunks() {
    let r: Option<Vec<u64>> = Vec::<u64>::from_buffer(&[0u8; 12]);
    assert_eq!(r, None);
}

#[test]
fn usize_vector_decodes_chunk_by_chunk() {
    let mut bytes = Vec::new();
    bytes.extend_from_slice(&64u64.to_le_bytes());
    bytes.extend_from_slice(&128u64.to_le_bytes());
    bytes.extend_from_slice(&256u64.to_le_bytes());
    let r: Option<Vec<usize>> = Vec::<usize>::from_buffer(&bytes);
    assert_eq!(r, Some(vec![64usize, 128, 256]));
}

#[test]
fn empty_vector_buffer_decodes_to_empty() {
    let r: Option<Vec<u64>> = Vec::<u64>::from_buffer(&[]);
    assert_eq!(r, Some(Vec::new()));
}
