use chunkdump::errors::LocalError;
use chunkdump::file_types::ogg::{
    get_bitrate_type_from_bitrate_values, get_blocksizes_from_byte, get_metadata_from_headers,
    get_user_comment_from_bytes, BAD_USER_COMMENT_KEY, BAD_USER_COMMENT_VALUE,
    FIXED_BIT_RATE_OUTPUT_STRING, MAX_LIMITED_BIT_RATE_OUTPUT_STRING,
    MIN_LIMITED_BIT_RATE_OUTPUT_STRING, UNKNOWN_BIT_RATE_OUTPUT_STRING,
    VBR_ABR_BIT_RATE_OUTPUT_STRING,
};

#[test]
fn returns_correct_blocksizes_from_valid_blocksize_byte() {
    let test_byte = 0b11010101;
    let correct_blocksizes = (13, 5);
    let blocksizes = get_blocksizes_from_byte(test_byte);

    assert_eq!(correct_blocksizes, blocksizes);
}

#[test]
fn return_fixed_bit_rate_output_string_when_all_bitrates_are_equal() {
    let output_string = get_bitrate_type_from_bitrate_values(123456, 123456, 123456);
    assert_eq!(output_string, FIXED_BIT_RATE_OUTPUT_STRING.to_string());
}

#[test]
fn return_variable_bit_rate_output_string_when_min_and_max_are_zero_but_nominal_is_not_zero() {
    let output_string = get_bitrate_type_from_bitrate_values(0, 123456, 0);
    assert_eq!(output_string, VBR_ABR_BIT_RATE_OUTPUT_STRING.to_string());
}

#[test]
fn return_max_limited_bit_rate_output_string_when_min_and_nominal_are_zero_but_max_is_not_zero() {
    let output_string = get_bitrate_type_from_bitrate_values(0, 0, 123456);
    assert_eq!(output_string, MAX_LIMITED_BIT_RATE_OUTPUT_STRING.to_string());
}

#[test]
fn return_min_limited_bit_rate_output_string_when_max_and_nominal_are_zero_but_min_is_not_zero() {
    let output_string = get_bitrate_type_from_bitrate_values(123456, 0, 0);
    assert_eq!(output_string, MIN_LIMITED_BIT_RATE_OUTPUT_STRING.to_string());
}

#[test]
fn return_unknown_bit_rate_output_string_when_max_and_nominal_bitrates_are_set_and_min_is_zero() {
    let output_string = get_bitrate_type_from_bitrate_values(0, 123456, 123456);
    assert_eq!(output_string, UNKNOWN_BIT_RATE_OUTPUT_STRING.to_string());
}

#[test]
fn return_unknown_bit_rate_output_string_when_min_and_nominal_bitrates_are_set_and_max_is_zero() {
    let output_string = get_bitrate_type_from_bitrate_values(123456, 123456, 0);
    assert_eq!(output_string, UNKNOWN_BIT_RATE_OUTPUT_STRING.to_string());
}

#[test]
fn all_zero_bitrates_are_fixed() {
    assert_eq!(get_bitrate_type_from_bitrate_values(0, 0, 0), "Fixed");
}

fn page_start(packet_type: u8) -> Vec<u8> {
    let mut bytes = vec![0u8; 26];
    bytes.push(1);
    bytes.push(30);
    bytes.push(packet_type);
    bytes.extend_from_slice(b"vorbis");
    bytes
}

fn with_length(text: &[u8]) -> Vec<u8> {
    let mut bytes = (text.len() as u32).to_le_bytes().to_vec();
    bytes.extend_from_slice(text);
    bytes
}

fn vorbis_file_bytes() -> Vec<u8> {
    let mut bytes = page_start(1);
    bytes.extend_from_slice(&[0, 0, 0, 0, 2]);
    bytes.extend_from_slice(&44100u32.to_le_bytes());
    bytes.extend_from_slice(&0u32.to_le_bytes());
    bytes.extend_from_slice(&128000u32.to_le_bytes());
    bytes.extend_from_slice(&0u32.to_le_bytes());
    bytes.push(0xB8);
    bytes.push(1);
    bytes.extend(page_start(3));
    bytes.extend(with_length(b"Xiph"));
    bytes.extend_from_slice(&2u32.to_le_bytes());
    bytes.extend(with_length(b"ARTIST=Some=One"));
    bytes.extend(with_length(b"NOEQ"));
    bytes
}

#[test]
fn headers_are_read_from_vorbis_bytes() {
    let header = get_metadata_from_headers(&vorbis_file_bytes()).unwrap();
    assert_eq!(header.vorbis_version, 0);
    assert_eq!(header.audio_channels, 2);
    assert_eq!(header.audio_sample_rate, 44100);
    assert_eq!(header.bitrate_maximum, 0);
    assert_eq!(header.bitrate_nominal, 128000);
    assert_eq!(header.bitrate_minimum, 0);
    assert_eq!((header.blocksize_0, header.blocksize_1), (11, 8));
    assert_eq!(header.bitrate_type, "VBR or ABR");
    assert_eq!(header.vendor_comment, "Xiph");
    assert_eq!(header.user_comments.len(), 2);
    assert_eq!(header.user_comments[0].key, "ARTIST");
    assert_eq!(header.user_comments[0].value, "Some=One");
    assert_eq!(header.user_comments[0].spacer, "");
    assert_eq!(header.user_comments[1].key, BAD_USER_COMMENT_KEY);
    assert_eq!(header.user_comments[1].value, BAD_USER_COMMENT_VALUE);
    assert_eq!(header.user_comments[1].spacer, "  ");
}

#[test]
fn truncated_comment_list_gives_bad_comments() {
    let mut bytes = vorbis_file_bytes();
    bytes.truncate(bytes.len() - 6);
    let header = get_metadata_from_headers(&bytes).unwrap();
    assert_eq!(header.user_comments.len(), 2);
    assert_eq!(header.user_comments[0].key, "ARTIST");
    assert_eq!(header.user_comments[1].key, BAD_USER_COMMENT_KEY);
}

#[test]
fn truncated_identification_header_is_refused() {
    let bytes = vorbis_file_bytes();
    let result = get_metadata_from_headers(&bytes[..40]);
    assert_eq!(result, Err(LocalError::InsufficientBytesToRead(22)));
    let result = get_metadata_from_headers(&bytes[..10]);
    assert_eq!(result, Err(LocalError::InsufficientBytesToRead(1)));
}

#[test]
fn vendor_comment_that_is_not_utf8_is_refused() {
    let mut bytes = page_start(1);
    bytes.extend_from_slice(&[0u8; 23]);
    bytes.extend(page_start(3));
    bytes.extend(with_length(&[0xFF, 0xFE]));
    bytes.extend_from_slice(&0u32.to_le_bytes());
    assert_eq!(get_metadata_from_headers(&bytes), Err(LocalError::ErrorParsingVorbisTags));
}

#[test]
fn comment_without_equals_sign_is_unreadable() {
    let bytes = with_length(b"TITLE");
    let (comment, next) = get_user_comment_from_bytes(&bytes, 0);
    assert!(comment.is_none());
    assert_eq!(next, 9);
}
