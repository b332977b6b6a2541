use chunkdump::errors::LocalError;
use chunkdump::file_types::mp3::{
    format_bit_as_bool_string, get_bitrate_from_index, get_header_metadata,
    get_mode_extension_from_index, get_sample_rate_from_index, u32_integer_from_sync_safe_integer,
    LAYER_RESERVED_VALUE, MAX_SYNC_SAFE_INTEGER_BYTE_VALUE, MPEG_BITRATE_INDEX_LENGTH,
    MPEG_MODE_EXTENSION_LENGTH, VERSION_RESERVED_VALUE,
};

#[test]
fn return_true_string_when_boolean_flag_bit_is_set() {
    let result = format_bit_as_bool_string(1 as u8);
    assert_eq!(result, "True");
}

#[test]
fn return_true_string_when_boolean_flag_bit_is_unset() {
    let result = format_bit_as_bool_string(0 as u8);
    assert_eq!(result, "False");
}

#[test]
fn return_correct_integer_from_sync_safe_integer() {
    let test_sync_safe_integer_bytes: Vec<u8> = vec![0x25, 0x37, 0x27, 0x2C];
    let correct_result = 78500780;
    let result = u32_integer_from_sync_safe_integer(test_sync_safe_integer_bytes).unwrap();
    assert_eq!(result, correct_result);
}

#[test]
fn return_expected_error_from_sync_safe_integer_when_some_bytes_exceeds_the_max_value() {
    let test_sync_safe_integer_bytes: Vec<u8> = vec![0xFF, 0x00, 0x00, 0x00];
    let expected_error = LocalError::MP3SyncSafeIntegerOverflow(MAX_SYNC_SAFE_INTEGER_BYTE_VALUE);
    let result = u32_integer_from_sync_safe_integer(test_sync_safe_integer_bytes)
        .expect_err("u32_integer_from_sync_safe_integer should have returned an error");
    assert_eq!(result, expected_error);
}

#[test]
fn sync_safe_integer_from_empty_bytes_is_refused() {
    let result = u32_integer_from_sync_safe_integer(vec![]);
    assert_eq!(
        result,
        Err(LocalError::MP3SyncSafeIntegerOverflow(MAX_SYNC_SAFE_INTEGER_BYTE_VALUE))
    );
}

#[test]
fn sync_safe_integer_of_largest_bytes() {
    let result = u32_integer_from_sync_safe_integer(vec![0x7F, 0x7F, 0x7F, 0x7F]).unwrap();
    assert_eq!(result, 0x0FFF_FFFF);
}

#[test]
fn return_correct_sample_rate_string_from_valid_raw_sample_rate_with_whole_khz() {
    let test_sample_rate = 2;
    let test_version = 2;
    let correct_sample_rate = String::from("16");
    let sample_rate_result = get_sample_rate_from_index(test_sample_rate, test_version).unwrap();
    assert_eq!(sample_rate_result, correct_sample_rate);
}

#[test]
fn return_correct_sample_rate_string_from_valid_raw_sample_rate_with_decimal_khz() {
    let test_sample_rate = 0;
    let test_version = 3;
    let correct_sample_rate = String::from("44.1");
    let sample_rate_result = get_sample_rate_from_index(test_sample_rate, test_version).unwrap();
    assert_eq!(sample_rate_result, correct_sample_rate);
}

#[test]
fn sample_rates_ending_in_fifty_hertz_round_down() {
    assert_eq!(get_sample_rate_from_index(0, 2).unwrap(), "22.0");
    assert_eq!(get_sample_rate_from_index(0, 0).unwrap(), "11.0");
    assert_eq!(get_sample_rate_from_index(3, 3).unwrap(), "0");
}

#[test]
fn return_expected_error_from_out_of_range_sample_rate_when_getting_sample_rate_from_index() {
    let test_sample_rate = 10;
    let test_version = 2;
    let expected_error = LocalError::MP3SampleRateIndexOverflow(test_sample_rate);
    let sample_rate_result = get_sample_rate_from_index(test_sample_rate, test_version)
        .expect_err("get_sample_rate_from_index should have returned an error");
    assert_eq!(sample_rate_result, expected_error);
}

#[test]
fn return_expected_error_from_out_of_range_version_when_getting_sample_rate_from_index() {
    let test_sample_rate = 2;
    let test_version = 11;
    let expected_error = LocalError::MP3VersionIndexOverflow(test_version);
    let sample_rate_result = get_sample_rate_from_index(test_sample_rate, test_version)
        .expect_err("get_sample_rate_from_index should have returned an error");
    assert_eq!(sample_rate_result, expected_error);
}

#[test]
fn return_correct_bitrate_string_from_valid_raw_bitrate() {
    let test_bitrate = 12;
    let test_version = 3;
    let test_layer = 3;
    let correct_bitrate = 384;
    let bitrate_result = get_bitrate_from_index(test_bitrate, test_version, test_layer).unwrap();
    assert_eq!(bitrate_result, correct_bitrate);
}

#[test]
fn return_expected_error_from_out_of_range_raw_bitrate() {
    let test_bitrate = MPEG_BITRATE_INDEX_LENGTH;
    let test_version = 3;
    let test_layer = 3;
    let expected_error = LocalError::MP3BitrateIndexOverflow(test_bitrate);
    let bitrate_result = get_bitrate_from_index(test_bitrate, test_version, test_layer)
        .expect_err("get_bitrate_from_index should have returned an error");
    assert_eq!(bitrate_result, expected_error);
}

#[test]
fn return_expected_error_from_out_of_range_version_when_getting_bitrate_from_index() {
    let test_bitrate = 12;
    let test_version = 12;
    let test_layer = 3;
    let expected_error = LocalError::MP3VersionIndexOverflow(test_version);
    let bitrate_result = get_bitrate_from_index(test_bitrate, test_version, test_layer)
        .expect_err("get_bitrate_from_index should have returned an error");
    assert_eq!(bitrate_result, expected_error);
}

#[test]
fn return_expected_error_from_out_of_range_layer_when_getting_bitrate_from_index() {
    let test_bitrate = 12;
    let test_version = 3;
    let test_layer = 12;
    let expected_error = LocalError::MP3LayerIndexOverflow(test_layer);
    let bitrate_result = get_bitrate_from_index(test_bitrate, test_version, test_layer)
        .expect_err("get_bitrate_from_index should have returned an error");
    assert_eq!(bitrate_result, expected_error);
}

#[test]
fn return_expected_error_from_out_of_range_layer_when_getting_bitrate_from_index_where_version_is_reserved_value(
) {
    let test_bitrate = 12;
    let test_version = VERSION_RESERVED_VALUE;
    let test_layer = 3;
    let zero_bitrate = 0;
    let bitrate_result = get_bitrate_from_index(test_bitrate, test_version, test_layer).unwrap();
    assert_eq!(bitrate_result, zero_bitrate);
}

#[test]
fn return_expected_error_from_out_of_range_layer_when_getting_bitrate_from_index_where_layre_is_reserved_value(
) {
    let test_bitrate = 12;
    let test_version = 3;
    let test_layer = LAYER_RESERVED_VALUE;
    let zero_bitrate = 0;
    let bitrate_result = get_bitrate_from_index(test_bitrate, test_version, test_layer).unwrap();
    assert_eq!(bitrate_result, zero_bitrate);
}

#[test]
fn bitrate_of_mpeg_2_layer_iii() {
    assert_eq!(get_bitrate_from_index(9, 2, 1).unwrap(), 80);
    assert_eq!(get_bitrate_from_index(9, 0, 2).unwrap(), 80);
    assert_eq!(get_bitrate_from_index(14, 3, 1).unwrap(), 320);
}

#[test]
fn get_correct_mode_extension_joint_stereo_value_from_mode_extension_when_layer_is_layer_1() {
    let test_mode_extension: u8 = 2;
    let test_layer: u8 = 3;
    let correct_joint_stereo_values =
        ("Bands 12 to 31".to_string(), String::new(), String::new());
    let joint_stereo_mode_extension = get_mode_extension_from_index(test_mode_extension, test_layer);
    assert_eq!(joint_stereo_mode_extension, correct_joint_stereo_values);
}

#[test]
fn get_correct_mode_extension_joint_stereo_value_from_mode_extension_when_layer_is_layer_2() {
    let test_mode_extension: u8 = 2;
    let test_layer: u8 = 2;
    let correct_joint_stereo_values =
        ("Bands 12 to 31".to_string(), String::new(), String::new());
    let joint_stereo_mode_extension = get_mode_extension_from_index(test_mode_extension, test_layer);
    assert_eq!(joint_stereo_mode_extension, correct_joint_stereo_values);
}

#[test]
fn get_correct_mode_extension_joint_stereo_value_from_mode_extension_when_layer_is_layer_3() {
    let test_mode_extension: u8 = 2;
    let test_layer: u8 = 1;
    let correct_joint_stereo_values = (String::new(), "Off".to_string(), "On".to_string());
    let joint_stereo_mode_extension = get_mode_extension_from_index(test_mode_extension, test_layer);
    assert_eq!(joint_stereo_mode_extension, correct_joint_stereo_values);
}

#[test]
fn get_correct_mode_extension_joint_stereo_value_from_mode_extension_when_layer_is_out_of_range(
) {
    let test_mode_extension: u8 = 2;
    let test_layer: u8 = MPEG_MODE_EXTENSION_LENGTH;
    let correct_joint_stereo_values = (String::new(), String::new(), String::new());
    let joint_stereo_mode_extension = get_mode_extension_from_index(test_mode_extension, test_layer);
    assert_eq!(joint_stereo_mode_extension, correct_joint_stereo_values);
}

#[test]
fn header_of_an_mpeg_1_layer_iii_frame() {
    let header = get_header_metadata(&[0xFF, 0xFB, 0x90, 0x64]).unwrap();
    assert_eq!(header.version, "MPEG Version 1 (ISO/IEC 11172-3)");
    assert_eq!(header.layer, "Layer III");
    assert_eq!(header.protected, "True");
    assert_eq!(header.bitrate, 128);
    assert_eq!(header.sample_rate, "44.1");
    assert_eq!(header.private_bit, "False");
    assert_eq!(header.channel_mode, "Joint stereo (Stereo)");
    assert_eq!(header.joint_stereo, "");
    assert_eq!(header.intensity_stereo, "Off");
    assert_eq!(header.mid_side_stereo, "On");
    assert_eq!(header.copyright, "False");
    assert_eq!(header.original, "True");
    assert_eq!(header.emphasis, "None");
}

#[test]
fn header_with_bad_bitrate_is_refused() {
    let result = get_header_metadata(&[0xFF, 0xFB, 0xF0, 0x00]);
    assert_eq!(result, Err(LocalError::MP3BitrateIndexOverflow(15)));
}
