use chunkdump::byte_arrays::Endian;
use chunkdump::errors::LocalError;
use chunkdump::formating::{
    add_one_if_byte_size_is_odd, format_bytes_as_string, format_bytes_as_string_of_bytes,
    format_file_size_as_string, format_mac_hfs_timestamp_as_date_time_string,
    format_midi_note_number_as_note_name, format_smpte_offset, get_file_name_from_file_path,
    set_key_value_pair_spacers, KeyValuePair,
};

#[test]
fn returns_correct_human_readable_file_size_format_from_millions_of_bytes() {
    let megabyte_scale_size_in_bytes = 123456789;
    let correct_formated_size = "117.74 MiB";
    let formated_size = format_file_size_as_string(megabyte_scale_size_in_bytes);
    assert_eq!(formated_size, correct_formated_size);
}

#[test]
fn correct_string_of_bytes_is_returned_from_bytes() {
    let input_byte_array_in_decimal: &[u8] = &[1, 2, 58, 75];
    let correct_result_string: String = "01 02 3a 4b".to_string();
    let result_string: String = format_bytes_as_string_of_bytes(input_byte_array_in_decimal);
    assert_eq!(result_string, correct_result_string);
}

#[test]
fn correct_string_is_returned_from_bytes() {
    let input_byte_array_in_decimal: Vec<u8> = vec![0x43, 0x4F, 0x52, 0x52, 0x45, 0x43, 0x54];
    let correct_result_string: String = "CORRECT".to_string();
    let result_string: String = format_bytes_as_string(input_byte_array_in_decimal).unwrap();
    assert_eq!(result_string, correct_result_string);
}

#[test]
fn return_correct_data_time_string_from_mac_hfs_timestamp() {
    let correct_date_time_string = "2001-09-09 01:46:40 UTC";
    let result = format_mac_hfs_timestamp_as_date_time_string(3082844800).unwrap();
    assert_eq!(result, correct_date_time_string);
}

#[test]
fn return_error_if_mac_hfs_timestamp_is_below_the_valid_range() {
    let result = format_mac_hfs_timestamp_as_date_time_string(1).err().unwrap();
    assert_eq!(result, LocalError::HFSTimestampTooSmall);
}

#[test]
fn formating_return_note_c_minus_2_when_midi_note_number_is_0() {
    assert_eq!(format_midi_note_number_as_note_name(0), "C-2");
}

#[test]
fn return_note_gb_3_when_midi_note_number_is_66() {
    assert_eq!(format_midi_note_number_as_note_name(66), "F#/Gb3");
}

#[test]
fn formating_return_note_g8_when_midi_note_number_is_127() {
    assert_eq!(format_midi_note_number_as_note_name(127), "G8");
}

#[test]
fn get_file_name_from_file_path_returns_correct_result() {
    let result = get_file_name_from_file_path("/test/path/filename.wav").unwrap();
    assert_eq!(result, "filename.wav")
}

#[test]
fn errors_when_geting_filename_from_filepath_if_path_is_invalid() {
    let result = get_file_name_from_file_path("/");
    assert_eq!(result.unwrap_err(), LocalError::InvalidFileName);
}

#[test]
fn returns_the_correctly_format_le_smpte_offset_bytes() {
    let mut test_manufacturer_id_bytes = vec![0x01, 0x02, 0x03, 0x04];
    let id = format_smpte_offset(&mut test_manufacturer_id_bytes, Endian::Little).unwrap();
    assert_eq!(id, "1h:2m:3s & 4 samples");
}

#[test]
fn returns_the_correctly_format_be_smpte_offset_bytes() {
    let mut test_manufacturer_id_bytes = vec![0x04, 0x03, 0x02, 0x01];
    let id = format_smpte_offset(&mut test_manufacturer_id_bytes, Endian::Big).unwrap();
    assert_eq!(id, "1h:2m:3s & 4 samples");
}

#[test]
fn correctly_adds_one_if_byte_size_is_odd() {
    let test_size = 3;
    let correct_size = test_size + 1;

    assert_eq!(add_one_if_byte_size_is_odd(test_size), correct_size);
}

#[test]
fn does_not_add_one_if_byte_size_is_even() {
    let test_size = 4;
    assert_eq!(add_one_if_byte_size_is_odd(test_size), test_size);
}

#[test]
fn correctly_set_tag_spacers() {
    let mut test_tags: Vec<KeyValuePair> = vec![
        KeyValuePair { key: "k".to_string(), spacer: "".to_string(), value: "none".to_string() },
        KeyValuePair { key: "ke".to_string(), spacer: "".to_string(), value: "none".to_string() },
        KeyValuePair { key: "key".to_string(), spacer: "".to_string(), value: "none".to_string() },
        KeyValuePair {
            key: "keyvaluepair".to_string(),
            spacer: "".to_string(),
            value: "none".to_string(),
        },
    ];
    let correct_tags: Vec<KeyValuePair> = vec![
        KeyValuePair {
            key: "k".to_string(),
            spacer: "           ".to_string(),
            value: "none".to_string(),
        },
        KeyValuePair {
            key: "ke".to_string(),
            spacer: "          ".to_string(),
            value: "none".to_string(),
        },
        KeyValuePair {
            key: "key".to_string(),
            spacer: "         ".to_string(),
            value: "none".to_string(),
        },
        KeyValuePair {
            key: "keyvaluepair".to_string(),
            spacer: "".to_string(),
            value: "none".to_string(),
        },
    ];
    set_key_value_pair_spacers(&mut test_tags);
    assert_eq!(test_tags, correct_tags);
}
