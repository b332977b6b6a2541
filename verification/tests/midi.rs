use chunkdump::file_types::midi::{
    get_bpm_from_bytes, get_division_output_values_from_raw_division_bytes,
    get_file_format_from_raw_format_number, get_key_from_number_of_flats,
    get_sequencer_specific_field_from_bytes, get_time_signature_from_bytes,
    get_track_data_from_midi_data, get_variable_length_unsigned_integer_from_track_data, Division,
    MIDI_FORMAT_TYPE_ONE, MIDI_FORMAT_TYPE_TWO, MIDI_FORMAT_TYPE_ZERO,
};
use chunkdump::midi::note_name_from_midi_note_number;

#[test]
fn returns_f_minor_key_from_4_flats() {
    let correct_result = "F minor".to_string();
    let result = get_key_from_number_of_flats(4, false);
    assert_eq!(result, correct_result);
}

#[test]
fn returns_b_major_key_from_7_flats() {
    let correct_result = "B Major".to_string();
    let result = get_key_from_number_of_flats(7, true);
    assert_eq!(result, correct_result);
}

#[test]
fn return_the_correct_time_signature_from_valid_bytes() {
    let mut test_bytes: Vec<u8> = vec![0x07, 0x08, 0x09, 0x10];
    let correct_result =
        "7/16\nMidi Clock Ticks Per Metronome Click: 9\n32nd Notes Per Beat: 16".to_string();
    let result = get_time_signature_from_bytes(&mut test_bytes);
    assert_eq!(result, correct_result);
}

#[test]
fn return_the_correct_sequencer_specific_field_from_valid_bytes() {
    let mut test_bytes: Vec<u8> = vec![0x07, 0x43, 0x4F, 0x52, 0x52, 0x45, 0x43, 0x54];
    let correct_result = "7 :  43 4f 52 52 45 43 54".to_string();
    let result = get_sequencer_specific_field_from_bytes(&mut test_bytes);
    assert_eq!(result, correct_result);
}

#[test]
fn return_the_correct_file_format_string_from_valid_format_numbers() {
    let format_numbers: [(u16, &str); 3] =
        [(0, MIDI_FORMAT_TYPE_ZERO), (1, MIDI_FORMAT_TYPE_ONE), (2, MIDI_FORMAT_TYPE_TWO)];
    for number in format_numbers {
        let result = get_file_format_from_raw_format_number(number.0);
        assert_eq!(result, number.1);
    }
}

#[test]
fn return_an_empty_file_format_string_from_invalid_format_number() {
    let test_number = u16::MAX;
    let correct_result = "".to_string();
    let result = get_file_format_from_raw_format_number(test_number);
    assert_eq!(result, correct_result);
}

#[test]
fn return_correct_variable_length_integer_from_no_bytes() {
    let mut test_bytes = vec![];
    let correct_result = 0;
    let result = get_variable_length_unsigned_integer_from_track_data(&mut test_bytes);
    assert_eq!(result, correct_result);
}

#[test]
fn return_correct_variable_length_integer_from_1_valid_byte() {
    let mut test_bytes = vec![7];
    let correct_result = 7;
    let result = get_variable_length_unsigned_integer_from_track_data(&mut test_bytes);
    assert_eq!(result, correct_result);
}

#[test]
fn return_correct_variable_length_integer_when_no_bytes_have_list_byte_bit_set() {
    let mut test_bytes = vec![135, 129, 140, 200, 129, 243];
    let correct_result = 2273414344;
    let result = get_variable_length_unsigned_integer_from_track_data(&mut test_bytes);
    assert_eq!(result, correct_result);
}

#[test]
fn return_correct_ppqn_division_from_valid_bytes() {
    let test_bytes: Vec<u8> = vec![0x00, 0x18];
    let correct_result = Division { ppqn: 24, timecode: 0, ticks_per_frame: 0 };
    let result = get_division_output_values_from_raw_division_bytes(test_bytes);
    assert_eq!(result, correct_result);
}

#[test]
fn return_correct_timecode_division_from_valid_bytes() {
    let test_bytes: Vec<u8> = vec![0xF0, 0x18];
    let correct_result = Division { ppqn: 0, timecode: 112, ticks_per_frame: 24 };
    let result = get_division_output_values_from_raw_division_bytes(test_bytes);
    assert_eq!(result, correct_result);
}

#[test]
fn return_correct_bpm_from_bytes() {
    let mut test_bytes: Vec<u8> = vec![0x05, 0x24, 0xB6];
    let correct_result = "178".to_string();
    let result = get_bpm_from_bytes(&mut test_bytes);
    assert_eq!(result, correct_result);
}

#[test]
fn return_zero_bpm_when_passed_zero_value_bytes() {
    let mut test_bytes: Vec<u8> = vec![0x00, 0x00, 0x00];
    let correct_result = "0".to_string();
    let result = get_bpm_from_bytes(&mut test_bytes);
    assert_eq!(result, correct_result);
}

#[test]
fn return_correct_byte_vec_from_valid_bytes() {
    let mut test_bytes: Vec<u8> = vec![
        0x00, 0x00, 0x00, 0x00, 0x00, 0x00, 0x00, 0x04, 0x01, 0x02, 0x03, 0x04, 0x05, 0x06,
    ];
    let correct_result = vec![0x01, 0x02, 0x03, 0x04];
    let result = get_track_data_from_midi_data(&mut test_bytes).unwrap();
    assert_eq!(result, correct_result);
}

#[test]
fn midi_return_note_c_minus_2_when_midi_note_number_is_0() {
    assert_eq!(note_name_from_midi_note_number(0), "C-2");
}

#[test]
fn return_note_g_flat_3_when_midi_note_number_is_66() {
    assert_eq!(note_name_from_midi_note_number(66), "F#/Gb3");
}

#[test]
fn midi_return_note_g8_when_midi_note_number_is_127() {
    assert_eq!(note_name_from_midi_note_number(127), "G8");
}
