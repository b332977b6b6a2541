use chunkdump::chunks::acid::{check_bit_mask_position, get_file_type_from_file_type_integer, FileType};
use chunkdump::chunks::bext::{get_coding_history_from_bytes, get_umid_from_bytes};
use chunkdump::chunks::cart::get_formated_version_from_version_string;
use chunkdump::chunks::smpl::{format_manufacturer_id, get_metadata as get_smpl_metadata, SampleLoop};
use chunkdump::errors::LocalError;

#[test]
fn return_correct_file_type_struct_is_returned_from_file_type_integers_when_no_bits_are_set() {
    let correct_result = FileType {
        one_shot: false,
        root_note: false,
        stretch: false,
        disk_based: false,
        acidizer: false,
    };
    let result = get_file_type_from_file_type_integer(0);
    assert_eq!(result, correct_result);
}

#[test]
fn return_correct_file_type_struct_is_returned_from_file_type_integers_when_all_bits_are_set() {
    let correct_result = FileType {
        one_shot: true,
        root_note: true,
        stretch: true,
        disk_based: true,
        acidizer: true,
    };
    let result = get_file_type_from_file_type_integer(31);
    assert_eq!(result, correct_result);
}

#[test]
fn return_true_when_a_specific_bit_position_is_set() {
    let test_position: u8 = 3;
    let bit_position_3_set_integer: u32 = 8;
    assert!(check_bit_mask_position(bit_position_3_set_integer, test_position));
}

#[test]
fn return_false_when_a_specific_bit_position_is_not_set() {
    let test_position: u8 = 3;
    let no_bit_positions_set_integer: u32 = 0;
    assert!(!check_bit_mask_position(no_bit_positions_set_integer, test_position));
}

#[test]
fn file_type_flags_follow_their_bits() {
    let flags = get_file_type_from_file_type_integer(0b10101);
    assert_eq!(
        flags,
        FileType { one_shot: true, root_note: false, stretch: true, disk_based: false, acidizer: true }
    );
    assert!(check_bit_mask_position(0x8000_0000, 31));
}

#[test]
fn correct_umid_struct_from_bytes() {
    let mut input_byte_vector: Vec<u8> = (1..=64).collect();
    let result = get_umid_from_bytes(&mut input_byte_vector).unwrap();
    assert_eq!(result.universal_label, vec![1, 2, 3, 4, 5, 6, 7, 8, 9, 10, 11, 12]);
    assert_eq!(result.length, vec![13]);
    assert_eq!(result.instance_number, vec![14, 15, 16]);
    assert_eq!(
        result.material_number,
        vec![17, 18, 19, 20, 21, 22, 23, 24, 25, 26, 27, 28, 29, 30, 31, 32]
    );
    assert_eq!(result.time_and_date, vec![33, 34, 35, 36, 37, 38, 39, 40]);
    assert_eq!(result.spatial_coordinates, vec![41, 42, 43, 44, 45, 46, 47, 48, 49, 50, 51, 52]);
    assert_eq!(result.country, vec![53, 54, 55, 56]);
    assert_eq!(result.organization, vec![57, 58, 59, 60]);
    assert_eq!(result.user, vec![61, 62, 63, 64]);
    assert!(input_byte_vector.is_empty());
}

#[test]
fn short_umid_is_refused() {
    let mut input_byte_vector: Vec<u8> = (1..=20).collect();
    let result = get_umid_from_bytes(&mut input_byte_vector);
    assert_eq!(result, Err(LocalError::InsufficientBytesToTake(16, 4)));
}

#[test]
fn return_correct_coding_history_from_valid_bytes() {
    let input_byte_vector: Vec<u8> = vec![84, 104, 105, 115, 32, 105, 115, 32, 97, 32, 84, 101, 115, 116];
    let correct_result_string: String = "This is a Test".to_string();
    let result = get_coding_history_from_bytes(input_byte_vector).unwrap();
    assert_eq!(result, correct_result_string);
}

#[test]
fn return_empty_coding_history_from_empty_bytes_collection() {
    let input_byte_vector: Vec<u8> = vec![];
    let correct_result_string: String = "".to_string();
    let result = get_coding_history_from_bytes(input_byte_vector).unwrap();
    assert_eq!(result, correct_result_string);
}

#[test]
fn correctly_formats_the_version_string_when_passed_a_four_digit_version() {
    let test_version = "0234".to_string();
    let expected_result = "2.34".to_string();
    let result = get_formated_version_from_version_string(test_version);
    assert_eq!(result, expected_result);
}

#[test]
fn returns_the_passed_version_unaltered_if_it_is_less_than_3_digits() {
    let test_version = "34".to_string();
    let expected_result = "34".to_string();
    let result = get_formated_version_from_version_string(test_version);
    assert_eq!(result, expected_result);
}

#[test]
fn version_with_leading_zeros_loses_them_all() {
    assert_eq!(get_formated_version_from_version_string("0012".to_string()), ".12");
    assert_eq!(get_formated_version_from_version_string("101".to_string()), "10.1");
}

#[test]
fn return_1_byte_manufacturer_id_when_first_byte_is_1() {
    let test_manufacturer_id_bytes = vec![0x01, 0x2A, 0x03, 0x04];
    let correct_id = "2AH";
    let id = format_manufacturer_id(test_manufacturer_id_bytes).unwrap();
    assert_eq!(id, correct_id);
}

#[test]
fn return_3_byte_manufacturer_id_when_first_byte_is_3() {
    let test_manufacturer_id_bytes = vec![0x03, 0x2A, 0x03, 0x04, 0x05];
    let correct_id = "2AH 03H 04H";
    let id = format_manufacturer_id(test_manufacturer_id_bytes).unwrap();
    assert_eq!(id, correct_id);
}

#[test]
fn manufacturer_id_of_no_bytes_is_an_error() {
    assert_eq!(format_manufacturer_id(vec![]), Err(LocalError::InsufficientBytesToTake(1, 0)));
    assert_eq!(format_manufacturer_id(vec![0x00, 0x11]).unwrap(), "");
}

fn le(value: u32) -> [u8; 4] {
    value.to_le_bytes()
}

#[test]
fn sampler_chunk_with_one_loop() {
    let mut data = vec![0x01, 0x47, 0x00, 0x00];
    for value in [7u32, 22675, 60, 0, 25] {
        data.extend_from_slice(&le(value));
    }
    data.extend_from_slice(&[1, 2, 3, 4]);
    data.extend_from_slice(&le(1));
    data.extend_from_slice(&le(0));
    for value in [1u32, 0, 100, 200, 0, 0] {
        data.extend_from_slice(&le(value));
    }
    let smpl = get_smpl_metadata(data).unwrap();
    assert_eq!(smpl.manufacturer, "47H");
    assert_eq!(smpl.product, 7);
    assert_eq!(smpl.sample_period, 22675);
    assert_eq!(smpl.midi_unity_note_number, 60);
    assert_eq!(smpl.midi_unity_note, Some("C3".to_string()));
    assert_eq!(smpl.smpte_format, 25);
    assert_eq!(smpl.smpte_offset, "1h:2m:3s & 4 samples");
    assert_eq!(smpl.number_of_sample_loops, 1);
    assert_eq!(
        smpl.sample_loops,
        vec![SampleLoop {
            cue_point_id: 1,
            loop_type: 0,
            start_point: 100,
            end_point: 200,
            fraction: 0,
            number_of_time_to_play_the_loop: 0,
        }]
    );
}

#[test]
fn sampler_chunk_with_missing_loop_is_refused() {
    let mut data = vec![0x00, 0x00, 0x00, 0x00];
    for value in [0u32, 0, 0, 0, 0] {
        data.extend_from_slice(&le(value));
    }
    data.extend_from_slice(&[0, 0, 0, 0]);
    data.extend_from_slice(&le(2));
    data.extend_from_slice(&le(0));
    for value in [1u32, 0, 100, 200, 0, 0] {
        data.extend_from_slice(&le(value));
    }
    assert_eq!(get_smpl_metadata(data), Err(LocalError::InsufficientBytesToTake(4, 0)));
}

fn sndm_tag(id: &str, text: &str) -> Vec<u8> {
    let mut bytes = vec![0u8; 5];
    bytes.extend_from_slice(id.as_bytes());
    bytes.extend_from_slice(&(text.len() as u16).to_be_bytes());
    bytes.extend_from_slice(&[0, 0]);
    bytes.extend_from_slice(text.as_bytes());
    bytes
}

#[test]
fn sndm_tags_set_their_fields() {
    let mut data = sndm_tag("gen", "Rock");
    data.extend(sndm_tag("alb", "First"));
    data.extend(sndm_tag("gen", "Pop"));
    data.extend(sndm_tag("xyz", "ignored"));
    data.extend(sndm_tag("aut", "never read"));
    let sndm = chunkdump::chunks::sndm::get_metadata(data).unwrap();
    assert_eq!(sndm.genre, "Pop");
    assert_eq!(sndm.album, "First");
    assert_eq!(sndm.author, "");
}

#[test]
fn sndm_tag_cut_short_is_refused() {
    let mut data = sndm_tag("aut", "Someone");
    data.truncate(data.len() - 2);
    assert_eq!(
        chunkdump::chunks::sndm::get_metadata(data),
        Err(LocalError::InsufficientBytesToTake(7, 5))
    );
}
