use chunkdump::errors::LocalError;
use chunkdump::flac::{
    format_estimated_duration, format_md5_sum_from_bytes, get_longest_tag, get_vorbis_comment_tags,
};
use claxon::metadata::Tags;

#[test]
fn returns_the_correct_md5_format_from_passed_bytes() {
    let input_bytes: [u8; 16] = [0x1A; 16];
    let correct_md5_format = String::from("1a1a1a1a1a1a1a1a1a1a1a1a1a1a1a1a");
    let result = format_md5_sum_from_bytes(input_bytes);
    assert_eq!(correct_md5_format, result);
}

#[test]
fn md5_bytes_keep_their_order() {
    let mut input_bytes = [0u8; 16];
    for (i, byte) in input_bytes.iter_mut().enumerate() {
        *byte = i as u8 * 17;
    }
    assert_eq!(
        format_md5_sum_from_bytes(input_bytes),
        "00112233445566778899aabbccddeeff"
    );
}

#[test]
fn returns_the_correct_estimated_duration_format_from_correct_sample_data() {
    let total_sample = 15434143;
    let sample_rate = 44100;
    let correct_estimated_duration_format = String::from("5:49");
    let result = format_estimated_duration(total_sample, sample_rate);
    assert_eq!(correct_estimated_duration_format, result);
}

#[test]
fn returns_empty_duration_format_from_zero_total_samples() {
    let total_sample = 0;
    let sample_rate = 48000;
    let correct_estimated_duration_format = String::from("");
    let result = format_estimated_duration(total_sample, sample_rate);
    assert_eq!(correct_estimated_duration_format, result);
}

#[test]
fn returns_empty_duration_format_from_zero_sample_rate() {
    let total_sample = 15434143;
    let sample_rate = 0;
    let correct_estimated_duration_format = String::from("");
    let result = format_estimated_duration(total_sample, sample_rate);
    assert_eq!(correct_estimated_duration_format, result);
}

#[test]
fn returns_correct_duration_format_from_max_sample_values() {
    let total_sample = u64::MAX;
    let sample_rate = u32::MAX;
    let correct_estimated_duration_format = String::from("71582788:17");
    let result = format_estimated_duration(total_sample, sample_rate);
    assert_eq!(correct_estimated_duration_format, result);
}

#[test]
fn returns_correct_longest_flag_length_from_valid_tags() {
    let the_tags = [
        (String::from("abcsadal"), 2),
        (String::from("lajlmnop"), 3),
        (String::from("xyiausda"), 4),
    ];
    let tags: Tags = Tags::new(&the_tags);
    let tag_ids: Vec<String> = tags.map(|(id, _)| id.to_string()).collect();
    let longest_tag = get_longest_tag(&tag_ids).unwrap();
    assert_eq!(longest_tag, 4);
}

#[test]
fn longest_tag_of_no_tags_is_an_error() {
    assert_eq!(get_longest_tag(&vec![]), Err(LocalError::ErrorParsingVorbisTags));
}

#[test]
fn vorbis_tags_are_padded_to_the_longest_id() {
    let comments = vec![
        ("TITLE".to_string(), "Song".to_string()),
        ("ARTIST".to_string(), "Band".to_string()),
        ("GENRE".to_string(), "Rock".to_string()),
    ];
    let tags = get_vorbis_comment_tags(comments);
    assert_eq!(tags.len(), 3);
    assert_eq!(tags[0].id, "TITLE");
    assert_eq!(tags[0].spacer, " ");
    assert_eq!(tags[0].value, "Song");
    assert_eq!(tags[1].id, "ARTIST");
    assert_eq!(tags[1].spacer, "");
    assert_eq!(tags[2].spacer, " ");
    assert_eq!(tags[2].value, "Rock");
}
