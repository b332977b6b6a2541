use chunkdump::file_types::m4a::{
    format_duration, format_sample_rate, get_m4a_userdata_tags, get_mandatory_m4a_chunk_metdata,
};

#[test]
fn return_single_digit_decimal_khz_when_sample_rate_is_44100hz() {
    let test_sample_rate = 44100;
    let correct_result = "44.1";
    let result = format_sample_rate(test_sample_rate);
    assert_eq!(result, correct_result);
}

#[test]
fn return_whole_number_khz_when_sample_rate_is_48000hz() {
    let test_sample_rate = 48000;
    let correct_result = "48";
    let result = format_sample_rate(test_sample_rate);
    assert_eq!(result, correct_result);
}

fn float_formatted(sample_rate: u32) -> String {
    let sample_rate_in_khz = f64::from(sample_rate) / 1000.0;
    if sample_rate_in_khz == sample_rate_in_khz.floor() {
        format!("{:#.0}", sample_rate_in_khz)
    } else {
        format!("{:#.1}", sample_rate_in_khz)
    }
}

#[test]
fn sample_rates_print_as_their_floats_do() {
    for rate in 0..300_000u32 {
        assert_eq!(format_sample_rate(rate), float_formatted(rate), "rate {}", rate);
    }
    for rate in [22050u32, 11025, 4_294_967_295, 4_294_967_250, 1_000_050, 99_950] {
        assert_eq!(format_sample_rate(rate), float_formatted(rate), "rate {}", rate);
    }
}

#[test]
fn duration_has_two_digit_seconds() {
    assert_eq!(format_duration(0), "0:00");
    assert_eq!(format_duration(65), "1:05");
    assert_eq!(format_duration(3600), "60:00");
}

#[test]
fn header_values_default_to_zero() {
    let header = get_mandatory_m4a_chunk_metdata(None, Some(256_999), None, 125);
    assert_eq!(header.channel_count, 0);
    assert_eq!(header.avg_bitrate, 256);
    assert_eq!(header.max_bitrate, 0);
    assert_eq!(header.duration, "2:05");
}

#[test]
fn userdata_items_are_sorted_by_kind() {
    let items = vec![
        ("©nam".to_string(), "  Title \n".to_string()),
        ("----:com.apple.iTunes:ENCODER".to_string(), "x".to_string()),
        ("©ART".to_string(), "Artist".to_string()),
        ("----:a:b:c".to_string(), "y".to_string()),
    ];
    let (plain, itunes) = get_m4a_userdata_tags(&items);
    assert_eq!(plain.len(), 2);
    assert_eq!(plain[0].key, "©nam");
    assert_eq!(plain[0].value, "Title");
    assert_eq!(plain[1].key, "©ART");
    assert_eq!(itunes.len(), 2);
    assert_eq!(itunes[0].key, "ENCODER");
    assert_eq!(itunes[0].value, "x");
    assert_eq!(itunes[1].key, "b");
}
