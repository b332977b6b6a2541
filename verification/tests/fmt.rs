use chunkdump::chunks::fmt::{
    format_guid, format_speaker_position, get_format_name_from_format_id, get_metadata,
};
use chunkdump::wave::fmt::{format_guid as format_wave_guid, FmtFields};

fn basic_fields() -> Vec<u8> {
    let mut data = Vec::new();
    data.extend_from_slice(&1u16.to_le_bytes());
    data.extend_from_slice(&2u16.to_le_bytes());
    data.extend_from_slice(&44100u32.to_le_bytes());
    data.extend_from_slice(&176400u32.to_le_bytes());
    data.extend_from_slice(&4u16.to_le_bytes());
    data.extend_from_slice(&16u16.to_le_bytes());
    data
}

#[test]
fn format_names_of_known_and_unknown_codes() {
    assert_eq!(get_format_name_from_format_id(1), "PCM");
    assert_eq!(get_format_name_from_format_id(3), "IEEE float");
    assert_eq!(get_format_name_from_format_id(7), "8-bit ITU-T G.711 µ-law");
    assert_eq!(get_format_name_from_format_id(65279), "Determined by SubFormat");
    assert_eq!(get_format_name_from_format_id(85), "Unknown Format ID:  85");
}

#[test]
fn speaker_positions_are_listed_by_bit() {
    assert_eq!(format_speaker_position(0), "");
    assert_eq!(format_speaker_position(0b11), "\n - Front Left\n - Front Tight");
    assert_eq!(format_speaker_position(1 << 17), "\n - Top Back Tight");
    assert_eq!(format_speaker_position(1 << 18), "");
}

#[test]
fn guid_bytes_are_unpadded_hexadecimal() {
    assert_eq!(format_guid([0; 16]), "");
    let mut guid = [0u8; 16];
    guid[0] = 0x0A;
    guid[15] = 0xFF;
    assert_eq!(format_guid(guid), "A00000000000000FF");
    assert_eq!(format_wave_guid(vec![1, 2]), "N/A");
    assert_eq!(format_wave_guid(vec![0; 16]), "0000000000000000");
}

#[test]
fn plain_format_chunk_is_decoded() {
    let fmt = get_metadata(basic_fields()).unwrap();
    assert_eq!(fmt.format_code, "PCM");
    assert_eq!(fmt.number_of_channels, 2);
    assert_eq!(fmt.samples_per_second, 44100);
    assert_eq!(fmt.average_data_rate, 176400);
    assert_eq!(fmt.data_block_size, 4);
    assert_eq!(fmt.bits_per_sample, 16);
    assert_eq!(fmt.valid_bits_per_sample, 0);
    assert_eq!(fmt.speaker_position_mask, "");
    assert_eq!(fmt.subformat_guid, "");
}

#[test]
fn extensible_format_chunk_is_decoded() {
    let mut data = basic_fields();
    data.extend_from_slice(&22u16.to_le_bytes());
    data.extend_from_slice(&24u16.to_le_bytes());
    data.extend_from_slice(&4u32.to_le_bytes());
    data.extend_from_slice(&[1; 16]);
    let fmt = get_metadata(data).unwrap();
    assert_eq!(fmt.valid_bits_per_sample, 24);
    assert_eq!(fmt.speaker_position_mask, "\n - Front Center");
    assert_eq!(fmt.subformat_guid, "1111111111111111");
}

#[test]
fn short_format_chunk_is_refused() {
    assert!(get_metadata(vec![1, 0, 2]).is_err());
}

#[test]
fn wave_format_lines() {
    let mut data = basic_fields();
    data.extend_from_slice(&2u16.to_le_bytes());
    data.extend_from_slice(&20u16.to_le_bytes());
    data.extend_from_slice(&3u32.to_le_bytes());
    let fields = FmtFields::new(data).unwrap();
    assert_eq!(fields.subformat_guid, Vec::<u8>::new());
    let lines = fields.get_metadata_output();
    assert_eq!(
        lines,
        vec![
            "\n-------------\nFormat (fmt) Chunk Details:\n-------------".to_string(),
            "Format Code: PCM".to_string(),
            "Number of Channels: 2".to_string(),
            "Sample Rate:  44.1 kHz".to_string(),
            "Bit Depth: 16 bits".to_string(),
            "Average Data Rate: 176.4 kB/Second".to_string(),
            "Data Block Size: 4 bytes".to_string(),
            "Valid Bits per Sample: 20 bits".to_string(),
            "Speaker Position Mask: \n - Front Left\n - Front Tight".to_string(),
            "GUID: \"N/A\"".to_string(),
        ]
    );
}

#[test]
fn rates_print_as_thousandths_do_as_floats() {
    for rate in [0u32, 1, 10, 22050, 44100, 48000, 96000, 12345, 4_294_967_295] {
        let mut data = Vec::new();
        data.extend_from_slice(&1u16.to_le_bytes());
        data.extend_from_slice(&1u16.to_le_bytes());
        data.extend_from_slice(&rate.to_le_bytes());
        data.extend_from_slice(&rate.to_le_bytes());
        data.extend_from_slice(&[0; 4]);
        let lines = FmtFields::new(data).unwrap().get_metadata_output();
        let expected = format!("Sample Rate:  {} kHz", rate as f64 / 1000.0);
        assert_eq!(lines[3], expected);
    }
}
