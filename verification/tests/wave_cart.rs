use chunkdump::wave::cart::{get_formated_version_from_version_string, CartData};

fn field(text: &str, length: usize) -> Vec<u8> {
    let mut bytes = text.as_bytes().to_vec();
    bytes.resize(length, 0);
    bytes
}

fn cart_bytes(version: &str) -> Vec<u8> {
    let mut data = field(version, 4);
    data.extend(field("Title", 64));
    data.extend(field("Artist", 64));
    for _ in 0..11 {
        data.extend(field("", 64));
    }
    data.extend(field("Me", 64));
    data.extend_from_slice(&(-3i32).to_le_bytes());
    let mut timers = field("MRK ", 4);
    timers.extend_from_slice(&1200u32.to_le_bytes());
    timers.resize(64, 0);
    data.extend(timers);
    data.extend(field("", 64));
    data.extend(field("http://x", 64));
    data.extend(field("tag", 64));
    data
}

#[test]
fn old_version_format_always_takes_a_point() {
    assert_eq!(get_formated_version_from_version_string("0101".to_string()), "1.01");
    assert_eq!(get_formated_version_from_version_string("34".to_string()), "34.");
}

#[test]
fn cart_chunk_fields_and_lines() {
    let cart = CartData::new(cart_bytes("0101")).unwrap();
    assert_eq!(cart.title, "Title");
    assert_eq!(cart.artist, "Artist");
    assert_eq!(cart.user_def, "Me");
    assert_eq!(cart.dw_level_reference, -3);
    assert_eq!(cart.post_timer.len(), 1);
    assert_eq!(cart.post_timer[0].dw_usage, "MRK ");
    assert_eq!(cart.post_timer[0].dw_value, 1200);
    let lines = cart.get_metadata_output();
    assert_eq!(lines[0], "\n-------------\nCart Chunk Details:\n-------------");
    assert_eq!(lines[1], "Version: v1.01");
    assert_eq!(lines[2], "Title: Title");
    assert_eq!(lines[15], "User Defined: Me");
    assert_eq!(lines[16], "DW Level Reference: -3");
    assert_eq!(lines[17], "Post Timer:\n-------------");
    assert_eq!(lines[18], "MRK  - 1200");
    assert_eq!(lines[19], "URL: http://x");
    assert_eq!(lines[20], "Tag Text: tag");
    assert_eq!(lines.len(), 21);
}

#[test]
fn short_cart_chunk_is_refused() {
    let mut bytes = cart_bytes("0101");
    bytes.truncate(100);
    assert!(CartData::new(bytes).is_err());
}
