use chunkdump::chunks::list::{get_metadata, parse_label_data, parse_note_data};
use chunkdump::errors::LocalError;
use chunkdump::wave::list::{read_label_data, ListFields};

fn info_item(id: &str, text: &[u8]) -> Vec<u8> {
    let mut bytes = id.as_bytes().to_vec();
    bytes.extend_from_slice(&(text.len() as u32).to_le_bytes());
    bytes.extend_from_slice(text);
    if text.len() % 2 == 1 {
        bytes.push(0);
    }
    bytes
}

fn cue_item(id: &str, cue: u32, text: &[u8]) -> Vec<u8> {
    let mut bytes = id.as_bytes().to_vec();
    bytes.extend_from_slice(&(text.len() as u32 + 4).to_le_bytes());
    bytes.extend_from_slice(&cue.to_le_bytes());
    bytes.extend_from_slice(text);
    bytes
}

#[test]
fn info_list_items_are_read_with_padding() {
    let mut data = b"INFO".to_vec();
    data.extend(info_item("INAM", b"Song\0"));
    data.extend(info_item("IART", b"Band"));
    let list = get_metadata(data).unwrap();
    assert_eq!(list.info_data.len(), 2);
    assert_eq!(list.info_data[0].id, "INAM");
    assert_eq!(list.info_data[0].data, "Song");
    assert_eq!(list.info_data[1].id, "IART");
    assert_eq!(list.info_data[1].data, "Band");
    assert!(list.adtl_data.is_empty());
}

#[test]
fn associated_data_list_items_are_read_in_order() {
    let mut data = b"adtl".to_vec();
    data.extend(cue_item("labl", 1, b"Intro\0"));
    data.extend(cue_item("note", 2, b"Loud"));
    let mut ltxt = b"ltxt".to_vec();
    ltxt.extend_from_slice(&3u32.to_le_bytes());
    ltxt.extend_from_slice(&500u32.to_le_bytes());
    ltxt.extend_from_slice(b"rgn 0144e1cp");
    ltxt.extend_from_slice(b"Region");
    data.extend(ltxt);
    let list = get_metadata(data).unwrap();
    assert_eq!(list.adtl_data.len(), 3);
    assert_eq!(list.adtl_data[0].labels[0].cue_point_id, 1);
    assert_eq!(list.adtl_data[0].labels[0].data, "Intro");
    assert!(list.adtl_data[0].notes.is_empty());
    assert_eq!(list.adtl_data[1].notes[0].cue_point_id, 2);
    assert_eq!(list.adtl_data[1].notes[0].data, "Loud");
    let text = &list.adtl_data[2].labeled_texts[0];
    assert_eq!(text.cue_point_id, 3);
    assert_eq!(text.sample_length, 500);
    assert_eq!(text.purpose_id, "rgn ");
    assert_eq!(text.country, "01");
    assert_eq!(text.language, "44");
    assert_eq!(text.dialect, "e1");
    assert_eq!(text.code_page, "cp");
    assert_eq!(text.data, "Region");
}

#[test]
fn unknown_sub_chunk_is_refused() {
    let mut data = b"adtl".to_vec();
    data.extend(cue_item("what", 1, b"x"));
    assert_eq!(get_metadata(data), Err(LocalError::InvalidADTLTypeID("what".to_string())));
}

#[test]
fn list_of_other_type_holds_nothing() {
    let list = get_metadata(b"JUNKabc".to_vec()).unwrap();
    assert!(list.info_data.is_empty() && list.adtl_data.is_empty());
}

#[test]
fn label_texts_are_padded_only_in_chunk_lists() {
    let mut padded = 3u32 + 4;
    let mut bytes = padded.to_le_bytes().to_vec();
    bytes.extend_from_slice(&9u32.to_le_bytes());
    bytes.extend_from_slice(b"abc\0rest");
    let mut copy = bytes.clone();
    let label = parse_label_data(&mut bytes).unwrap();
    assert_eq!(label.data, "abc");
    assert_eq!(bytes, b"rest".to_vec());
    let label = read_label_data(&mut copy).unwrap();
    assert_eq!(label.data, "abc");
    assert_eq!(copy, b"\0rest".to_vec());
    padded = 2;
    let mut short = padded.to_le_bytes().to_vec();
    assert_eq!(parse_note_data(&mut short), Err(LocalError::InsufficientBytesToTake(4, 2)));
}

#[test]
fn wave_list_of_other_type_is_refused() {
    assert_eq!(
        ListFields::new(b"JUNKabc".to_vec()),
        Err(LocalError::InvalidInfoTypeID("JUNK".to_string()))
    );
    let mut data = b"INFO".to_vec();
    data.extend(info_item("ICMT", b"ok"));
    let list = ListFields::new(data).unwrap();
    assert_eq!(list.info_data[0].data, "ok");
}
