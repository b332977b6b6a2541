use chunkdump::chunks::id3::get_metadata as get_id3_metadata;
use chunkdump::chunks::resu::get_metadata as get_resu_metadata;
use chunkdump::errors::LocalError;
use chunkdump::wave::bext::read_bext_chunk;
use chunkdump::wave::chunk::{get_chunk_kind, Chunk, ChunkFollowUp, ChunkKind};
use chunkdump::wave::extra::ExtraChunks;
use chunkdump::wave::id3::ID3Fields;
use chunkdump::wave::resu::ResuFields;

fn fmt_bytes() -> Vec<u8> {
    let mut data = Vec::new();
    data.extend_from_slice(&1u16.to_le_bytes());
    data.extend_from_slice(&2u16.to_le_bytes());
    data.extend_from_slice(&48000u32.to_le_bytes());
    data.extend_from_slice(&192000u32.to_le_bytes());
    data.extend_from_slice(&4u16.to_le_bytes());
    data.extend_from_slice(&16u16.to_le_bytes());
    data
}

#[test]
fn chunk_ids_select_their_decoders() {
    assert_eq!(get_chunk_kind(&"fmt ".to_string()), ChunkKind::Format);
    assert_eq!(get_chunk_kind(&"_pmx".to_string()), ChunkKind::Xmp);
    assert_eq!(get_chunk_kind(&"regn".to_string()), ChunkKind::Ignored);
    assert_eq!(get_chunk_kind(&"zzzz".to_string()), ChunkKind::Extra);
}

#[test]
fn registry_notes_found_and_skipped_ids() {
    let mut chunk = Chunk::new();
    assert_eq!(chunk.add_chunk("fmt ".to_string(), fmt_bytes()), Ok(ChunkFollowUp::Nothing));
    assert_eq!(chunk.add_chunk("data".to_string(), vec![1, 2, 3, 4]), Ok(ChunkFollowUp::Nothing));
    assert_eq!(chunk.add_chunk("zzzz".to_string(), b"hi".to_vec()), Ok(ChunkFollowUp::Nothing));
    assert_eq!(chunk.add_chunk("zzzz".to_string(), vec![]), Ok(ChunkFollowUp::Nothing));
    assert_eq!(chunk.add_chunk("id3 ".to_string(), vec![]), Ok(ChunkFollowUp::ReadId3Tags));
    assert_eq!(chunk.add_chunk("data".to_string(), vec![]), Ok(ChunkFollowUp::Nothing));
    assert_eq!(chunk.found_chunk_ids, vec!["fmt ".to_string(), "zzzz".to_string(), "id3 ".to_string()]);
    assert_eq!(chunk.skipped_chunk_ids, vec!["data".to_string(), "data".to_string()]);
    assert_eq!(chunk.format_data.as_ref().unwrap().samples_per_second, 48000);
    assert_eq!(chunk.extra_chunks.chunks.len(), 2);
    assert_eq!(chunk.extra_chunks.chunks[0].data, "hi");
    assert_eq!(chunk.extra_chunks.chunks[1].data, "[The chunk exists but is empty]");
    chunk.set_id3_data(ID3Fields::new(vec![("Title".to_string(), "Song".to_string())]));
    assert_eq!(chunk.id3_data.unwrap().tags[0].content, "Song");
}

#[test]
fn refused_chunk_leaves_the_registry_as_it_was() {
    let mut chunk = Chunk::new();
    let before = chunk.clone();
    assert_eq!(
        chunk.add_chunk("fact".to_string(), vec![1, 2]),
        Err(LocalError::InsufficientBytesToTake(4, 2))
    );
    assert_eq!(chunk, before);
}

#[test]
fn id3_frames_are_padded_and_times_get_a_colon() {
    let tags = get_id3_metadata(vec![
        ("Title".to_string(), "Song".to_string()),
        ("Time".to_string(), "1230".to_string()),
    ])
    .unwrap();
    assert_eq!(tags[0].id, "Title");
    assert_eq!(tags[0].spacer, "");
    assert_eq!(tags[1].spacer, " ");
    assert_eq!(tags[1].content, "12:30");
    assert_eq!(get_id3_metadata(vec![]), Err(LocalError::ErrorParsingID3TagIDs));
    let fields = ID3Fields::new(vec![("Time".to_string(), "0905".to_string())]);
    assert_eq!(fields.tags[0].content, "09:05");
}

#[test]
fn resu_chunks_are_inflated() {
    let compressed: Vec<u8> = vec![
        0x78, 0x9c, 0xab, 0x56, 0x4a, 0x54, 0xb2, 0x32, 0xac, 0x05, 0x00, 0x08, 0x2a, 0x02, 0x09,
    ];
    let json = get_resu_metadata(compressed.clone());
    assert_eq!(json, Ok("{\"a\":1}".to_string()));
    assert_eq!(ResuFields::new(compressed).unwrap().resu_json, "{\"a\":1}");
    assert!(matches!(
        get_resu_metadata(vec![1, 2, 3]),
        Err(LocalError::InvalidZipDataFound(_))
    ));
}

#[test]
fn bext_fields_are_read_in_order() {
    let mut data = vec![b'D'; 256];
    data.extend(vec![b'O'; 32]);
    data.extend(vec![0u8; 32]);
    data.extend(b"2024-01-01".to_vec());
    data.extend(b"12:00:00".to_vec());
    data.extend_from_slice(&7u32.to_le_bytes());
    data.extend_from_slice(&1u32.to_le_bytes());
    data.extend_from_slice(&2u16.to_le_bytes());
    data.extend(vec![9u8; 64]);
    for value in [1u16, 2, 3, 4, 5] {
        data.extend_from_slice(&value.to_le_bytes());
    }
    data.extend(vec![0u8; 180]);
    data.extend(b"A=PCM".to_vec());
    let bext = read_bext_chunk(data).unwrap();
    assert_eq!(bext.description.len(), 256);
    assert_eq!(bext.originator_reference, "");
    assert_eq!(bext.originator_date, "2024-01-01");
    assert_eq!(bext.originator_time, "12:00:00");
    assert_eq!(bext.time_reference_low, 7);
    assert_eq!(bext.time_reference_high, 1);
    assert_eq!(bext.version, 2);
    assert_eq!(bext.umid, vec![9u8; 64]);
    assert_eq!(bext.loudness_value, 1);
    assert_eq!(bext.max_short_term_loudness, 5);
    assert_eq!(bext.coding_history, "A=PCM");
}

#[test]
fn wave_extra_chunks_keep_their_text() {
    let mut extra = ExtraChunks::new();
    extra.add_chunk("abcd".to_string(), vec![b'h', 0xFF, b'i']);
    assert_eq!(extra.chunks[0].id, "abcd");
    assert_eq!(extra.chunks[0].data, "h\u{FFFD}i");
}
