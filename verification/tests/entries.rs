use chunkdump::chunks::dispatch::{
    chunk_entry, chunk_float_fields, get_entry_kind, is_mandatory_chunk, ChunkEntry, EntryKind, FloatField,
};
use chunkdump::chunks::fact::fact_entry;
use chunkdump::chunks::id3::id3_entry;
use chunkdump::chunks::list::parse_adtl_data;
use chunkdump::chunks::text::text_entry;
use chunkdump::errors::LocalError;
use chunkdump::file_types::m4a::{m4a_header_entry, m4a_userdata_entry};
use chunkdump::file_types::midi::get_midi_entries;
use chunkdump::file_types::mp3::mp3_entry;
use chunkdump::fileio::get_file_metadata;
use chunkdump::flac::{flac_entry, FlacStreamInfo};
use chunkdump::output::Section;
use chunkdump::strings::ascii_lowercase;

const RULE: &str = "\n-------------\n";

fn entry(result: Result<ChunkEntry, LocalError>) -> chunkdump::output::OutputEntry {
    match result.unwrap() {
        ChunkEntry::Entry(e) => e,
        ChunkEntry::ReadId3Tags => panic!("expected an entry"),
    }
}

#[test]
fn fact_chunk_bytes_give_a_mandatory_entry() {
    let e = fact_entry(vec![42, 0, 0, 0]).unwrap();
    assert_eq!(e.section, Section::Mandatory);
    assert_eq!(e.text, format!("{RULE}Fact Chunk Details:{RULE}Samples per Channel: 42"));
}

#[test]
fn a_short_fact_chunk_is_refused() {
    assert_eq!(fact_entry(vec![42, 0]).unwrap_err(), LocalError::InsufficientBytesToTake(4, 2));
}

#[test]
fn an_empty_chunk_gives_its_id_under_empty() {
    let e = entry(chunk_entry("LIST".to_string(), vec![], &vec![]));
    assert_eq!(e.section, Section::Empty);
    assert_eq!(e.text, "LIST");
}

#[test]
fn audio_data_is_skipped_whatever_its_case() {
    let e = entry(chunk_entry("DATA".to_string(), vec![1, 2], &vec![]));
    assert_eq!(e.section, Section::Skipped);
    assert_eq!(e.text, "DATA");
}

#[test]
fn an_unknown_chunk_is_unsupported() {
    let e = entry(chunk_entry("abcd".to_string(), b"hello".to_vec(), &vec![]));
    assert_eq!(e.section, Section::Unsupported);
    assert_eq!(e.text, format!("{RULE}abcd Chunk:{RULE}hello"));
}

#[test]
fn chunk_ids_select_their_decoder_in_any_case() {
    let e = entry(chunk_entry("FACT".to_string(), vec![7, 0, 0, 0], &vec![]));
    assert_eq!(e.section, Section::Mandatory);
    assert_eq!(get_entry_kind(&"Comm".to_string()), EntryKind::Comm);
    assert_eq!(get_entry_kind(&"id3 ".to_string()), EntryKind::Id3);
    assert_eq!(ascii_lowercase("ID3 (c) Ab"), "id3 (c) ab");
}

#[test]
fn an_id3_chunk_asks_for_the_tag() {
    assert_eq!(chunk_entry("ID3 ".to_string(), vec![1], &vec![]).unwrap(), ChunkEntry::ReadId3Tags);
}

#[test]
fn only_format_fact_and_common_chunks_are_mandatory() {
    assert!(is_mandatory_chunk(&"fmt ".to_string()));
    assert!(is_mandatory_chunk(&"COMM".to_string()));
    assert!(!is_mandatory_chunk(&"LIST".to_string()));
}

#[test]
fn acid_and_common_chunks_name_their_float_fields() {
    let acid: Vec<u8> = (0..24).collect();
    assert_eq!(
        chunk_float_fields(&"acid".to_string(), &acid),
        vec![
            FloatField::LittleEndianSingle(vec![8, 9, 10, 11]),
            FloatField::LittleEndianSingle(vec![20, 21, 22, 23]),
        ]
    );
    let comm: Vec<u8> = (0..18).collect();
    assert_eq!(
        chunk_float_fields(&"COMM".to_string(), &comm),
        vec![FloatField::BigEndianExtended((8..18).collect())]
    );
    assert_eq!(chunk_float_fields(&"fact".to_string(), &acid), vec![]);
}

#[test]
fn acid_entry_shows_the_float_texts_given() {
    let data = vec![1, 0, 0, 0, 60, 0, 0, 0, 0, 0, 0, 0, 4, 0, 0, 0, 4, 0, 4, 0, 0, 0, 240, 66];
    let e = entry(chunk_entry("acid".to_string(), data, &vec!["0".to_string(), "120".to_string()]));
    assert_eq!(e.section, Section::Optional);
    assert!(e.text.ends_with("Tempo: 120"));
}

#[test]
fn text_chunks_are_titled_or_empty() {
    let e = text_entry("Name", b"  Song  ".to_vec()).unwrap();
    assert_eq!(e.section, Section::Optional);
    assert_eq!(e.text, format!("{RULE}Name:{RULE}Song"));
    let e = text_entry("Name", b"   ".to_vec()).unwrap();
    assert_eq!(e.section, Section::Empty);
    assert_eq!(e.text, "Name");
}

#[test]
fn id3_frames_give_an_optional_entry() {
    let e = id3_entry(vec![("Title".to_string(), "Song".to_string()), ("Time".to_string(), "1234".to_string())]).unwrap();
    assert_eq!(e.section, Section::Optional);
    assert_eq!(e.text, format!("{RULE}ID3 Tags:{RULE}Title: Song\nTime : 12:34"));
    assert_eq!(id3_entry(vec![]).unwrap_err(), LocalError::ErrorParsingID3TagIDs);
}

#[test]
fn midi_data_gives_a_header_and_an_events_entry() {
    let mut data = b"MThd".to_vec();
    data.extend([0, 0, 0, 6, 0, 0, 0, 1, 0, 0x60]);
    data.extend(b"MTrk");
    data.extend([0, 0, 0, 10, 0, 0xFF, 0x03, 2, b'H', b'i', 0, 0xFF, 0x2F, 0]);
    let entries = get_midi_entries(&mut data).unwrap();
    assert_eq!(entries.len(), 2);
    assert_eq!(entries[0].section, Section::Mandatory);
    assert!(entries[0].text.contains("Number of Tracks: 1\nPPQN: 96"));
    assert_eq!(entries[1].section, Section::Optional);
    assert!(entries[1].text.contains("Track 1 | 0 | "));
    assert!(entries[1].text.contains("Hi"));
}

#[test]
fn mp3_header_bytes_give_a_mandatory_entry() {
    let e = mp3_entry(&[0xFF, 0xFB, 0x90, 0x64]).unwrap();
    assert_eq!(e.section, Section::Mandatory);
    assert!(e.text.contains("Bitrate: 128 kbps\nSample Rate: 44.1 kHz"));
    assert_eq!(mp3_entry(&[0xFF, 0xFB, 0xF0, 0x64]).unwrap_err(), LocalError::MP3BitrateIndexOverflow(15));
}

#[test]
fn m4a_header_values_give_a_mandatory_entry() {
    let e = m4a_header_entry(Some(2), Some(256000), None, 125, Some(44100)).unwrap();
    assert_eq!(e.section, Section::Mandatory);
    assert!(e.text.contains("Channels: 2\nAverage Bitrate: 256 kbps\nMaximum Bitrate: 0 kbps\nDuration: 2:05\nSample Rate: 44.1 kHz"));
}

#[test]
fn m4a_user_data_splits_itunes_items() {
    let items = vec![
        ("©nam".to_string(), " Song ".to_string()),
        ("----:com.apple.iTunes:MOOD".to_string(), "Calm".to_string()),
    ];
    let e = m4a_userdata_entry(&items).unwrap();
    assert_eq!(e.section, Section::Optional);
    assert_eq!(e.text, format!("{RULE}User Data:{RULE}©nam: Song{RULE}iTunes Tags:{RULE}MOOD: Calm"));
}

#[test]
fn flac_stream_details_give_a_mandatory_entry() {
    let info = FlacStreamInfo {
        min_block_size: 4096,
        max_block_size: 4096,
        min_frame_size: None,
        max_frame_size: Some(14),
        sample_rate: 44100,
        channels: 2,
        bits_per_sample: 16,
        samples: Some(441000),
        md5sum: [0; 16],
    };
    let e = flac_entry(&info, "ref", vec![("TITLE".to_string(), "Song".to_string())]).unwrap();
    assert_eq!(e.section, Section::Mandatory);
    assert!(e.text.contains("Min Frame Size: 0\nMax Frame Size: 14\nSample Rate: 44.1 kHz"));
    assert!(e.text.ends_with("Vendor: ref\nTITLE: Song"));
}

#[test]
fn file_details_give_a_header_entry() {
    let e = get_file_metadata("/music/song.wav", "/music/song.wav".to_string(), 1024).unwrap();
    assert_eq!(e.section, Section::Header);
    assert!(e.text.starts_with(&format!("{RULE}File Details:{RULE}File Name: song.wav\nFile Path: /music/song.wav\nFile Size: ")));
    assert_eq!(get_file_metadata("", String::new(), 0).unwrap_err(), LocalError::InvalidFileName);
}

#[test]
fn associated_data_is_read_to_its_end() {
    let mut data = b"labl".to_vec();
    data.extend([6, 0, 0, 0, 1, 0, 0, 0, b'A', 0]);
    let items = parse_adtl_data(&mut data).unwrap();
    assert_eq!(items.len(), 1);
    assert!(data.is_empty());
    let mut bad = b"zzzz".to_vec();
    assert_eq!(parse_adtl_data(&mut bad).unwrap_err(), LocalError::InvalidADTLTypeID("zzzz".to_string()));
}
