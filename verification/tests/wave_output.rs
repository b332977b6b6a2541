use chunkdump::chunks::smpl::{SampleLoop, SmplMetadata};
use chunkdump::chunks::sndm::SndmMetadata;
use chunkdump::shared::extra::ExtraChunks;
use chunkdump::shared::text::TextFields;
use chunkdump::wave::acid::AcidFields;
use chunkdump::wave::chunk::Chunk;
use chunkdump::wave::cue::{CueFields, CuePoint};
use chunkdump::wave::fact::FactFields;
use chunkdump::wave::id3::{ID3Fields, ID3Tag};
use chunkdump::wave::junk::JunkFields;
use chunkdump::wave::list::{AssociatedData, InfoData, LabelData, ListFields, NoteData};
use chunkdump::wave::resu::ResuFields;
use chunkdump::wave::umid::UMIDFields;

const RULE: &str = "\n-------------\n";

#[test]
fn renders_the_samples_per_channel_of_a_fact_chunk() {
    let fact = FactFields { samples_per_channel: 42 };
    let text = fact.get_metadata_output().unwrap();
    assert_eq!(text, format!("{RULE}Fact Chunk Details:{RULE}Samples per Channel: 42"));
}

#[test]
fn renders_a_text_chunk_under_its_title() {
    let text = TextFields { body: "some words".to_string() };
    assert_eq!(text.format_data_for_output("Junk").unwrap(), format!("{RULE}Junk:{RULE}some words"));
}

#[test]
fn renders_an_empty_junk_chunk_as_nothing() {
    let junk = JunkFields { junk_as_string: String::new() };
    assert_eq!(junk.get_metadata_output().unwrap(), "");
    let junk = JunkFields { junk_as_string: "x".to_string() };
    assert_eq!(junk.get_metadata_output().unwrap(), format!("{RULE}Junk Chunk Details:{RULE}x"));
}

#[test]
fn renders_umid_bytes_in_hexadecimal() {
    let umid = UMIDFields { umid_bytes: vec![0x06, 0x0a, 0x2b] };
    assert_eq!(umid.format_data_for_output().unwrap(), format!("{RULE}UMID Chunk Details:{RULE}UMID: 06 0a 2b"));
}

#[test]
fn renders_the_json_of_a_resu_chunk() {
    let resu = ResuFields { resu_json: "{\"a\":1}".to_string() };
    assert_eq!(
        resu.format_data_for_output().unwrap(),
        format!("{RULE}Logic Pro (ResU) Chunk Details:{RULE}{{\"a\":1}}")
    );
}

#[test]
fn renders_a_line_for_each_cue_point() {
    let cue = CueFields {
        number_of_cue_points: 1,
        cue_points: vec![CuePoint {
            id: 1,
            position: 88200,
            data_chunk_id: "data".to_string(),
            chunk_start: 0,
            block_start: 0,
            sample_start: 88200,
        }],
    };
    assert_eq!(
        cue.format_data_for_output().unwrap(),
        format!(
            "{RULE}Cue Chunk Details:{RULE}Number of Cue Points: 1\nCue Point 1: position 88200, data chunk data, chunk start 0, block start 0, sample start 88200"
        )
    );
}

#[test]
fn renders_a_line_for_each_id3_frame() {
    let id3 = ID3Fields {
        tags: vec![
            ID3Tag { id: "Title".to_string(), content: "Song".to_string() },
            ID3Tag { id: "Time".to_string(), content: "12:34".to_string() },
        ],
    };
    assert_eq!(
        id3.format_data_for_output().unwrap(),
        format!("{RULE}ID3 Tags:{RULE}Title: Song\nTime: 12:34")
    );
}

#[test]
fn renders_no_extra_chunks_as_nothing() {
    let extra = ExtraChunks::new();
    assert_eq!(extra.format_data_for_output().unwrap(), "");
}

#[test]
fn renders_the_information_and_associated_data_of_a_list_chunk() {
    let list = ListFields {
        info_data: vec![InfoData { id: "INAM".to_string(), data: "Name".to_string() }],
        adtl_data: vec![AssociatedData {
            labels: vec![LabelData { cue_point_id: 1, data: "Verse".to_string() }],
            notes: vec![NoteData { cue_point_id: 2, data: "Loud".to_string() }],
            labeled_texts: vec![],
        }],
    };
    assert_eq!(
        list.get_metadata_output().unwrap(),
        format!(
            "{RULE}List (INFO) Chunk Details:{RULE}INAM: Name{RULE}List (adtl) Chunk Details:{RULE}Label 1: Verse\nNote 2: Loud"
        )
    );
}

#[test]
fn renders_the_genre_author_and_album_of_a_sndm_chunk() {
    let sndm = SndmMetadata { genre: "Rock".to_string(), author: "Me".to_string(), album: "One".to_string() };
    assert_eq!(
        sndm.format_data_for_output().unwrap(),
        format!("{RULE}Sound Designer (SNDM) Chunk Details:{RULE}Genre: Rock\nAuthor: Me\nAlbum: One")
    );
}

#[test]
fn renders_a_sampler_chunk_with_its_loops() {
    let smpl = SmplMetadata {
        manufacturer: "2AH".to_string(),
        product: 1,
        sample_period: 22675,
        midi_unity_note_number: 60,
        midi_unity_note: Some("C3".to_string()),
        midi_pitch_fraction: 0,
        smpte_format: 0,
        smpte_offset: "0h:0m:0s & 0 samples".to_string(),
        number_of_sample_loops: 1,
        sample_data_size_in_bytes: 0,
        sample_loops: vec![SampleLoop {
            cue_point_id: 1,
            loop_type: 0,
            start_point: 10,
            end_point: 20,
            fraction: 0,
            number_of_time_to_play_the_loop: 0,
        }],
    };
    let text = smpl.format_data_for_output().unwrap();
    assert!(text.starts_with(&format!("{RULE}Sample (smpl) Chunk Details:{RULE}Manufacturer: 2AH\nProduct: 1\n")));
    assert!(text.contains("MIDI Unity Note: C3\n"));
    assert!(text.ends_with("Sampler Data: 0 bytes\nLoop 1: type 0, start 10, end 20, fraction 0, play count 0"));
}

#[test]
fn renders_acid_details_with_the_floats_as_given() {
    let acid = AcidFields::new(vec![1, 0, 0, 0, 60, 0, 0, 0, 0, 0, 0, 0, 4, 0, 0, 0, 4, 0, 4, 0, 0, 0, 240, 66]).unwrap();
    let text = acid.format_data_for_output("0", "120").unwrap();
    assert!(text.starts_with(&format!("{RULE}ACID Chunk Details:{RULE}")));
    assert!(text.contains("Number of Beats: 4\n"));
    assert!(text.contains("Meter: 4/4\n"));
    assert!(text.ends_with("Tempo: 120"));
}

#[test]
fn renders_found_chunks_in_order_then_the_extra_chunks() {
    let mut chunk = Chunk::new();
    chunk.add_chunk("fact".to_string(), vec![42, 0, 0, 0]).unwrap();
    chunk.add_chunk("data".to_string(), vec![1, 2, 3, 4]).unwrap();
    chunk.add_chunk("abcd".to_string(), b"hello".to_vec()).unwrap();
    let report = chunk.format_data_for_output("0", "0").unwrap();
    assert_eq!(
        report,
        vec![
            format!("{RULE}Fact Chunk Details:{RULE}Samples per Channel: 42"),
            format!("{RULE}Extra Chunks:{RULE}abcd: hello"),
        ]
    );
}

#[test]
fn renders_no_chunks_as_an_empty_report() {
    let chunk = Chunk::new();
    assert_eq!(chunk.format_data_for_output("0", "0").unwrap(), Vec::<String>::new());
}
