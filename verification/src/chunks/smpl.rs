use crate::byte_arrays::{
    take_field, take_first_byte_as_unsigned_integer, take_first_four_bytes_as_unsigned_integer,
    take_first_number_of_bytes, u32_field, Endian,
};
use crate::errors::LocalError;
use crate::formating::{
    format_midi_note_number_as_note_name, format_smpte_offset, note_name_text, smpte_offset_text,
};
use crate::strings::{hex_pair_upper, push_char, push_hex_pair_upper};
use crate::strings::{decimal_string, decimal_text, lines_view, push_decimal};
use crate::template::{get_file_chunk_output, join_on_own_lines, named, own_lines, rendered_as, upon_rendered_text, values_view};
use crate::template::{entry_of, into_entry};
use crate::output::{OutputEntry, Section};
use crate::byte_arrays::le32;
use vstd::prelude::*;

verus! {

/// Length of the manufacturer field of a `smpl` chunk.
pub const MANUFACTURER_ID_LENGTH_IN_BYTES: usize = 4;

/// Note numbers from this one on are named by floating-point arithmetic that
/// this library does not model; below it the name is exact.
pub const EXACT_NOTE_NAME_LIMIT: u32 = 16777216;

/// One loop of a sampler chunk.
#[derive(Debug, Clone, Copy, PartialEq, Eq, Structural)]
pub struct SampleLoop {
    pub cue_point_id: u32,
    pub loop_type: u32,
    pub start_point: u32,
    pub end_point: u32,
    pub fraction: u32,
    pub number_of_time_to_play_the_loop: u32,
}

/// The fields of a `smpl` (sampler) chunk.
#[derive(Debug, Clone, PartialEq)]
pub struct SmplMetadata {
    pub manufacturer: String,
    pub product: u32,
    pub sample_period: u32,
    pub midi_unity_note_number: u32,
    /// The note's name, `None` from `EXACT_NOTE_NAME_LIMIT` on.
    pub midi_unity_note: Option<String>,
    pub midi_pitch_fraction: u32,
    pub smpte_format: u32,
    pub smpte_offset: String,
    pub number_of_sample_loops: u32,
    pub sample_data_size_in_bytes: u32,
    pub sample_loops: Vec<SampleLoop>,
}

/// Bytes as upper-case hexadecimal pairs each followed by `H`, separated by
/// one space, e.g. `2AH 03H`.
pub open spec fn manufacturer_text(s: Seq<u8>) -> Seq<char>
    decreases s.len(),
{
    if s.len() == 0 {
        Seq::empty()
    } else if s.len() == 1 {
        hex_pair_upper(s[0]).push('H')
    } else {
        manufacturer_text(s.drop_last()) + seq![' '] + hex_pair_upper(s.last()).push('H')
    }
}

/// Whether a manufacturer field can be formatted: its first byte, the
/// length of the id, does not exceed the bytes that follow it.
pub open spec fn manufacturer_id_fits(s: Seq<u8>) -> bool {
    s.len() > 0 ==> s[0] < s.len()
}

/// The manufacturer id of a field: the bytes that its first byte counts.
pub open spec fn manufacturer_id(s: Seq<u8>) -> Result<Seq<char>, LocalError> {
    if s.len() == 0 {
        Err(LocalError::InsufficientBytesToTake(1, 0))
    } else {
        Ok(manufacturer_text(s.subrange(1, 1 + s[0] as int)))
    }
}

/// Formats a manufacturer field: a length byte, then that many id bytes, each
/// shown as hexadecimal with an `H`, e.g. `2AH 03H 04H`.
pub fn format_manufacturer_id(bytes: Vec<u8>) -> (result: Result<String, LocalError>)
    requires
        manufacturer_id_fits(bytes@),
    ensures
        match manufacturer_id(bytes@) {
            Ok(t) => result matches Ok(text) && text@ == t,
            Err(e) => result == Err::<String, LocalError>(e),
        },
{
    let ghost start = bytes@;
    let mut bytes = bytes;
    let id_length = match take_first_byte_as_unsigned_integer(&mut bytes, Endian::Little) {
        Ok(n) => n as usize,
        Err(e) => return Err(e),
    };
    let ghost ids = start.subrange(1, 1 + id_length as int);
    assert(bytes@ =~= start.skip(1));
    let mut text = String::new();
    let mut i: usize = 0;
    while i < id_length
        invariant
            i <= id_length,
            id_length <= bytes@.len(),
            ids == bytes@.take(id_length as int),
            text@ == manufacturer_text(ids.take(i as int)),
        decreases id_length - i,
    {
        assert(ids.take(i + 1).drop_last() =~= ids.take(i as int));
        if i > 0 {
            push_char(&mut text, ' ');
        }
        push_hex_pair_upper(&mut text, bytes[i]);
        push_char(&mut text, 'H');
        i = i + 1;
        assert(text@ =~= manufacturer_text(ids.take(i as int)));
    }
    assert(ids.take(id_length as int) =~= ids);
    Ok(text)
}

/// One sample loop: six little-endian 32-bit fields, followed by the rest.
pub open spec fn sample_loop_field(s: Seq<u8>) -> Result<(SampleLoop, Seq<u8>), LocalError> {
    match u32_field(s, Endian::Little) {
        Err(e) => Err(e),
        Ok((cue_point_id, s)) => match u32_field(s, Endian::Little) {
            Err(e) => Err(e),
            Ok((loop_type, s)) => match u32_field(s, Endian::Little) {
                Err(e) => Err(e),
                Ok((start_point, s)) => match u32_field(s, Endian::Little) {
                    Err(e) => Err(e),
                    Ok((end_point, s)) => match u32_field(s, Endian::Little) {
                        Err(e) => Err(e),
                        Ok((fraction, s)) => match u32_field(s, Endian::Little) {
                            Err(e) => Err(e),
                            Ok((plays, s)) => Ok(
                                (
                                    SampleLoop {
                                        cue_point_id,
                                        loop_type,
                                        start_point,
                                        end_point,
                                        fraction,
                                        number_of_time_to_play_the_loop: plays,
                                    },
                                    s,
                                ),
                            ),
                        },
                    },
                },
            },
        },
    }
}

/// The first `count` sample loops of `s` and the bytes after them, or the
/// error of the first field that is cut short.
pub open spec fn sample_loops_walk(s: Seq<u8>, count: nat) -> Result<
    (Seq<SampleLoop>, Seq<u8>),
    LocalError,
>
    decreases count,
{
    if count == 0 {
        Ok((Seq::empty(), s))
    } else {
        match sample_loops_walk(s, (count - 1) as nat) {
            Err(e) => Err(e),
            Ok((loops, rest)) => match sample_loop_field(rest) {
                Err(e) => Err(e),
                Ok((l, after)) => Ok((loops.push(l), after)),
            },
        }
    }
}

proof fn lemma_walk_error_stays(s: Seq<u8>, j: nat, m: nat)
    requires
        j <= m,
        sample_loops_walk(s, j) is Err,
    ensures
        sample_loops_walk(s, m) == sample_loops_walk(s, j),
    decreases m - j,
{
    if j < m {
        lemma_walk_error_stays(s, j, (m - 1) as nat);
    }
}

/// The fields of a sampler chunk before its loops: the four manufacturer
/// bytes, product, sample period, MIDI unity note, pitch fraction, SMPTE
/// format, the four SMPTE offset bytes, loop count and sampler data size,
/// then the rest. All integers are little-endian 32-bit.
pub open spec fn smpl_head(s: Seq<u8>) -> Result<
    (Seq<u8>, u32, u32, u32, u32, u32, Seq<u8>, u32, u32, Seq<u8>),
    LocalError,
> {
    match take_field(s, MANUFACTURER_ID_LENGTH_IN_BYTES as int) {
        Err(e) => Err(e),
        Ok((manufacturer, s)) => match u32_field(s, Endian::Little) {
            Err(e) => Err(e),
            Ok((product, s)) => match u32_field(s, Endian::Little) {
                Err(e) => Err(e),
                Ok((sample_period, s)) => match u32_field(s, Endian::Little) {
                    Err(e) => Err(e),
                    Ok((note, s)) => match u32_field(s, Endian::Little) {
                        Err(e) => Err(e),
                        Ok((pitch, s)) => match u32_field(s, Endian::Little) {
                            Err(e) => Err(e),
                            Ok((smpte_format, s)) => if s.len() < 4 {
                                Err(LocalError::InsufficientBytesToTake(1, 0))
                            } else {
                                let smpte = s.take(4);
                                let s = s.skip(4);
                                match u32_field(s, Endian::Little) {
                                    Err(e) => Err(e),
                                    Ok((loops, s)) => match u32_field(s, Endian::Little) {
                                        Err(e) => Err(e),
                                        Ok((size, s)) => Ok(
                                            (
                                                manufacturer,
                                                product,
                                                sample_period,
                                                note,
                                                pitch,
                                                smpte_format,
                                                smpte,
                                                loops,
                                                size,
                                                s,
                                            ),
                                        ),
                                    },
                                }
                            },
                        },
                    },
                },
            },
        },
    }
}

/// What a sampler chunk holds, or the error met reading it.
pub open spec fn smpl_chunk(s: Seq<u8>) -> Result<
    (Seq<char>, u32, u32, u32, u32, u32, Seq<char>, u32, u32, Seq<SampleLoop>),
    LocalError,
> {
    match smpl_head(s) {
        Err(e) => Err(e),
        Ok((manufacturer, product, period, note, pitch, format, smpte, count, size, rest)) => {
            match manufacturer_id(manufacturer) {
                Err(e) => Err(e),
                Ok(m) => match sample_loops_walk(rest, count as nat) {
                    Err(e) => Err(e),
                    Ok((loops, _)) => Ok(
                        (
                            m,
                            product,
                            period,
                            note,
                            pitch,
                            format,
                            smpte_offset_text(smpte, Endian::Little),
                            count,
                            size,
                            loops,
                        ),
                    ),
                },
            }
        },
    }
}

/// Whether the metadata shows the fields `f` of a sampler chunk.
pub open spec fn smpl_metadata_matches(
    m: SmplMetadata,
    f: (Seq<char>, u32, u32, u32, u32, u32, Seq<char>, u32, u32, Seq<SampleLoop>),
) -> bool {
    &&& m.manufacturer@ == f.0
    &&& m.product == f.1
    &&& m.sample_period == f.2
    &&& m.midi_unity_note_number == f.3
    &&& (if f.3 < EXACT_NOTE_NAME_LIMIT {
        m.midi_unity_note matches Some(name) && name@ == note_name_text(f.3 as nat)
    } else {
        m.midi_unity_note is None
    })
    &&& m.midi_pitch_fraction == f.4
    &&& m.smpte_format == f.5
    &&& m.smpte_offset@ == f.6
    &&& m.number_of_sample_loops == f.7
    &&& m.sample_data_size_in_bytes == f.8
    &&& m.sample_loops@ == f.9
}

fn take_u32(bytes: &mut Vec<u8>) -> (result: Result<u32, LocalError>)
    ensures
        match u32_field(old(bytes)@, Endian::Little) {
            Ok((v, rest)) => result == Ok::<u32, LocalError>(v) && final(bytes)@ == rest,
            Err(e) => result == Err::<u32, LocalError>(e),
        },
{
    take_first_four_bytes_as_unsigned_integer(bytes, Endian::Little)
}

fn take_sample_loop(bytes: &mut Vec<u8>) -> (result: Result<SampleLoop, LocalError>)
    ensures
        match sample_loop_field(old(bytes)@) {
            Ok((l, rest)) => result == Ok::<SampleLoop, LocalError>(l) && final(bytes)@ == rest,
            Err(e) => result == Err::<SampleLoop, LocalError>(e),
        },
{
    let cue_point_id = match take_u32(bytes) {
        Ok(v) => v,
        Err(e) => return Err(e),
    };
    let loop_type = match take_u32(bytes) {
        Ok(v) => v,
        Err(e) => return Err(e),
    };
    let start_point = match take_u32(bytes) {
        Ok(v) => v,
        Err(e) => return Err(e),
    };
    let end_point = match take_u32(bytes) {
        Ok(v) => v,
        Err(e) => return Err(e),
    };
    let fraction = match take_u32(bytes) {
        Ok(v) => v,
        Err(e) => return Err(e),
    };
    let plays = match take_u32(bytes) {
        Ok(v) => v,
        Err(e) => return Err(e),
    };
    Ok(
        SampleLoop {
            cue_point_id,
            loop_type,
            start_point,
            end_point,
            fraction,
            number_of_time_to_play_the_loop: plays,
        },
    )
}

/// Decodes a `smpl` chunk. The first byte of the manufacturer field counts
/// the id bytes after it, and may not count more than the three there are.
#[verifier::loop_isolation(false)]
pub fn get_metadata(chunk_data: Vec<u8>) -> (result: Result<SmplMetadata, LocalError>)
    requires
        chunk_data@.len() >= MANUFACTURER_ID_LENGTH_IN_BYTES ==> chunk_data@[0] < 4,
    ensures
        match smpl_chunk(chunk_data@) {
            Ok(f) => result matches Ok(m) && smpl_metadata_matches(m, f),
            Err(e) => result == Err::<SmplMetadata, LocalError>(e),
        },
{
    let mut chunk_data = chunk_data;
    let manufacturer_bytes = match take_first_number_of_bytes(
        &mut chunk_data,
        MANUFACTURER_ID_LENGTH_IN_BYTES,
    ) {
        Ok(b) => b,
        Err(e) => return Err(e),
    };
    let product = match take_u32(&mut chunk_data) {
        Ok(v) => v,
        Err(e) => return Err(e),
    };
    let sample_period = match take_u32(&mut chunk_data) {
        Ok(v) => v,
        Err(e) => return Err(e),
    };
    let note = match take_u32(&mut chunk_data) {
        Ok(v) => v,
        Err(e) => return Err(e),
    };
    let pitch = match take_u32(&mut chunk_data) {
        Ok(v) => v,
        Err(e) => return Err(e),
    };
    let smpte_format = match take_u32(&mut chunk_data) {
        Ok(v) => v,
        Err(e) => return Err(e),
    };
    let smpte_offset = match format_smpte_offset(&mut chunk_data, Endian::Little) {
        Ok(t) => t,
        Err(e) => return Err(e),
    };
    let number_of_sample_loops = match take_u32(&mut chunk_data) {
        Ok(v) => v,
        Err(e) => return Err(e),
    };
    let sample_data_size_in_bytes = match take_u32(&mut chunk_data) {
        Ok(v) => v,
        Err(e) => return Err(e),
    };
    let manufacturer = match format_manufacturer_id(manufacturer_bytes) {
        Ok(t) => t,
        Err(e) => return Err(e),
    };
    let ghost rest = chunk_data@;
    let mut sample_loops: Vec<SampleLoop> = Vec::new();
    let mut k: u32 = 0;
    while k < number_of_sample_loops
        invariant
            k <= number_of_sample_loops,
            sample_loops_walk(rest, k as nat) == Ok::<(Seq<SampleLoop>, Seq<u8>), LocalError>(
                (sample_loops@, chunk_data@),
            ),
        decreases number_of_sample_loops - k,
    {
        let sample_loop = match take_sample_loop(&mut chunk_data) {
            Ok(l) => l,
            Err(e) => {
                proof {
                    lemma_walk_error_stays(rest, (k + 1) as nat, number_of_sample_loops as nat);
                }
                return Err(e);
            },
        };
        sample_loops.push(sample_loop);
        k = k + 1;
    }
    let midi_unity_note = if note < EXACT_NOTE_NAME_LIMIT {
        Some(format_midi_note_number_as_note_name(note))
    } else {
        None
    };
    Ok(
        SmplMetadata {
            manufacturer,
            product,
            sample_period,
            midi_unity_note_number: note,
            midi_unity_note,
            midi_pitch_fraction: pitch,
            smpte_format,
            smpte_offset,
            number_of_sample_loops,
            sample_data_size_in_bytes,
            sample_loops,
        },
    )
}

/// The template of a sampler chunk.
pub const SMPL_TEMPLATE: &'static str = "\n-------------\nSample (smpl) Chunk Details:\n-------------\nManufacturer: {{ manufacturer }}\nProduct: {{ product }}\nSample Period: {{ sample_period }}\nMIDI Unity Note: {{ midi_unity_note }}\nMIDI Pitch Fraction: {{ midi_pitch_fraction }}\nSMPTE Format: {{ smpte_format }}\nSMPTE Offset: {{ smpte_offset }}\nNumber of Sample Loops: {{ number_of_sample_loops }}\nSampler Data: {{ sample_data_size_in_bytes }} bytes{{ sample_loops }}";

/// The line of a loop.
pub open spec fn sample_loop_line(l: SampleLoop) -> Seq<char> {
    "Loop "@ + decimal_text(l.cue_point_id as nat) + ": type "@ + decimal_text(l.loop_type as nat)
        + ", start "@ + decimal_text(l.start_point as nat) + ", end "@ + decimal_text(
        l.end_point as nat,
    ) + ", fraction "@ + decimal_text(l.fraction as nat) + ", play count "@ + decimal_text(
        l.number_of_time_to_play_the_loop as nat,
    )
}

/// The unity note as shown: its name, or its number where it has none.
pub open spec fn unity_note_text(m: SmplMetadata) -> Seq<char> {
    match m.midi_unity_note {
        Some(name) => name@,
        None => decimal_text(m.midi_unity_note_number as nat),
    }
}

/// The values a sampler chunk is rendered from.
pub open spec fn smpl_output_values(m: SmplMetadata) -> Seq<(Seq<char>, Seq<char>)> {
    seq![
        ("manufacturer"@, m.manufacturer@),
        ("product"@, decimal_text(m.product as nat)),
        ("sample_period"@, decimal_text(m.sample_period as nat)),
        ("midi_unity_note"@, unity_note_text(m)),
        ("midi_pitch_fraction"@, decimal_text(m.midi_pitch_fraction as nat)),
        ("smpte_format"@, decimal_text(m.smpte_format as nat)),
        ("smpte_offset"@, m.smpte_offset@),
        ("number_of_sample_loops"@, decimal_text(m.number_of_sample_loops as nat)),
        ("sample_data_size_in_bytes"@, decimal_text(m.sample_data_size_in_bytes as nat)),
        ("sample_loops"@, own_lines(m.sample_loops@.map_values(|l: SampleLoop| sample_loop_line(l)))),
    ]
}

/// Writes the line of a loop.
fn sample_loop_string(l: &SampleLoop) -> (text: String)
    ensures
        text@ == sample_loop_line(*l),
{
    let mut text = String::from_str("Loop ");
    push_decimal(&mut text, l.cue_point_id as u64);
    text.append(": type ");
    push_decimal(&mut text, l.loop_type as u64);
    text.append(", start ");
    push_decimal(&mut text, l.start_point as u64);
    text.append(", end ");
    push_decimal(&mut text, l.end_point as u64);
    text.append(", fraction ");
    push_decimal(&mut text, l.fraction as u64);
    text.append(", play count ");
    push_decimal(&mut text, l.number_of_time_to_play_the_loop as u64);
    text
}

impl SmplMetadata {
    /// Renders the chunk's fields and a line for each loop.
    pub fn format_data_for_output(&self) -> (result: Result<String, String>)
        ensures
            rendered_as(result, upon_rendered_text(SMPL_TEMPLATE@, smpl_output_values(*self))),
    {
        let mut lines: Vec<String> = Vec::new();
        let mut i: usize = 0;
        while i < self.sample_loops.len()
            invariant
                i <= self.sample_loops@.len(),
                lines_view(lines@) =~= self.sample_loops@.take(i as int).map_values(
                    |l: SampleLoop| sample_loop_line(l),
                ),
            decreases self.sample_loops@.len() - i,
        {
            let ghost before = lines_view(lines@);
            let line = sample_loop_string(&self.sample_loops[i]);
            lines.push(line);
            assert(lines_view(lines@) =~= before.push(sample_loop_line(self.sample_loops@[i as int])));
            assert(self.sample_loops@.take(i + 1) =~= self.sample_loops@.take(i as int).push(
                self.sample_loops@[i as int],
            ));
            i = i + 1;
        }
        assert(self.sample_loops@.take(i as int) =~= self.sample_loops@);
        let unity_note = match &self.midi_unity_note {
            Some(name) => name.clone(),
            None => decimal_string(self.midi_unity_note_number as u64),
        };
        let values = vec![
            named("manufacturer", self.manufacturer.clone()),
            named("product", decimal_string(self.product as u64)),
            named("sample_period", decimal_string(self.sample_period as u64)),
            named("midi_unity_note", unity_note),
            named("midi_pitch_fraction", decimal_string(self.midi_pitch_fraction as u64)),
            named("smpte_format", decimal_string(self.smpte_format as u64)),
            named("smpte_offset", self.smpte_offset.clone()),
            named("number_of_sample_loops", decimal_string(self.number_of_sample_loops as u64)),
            named("sample_data_size_in_bytes", decimal_string(self.sample_data_size_in_bytes as u64)),
            named("sample_loops", join_on_own_lines(&lines)),
        ];
        assert(values_view(values@) =~= smpl_output_values(*self));
        get_file_chunk_output(SMPL_TEMPLATE, &values)
    }
}

/// The report entry of a sampler chunk: the decoding error, or its fields
/// and loops rendered under `Optional`.
pub open spec fn smpl_entry_is(data: Seq<u8>, result: Result<OutputEntry, LocalError>) -> bool {
    match smpl_chunk(data) {
        Ok(f) => exists|m: SmplMetadata| #[trigger] smpl_metadata_matches(m, f) && entry_of(
            Section::Optional,
            upon_rendered_text(SMPL_TEMPLATE@, smpl_output_values(m)),
            result,
        ),
        Err(e) => result == Err::<OutputEntry, LocalError>(e),
    }
}

/// Decodes a sampler chunk and renders it as its report entry.
pub fn smpl_entry(chunk_data: Vec<u8>) -> (result: Result<OutputEntry, LocalError>)
    requires
        chunk_data@.len() >= MANUFACTURER_ID_LENGTH_IN_BYTES ==> chunk_data@[0] < 4,
    ensures
        smpl_entry_is(chunk_data@, result),
{
    match get_metadata(chunk_data) {
        Ok(m) => into_entry(Section::Optional, m.format_data_for_output()),
        Err(e) => Err(e),
    }
}

/// The fields of a sampler chunk after its manufacturer field (bytes 0 to
/// 3) are little-endian, least significant byte first: product bytes 4 to
/// 7, sample period 8 to 11, unity note 12 to 15, pitch fraction 16 to 19,
/// SMPTE format 20 to 23, the SMPTE offset bytes 24 to 27, the number of
/// loops 28 to 31 and the sampler data size 32 to 35; the loops follow.
pub proof fn smpl_fields_are_little_endian(s: Seq<u8>)
    requires
        smpl_head(s) is Ok,
    ensures
        s.len() >= 36,
        ({
            let (manufacturer, product, period, note, pitch, format, smpte, loops, size, rest) =
                smpl_head(s)->Ok_0;
            &&& manufacturer == s.subrange(0, 4)
            &&& product == le32(s, 4)
            &&& period == le32(s, 8)
            &&& note == le32(s, 12)
            &&& pitch == le32(s, 16)
            &&& format == le32(s, 20)
            &&& smpte == s.subrange(24, 28)
            &&& loops == le32(s, 28)
            &&& size == le32(s, 32)
            &&& rest == s.skip(36)
        }),
{
    assert(s.take(4) =~= s.subrange(0, 4));
    assert(s.skip(4) =~= s.skip(4));
    assert(s.skip(4).take(4) =~= s.subrange(4, 8));
    assert(s.skip(4).skip(4) =~= s.skip(8));
    assert(s.skip(8).take(4) =~= s.subrange(8, 12));
    assert(s.skip(8).skip(4) =~= s.skip(12));
    assert(s.skip(12).take(4) =~= s.subrange(12, 16));
    assert(s.skip(12).skip(4) =~= s.skip(16));
    assert(s.skip(16).take(4) =~= s.subrange(16, 20));
    assert(s.skip(16).skip(4) =~= s.skip(20));
    assert(s.skip(20).take(4) =~= s.subrange(20, 24));
    assert(s.skip(20).skip(4) =~= s.skip(24));
    assert(s.skip(24).take(4) =~= s.subrange(24, 28));
    assert(s.skip(24).skip(4) =~= s.skip(28));
    assert(s.skip(28).take(4) =~= s.subrange(28, 32));
    assert(s.skip(28).skip(4) =~= s.skip(32));
    assert(s.skip(32).take(4) =~= s.subrange(32, 36));
    assert(s.skip(32).skip(4) =~= s.skip(36));
}

} // verus!
