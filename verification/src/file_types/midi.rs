use crate::byte_arrays::{
    i8_value, printable_string, printable_text, take_first_byte, take_first_byte_as_signed_integer,
    take_first_byte_as_unsigned_integer, take_first_four_bytes_as_unsigned_integer,
    take_first_number_of_bytes, take_first_two_bytes_as_unsigned_integer, u16_value, u32_value,
    Endian,
};
use crate::errors::LocalError;
use crate::formating::{format_smpte_offset, is_note_letter, pitch_class, smpte_offset_text};
use crate::strings::{
    utf8_lossy_string, utf8_lossy_text,
    decimal_string, decimal_text, hex_pair_lower, hex_pair_upper, push_char, push_decimal,
    push_hex_pair_lower, push_hex_pair_upper,
};
use crate::template::{join_on_own_lines, named, own_lines, render_entry, upon_rendered_text, values_view};
use crate::strings::lines_view;
use crate::output::{OutputEntry, Section};
use crate::byte_arrays::be32;
use vstd::prelude::*;

verus! {

/// Length in bytes of the division field of a MIDI header chunk.
pub const MIDI_HEADER_CHUNK_DIVISION_LENGTH_IN_BYTES: usize = 2;

/// Length in bytes of the chunk ID in front of every MIDI chunk.
pub const CHUNK_ID_LENGTH_IN_BYTES: usize = 4;

pub const MIDI_FORMAT_TYPE_ZERO: &'static str = "A single multi-channel track";
pub const MIDI_FORMAT_TYPE_ONE: &'static str = "One or more simultaneous tracks of a sequence";
pub const MIDI_FORMAT_TYPE_TWO: &'static str = "One or more sequential tracks of a sequence";
pub const METRONOME_CLICK_MESSAGE: &'static str = "Midi Clock Ticks Per Metronome Click";
pub const THIRTYSECOND_NOTES_PER_BEAT_MESSAGE: &'static str = "32nd Notes Per Beat";
pub const MAJOR_SCALE_TITLE: &'static str = "Major";
pub const MINOR_SCALE_TITLE: &'static str = "minor";
pub const MICROSECONDS_PER_MINUTE: u32 = 60000000;
pub const META_EVENT_ID_BYTE_VALUE: u8 = 0xFF;
pub const SYSEX_EVENT_ID_BYTE_VALUE: u8 = 0xF0;
pub const META_EVENT_END_OFF_TRACK_BYTE_VALUE: u8 = 0x2F;

/// The timing division of a MIDI file: either pulses per quarter note, or
/// an SMPTE timecode format with ticks per frame.
#[derive(Default, Debug, Clone, Copy, PartialEq, Eq, Structural)]
pub struct Division {
    pub ppqn: u16,
    pub timecode: u8,
    pub ticks_per_frame: u8,
}

/// The fields of a MIDI header chunk.
#[derive(Debug, Clone, PartialEq)]
pub struct Header {
    pub format: String,
    pub number_of_tracks: u16,
    pub division: Division,
}

/// A meta event found in a track.
#[derive(Debug, Clone, PartialEq)]
pub struct MetaEvent {
    pub track_number: u16,
    pub delta_time: u32,
    pub name: String,
    pub value: String,
}

/// The description of a MIDI file format number; empty for unknown formats.
pub open spec fn file_format_text(format_number: u16) -> Seq<char> {
    if format_number == 0 {
        MIDI_FORMAT_TYPE_ZERO@
    } else if format_number == 1 {
        MIDI_FORMAT_TYPE_ONE@
    } else if format_number == 2 {
        MIDI_FORMAT_TYPE_TWO@
    } else {
        Seq::empty()
    }
}

/// Describes a MIDI file format number.
pub fn get_file_format_from_raw_format_number(format_number: u16) -> (text: String)
    ensures
        text@ == file_format_text(format_number),
{
    match format_number {
        0 => String::from_str(MIDI_FORMAT_TYPE_ZERO),
        1 => String::from_str(MIDI_FORMAT_TYPE_ONE),
        2 => String::from_str(MIDI_FORMAT_TYPE_TWO),
        _ => String::new(),
    }
}

/// The division held by two bytes: with the top bit of the first byte set,
/// the rest of that byte is the timecode and the second byte the ticks per
/// frame; otherwise both bytes are the pulses per quarter note.
pub open spec fn division_of(first: u8, second: u8) -> Division {
    if first >= 128 {
        Division { ppqn: 0, timecode: (first - 128) as u8, ticks_per_frame: second }
    } else {
        Division { ppqn: (256 * first + second) as u16, timecode: 0, ticks_per_frame: 0 }
    }
}

/// The byte at `i`, or 0 when there is none.
pub open spec fn byte_or_zero(s: Seq<u8>, i: int) -> u8 {
    if 0 <= i < s.len() {
        s[i]
    } else {
        0
    }
}

/// Decodes the division field; missing bytes count as zero.
pub fn get_division_output_values_from_raw_division_bytes(division_bytes: Vec<u8>) -> (division:
    Division)
    ensures
        division == division_of(byte_or_zero(division_bytes@, 0), byte_or_zero(division_bytes@, 1)),
{
    let mut division_bytes = division_bytes;
    let first_byte = match take_first_byte(&mut division_bytes) {
        Ok(b) => b,
        Err(_) => 0,
    };
    let second_byte = match take_first_byte(&mut division_bytes) {
        Ok(b) => b,
        Err(_) => 0,
    };
    if first_byte >= 128 {
        Division { ppqn: 0, timecode: first_byte - 128, ticks_per_frame: second_byte }
    } else {
        Division {
            ppqn: 256 * (first_byte as u16) + second_byte as u16,
            timecode: 0,
            ticks_per_frame: 0,
        }
    }
}

/// The tempo field: microseconds per quarter note held by three big-endian
/// bytes, as beats per minute (integer division), or `0` when it is zero.
pub open spec fn bpm_text(b: Seq<u8>) -> Seq<char> {
    let microseconds_per_beat = 65536 * b[0] + 256 * b[1] + b[2];
    if microseconds_per_beat == 0 {
        seq!['0']
    } else {
        decimal_text((MICROSECONDS_PER_MINUTE as int / microseconds_per_beat) as nat)
    }
}

/// Beats per minute from the three bytes of a tempo event; the bytes are
/// read, not taken.
pub fn get_bpm_from_bytes(bytes: &mut Vec<u8>) -> (text: String)
    requires
        old(bytes)@.len() == 3,
    ensures
        text@ == bpm_text(old(bytes)@),
        final(bytes)@ == old(bytes)@,
{
    let microseconds_per_beat: u32 = 65536 * (bytes[0] as u32) + 256 * (bytes[1] as u32)
        + bytes[2] as u32;
    if microseconds_per_beat == 0 {
        let mut text = String::new();
        push_char(&mut text, '0');
        assert(text@ =~= seq!['0']);
        return text;
    }
    decimal_string((MICROSECONDS_PER_MINUTE / microseconds_per_beat) as u64)
}

/// The bytes of a delta-time field as the reading loop collects them: up to
/// `remaining` more bytes, stopping after one whose top bit is clear; when
/// the data runs out a zero byte is appended (and nothing consumed).
/// Gives the big-endian value of `acc` followed by the collected bytes,
/// and the number of bytes consumed.
pub open spec fn variable_length_step(s: Seq<u8>, remaining: nat, acc: nat) -> (nat, nat)
    decreases remaining,
{
    if remaining == 0 {
        (acc, 0)
    } else if s.len() == 0 {
        (acc * 256, 0)
    } else if s[0] < 128 {
        ((acc * 256 + s[0]) as nat, 1)
    } else {
        let r = variable_length_step(
            s.skip(1),
            (remaining - 1) as nat,
            (acc * 256 + s[0]) as nat,
        );
        (r.0, r.1 + 1)
    }
}

/// The value of a delta-time field at the start of `s` (the big-endian
/// value of at most four collected bytes).
pub open spec fn variable_length_value(s: Seq<u8>) -> nat {
    variable_length_step(s, 4, 0).0
}

/// The number of bytes a delta-time field takes from the start of `s`.
pub open spec fn variable_length_size(s: Seq<u8>) -> nat {
    variable_length_step(s, 4, 0).1
}

/// 256 to the power `n`.
pub open spec fn pow256(n: nat) -> nat
    decreases n,
{
    if n == 0 {
        1
    } else {
        256 * pow256((n - 1) as nat)
    }
}

proof fn lemma_variable_length_step(s: Seq<u8>, remaining: nat, acc: nat, bound: nat)
    requires
        acc < bound,
        bound * pow256(remaining) <= 4294967296,
    ensures
        variable_length_step(s, remaining, acc).0 < 4294967296,
        variable_length_step(s, remaining, acc).1 <= remaining,
        variable_length_step(s, remaining, acc).1 <= s.len(),
    decreases remaining,
{
    lemma_pow256_positive(remaining);
    if remaining == 0 {
        assert(pow256(0) == 1);
        assert(bound * pow256(0) == bound) by (nonlinear_arith)
            requires
                pow256(0) == 1,
        ;
    } else {
        let p = pow256((remaining - 1) as nat);
        lemma_pow256_positive((remaining - 1) as nat);
        assert(bound * 256 * p <= 4294967296) by (nonlinear_arith)
            requires
                bound * pow256(remaining) <= 4294967296,
                pow256(remaining) == 256 * p,
        ;
        assert(acc * 256 + 256 <= 4294967296) by (nonlinear_arith)
            requires
                acc < bound,
                bound * 256 * p <= 4294967296,
                p >= 1,
        ;
        if s.len() > 0 && s[0] >= 128 {
            lemma_variable_length_step(
                s.skip(1),
                (remaining - 1) as nat,
                (acc * 256 + s[0]) as nat,
                bound * 256,
            );
        }
    }
}

proof fn lemma_pow256_positive(n: nat)
    ensures
        pow256(n) >= 1,
    decreases n,
{
    if n > 0 {
        lemma_pow256_positive((n - 1) as nat);
    }
}

/// Takes a delta-time field from the start of the track data and returns
/// its value.
pub fn get_variable_length_unsigned_integer_from_track_data(bytes: &mut Vec<u8>) -> (value: u32)
    ensures
        value == variable_length_value(old(bytes)@),
        variable_length_size(old(bytes)@) <= old(bytes)@.len(),
        final(bytes)@ == old(bytes)@.skip(variable_length_size(old(bytes)@) as int),
{
    let ghost start = bytes@;
    proof {
        reveal_with_fuel(pow256, 5);
        lemma_variable_length_step(start, 4, 0, 1);
    }
    let mut acc: u64 = 0;
    let mut i: usize = 0;
    let mut done = false;
    while i < 4 && !done
        invariant
            i <= 4,
            acc < pow256(i as nat),
            start.len() >= bytes@.len(),
            !done ==> bytes@ == start.skip((start.len() - bytes@.len()) as int),
            !done ==> start.len() - bytes@.len() == i,
            !done ==> variable_length_step(start, 4, 0).0 == variable_length_step(
                bytes@,
                (4 - i) as nat,
                acc as nat,
            ).0,
            !done ==> variable_length_step(start, 4, 0).1 == variable_length_step(
                bytes@,
                (4 - i) as nat,
                acc as nat,
            ).1 + i,
            done ==> variable_length_value(start) == acc,
            done ==> bytes@ == start.skip(variable_length_size(start) as int),
        decreases 4 - i,
    {
        proof {
            reveal_with_fuel(pow256, 5);
            assert(pow256((i + 1) as nat) == 256 * pow256(i as nat));
            assert(pow256((i + 1) as nat) <= 4294967296);
        }
        let current = match take_first_byte(bytes) {
            Ok(b) => b,
            Err(_) => 0,
        };
        acc = acc * 256 + current as u64;
        i = i + 1;
        if current < 128 {
            done = true;
        }
        proof {
            if !done {
                assert(bytes@ =~= start.skip((start.len() - bytes@.len()) as int));
            }
            if done {
                assert(bytes@ =~= start.skip(variable_length_size(start) as int));
            }
        }
    }
    proof {
        if !done {
            assert(i == 4);
        }
    }
    acc as u32
}

/// Bytes as hexadecimal pairs, each preceded by a space.
pub open spec fn spaced_hex_text(s: Seq<u8>) -> Seq<char>
    decreases s.len(),
{
    if s.len() == 0 {
        Seq::empty()
    } else {
        spaced_hex_text(s.drop_last()) + seq![' '] + hex_pair_lower(s.last())
    }
}

/// A sequencer-specific field: the manufacturer ID (first byte, 0 when
/// there is none), ` : `, and the remaining bytes as spaced hexadecimal.
pub open spec fn sequencer_specific_text(s: Seq<u8>) -> Seq<char> {
    if s.len() == 0 {
        seq!['0'] + " : "@
    } else {
        decimal_text(s[0] as nat) + " : "@ + spaced_hex_text(s.skip(1))
    }
}

/// Formats a sequencer-specific meta event, e.g. `7 :  43 4f 52`; the
/// manufacturer ID byte is taken.
pub fn get_sequencer_specific_field_from_bytes(bytes: &mut Vec<u8>) -> (text: String)
    ensures
        text@ == sequencer_specific_text(old(bytes)@),
        final(bytes)@ == if old(bytes)@.len() == 0 {
            old(bytes)@
        } else {
            old(bytes)@.skip(1)
        },
{
    let ghost start = bytes@;
    let manufacturer_id = match take_first_byte_as_unsigned_integer(bytes, Endian::Big) {
        Ok(b) => b,
        Err(_) => 0,
    };
    let mut text = decimal_string(manufacturer_id as u64);
    text.append(" : ");
    let ghost head = text@;
    let mut i: usize = 0;
    while i < bytes.len()
        invariant
            i <= bytes@.len(),
            text@ == head + spaced_hex_text(bytes@.take(i as int)),
        decreases bytes@.len() - i,
    {
        assert(bytes@.take(i + 1).drop_last() =~= bytes@.take(i as int));
        push_char(&mut text, ' ');
        push_hex_pair_lower(&mut text, bytes[i]);
        i = i + 1;
        assert(text@ =~= head + spaced_hex_text(bytes@.take(i as int)));
    }
    assert(bytes@.take(i as int) =~= bytes@);
    proof {
        if start.len() == 0 {
            assert(decimal_text(0) =~= seq!['0']);
            assert(text@ =~= sequencer_specific_text(start));
        }
    }
    text
}

/// A time signature: numerator (default 4), `/`, the denominator byte
/// (default 2) shifted left by one within a byte, then the metronome
/// clicks and 32nd notes per beat (default 0) on lines of their own.
pub open spec fn time_signature_text(s: Seq<u8>) -> Seq<char> {
    let numerator = if s.len() > 0 {
        s[0]
    } else {
        4u8
    };
    let denominator = if s.len() > 1 {
        s[1]
    } else {
        2u8
    };
    decimal_text(numerator as nat) + seq!['/'] + decimal_text(((2 * denominator) % 256) as nat)
        + seq!['\n'] + METRONOME_CLICK_MESSAGE@ + ": "@ + decimal_text(byte_or_zero(s, 2) as nat)
        + seq!['\n'] + THIRTYSECOND_NOTES_PER_BEAT_MESSAGE@ + ": "@ + decimal_text(
        byte_or_zero(s, 3) as nat,
    )
}

/// The first byte, or the default when there is none; the byte is taken.
fn take_byte_or(bytes: &mut Vec<u8>, default: u8) -> (b: u8)
    ensures
        old(bytes)@.len() > 0 ==> b == old(bytes)@[0] && final(bytes)@ == old(bytes)@.skip(1),
        old(bytes)@.len() == 0 ==> b == default && final(bytes)@ == old(bytes)@,
{
    match take_first_byte_as_unsigned_integer(bytes, Endian::Big) {
        Ok(b) => b,
        Err(_) => default,
    }
}

/// Formats a time signature meta event; at most four bytes are taken.
pub fn get_time_signature_from_bytes(bytes: &mut Vec<u8>) -> (text: String)
    ensures
        text@ == time_signature_text(old(bytes)@),
        final(bytes)@ == old(bytes)@.skip(
            if old(bytes)@.len() < 4 {
                old(bytes)@.len() as int
            } else {
                4
            },
        ),
{
    let ghost start = bytes@;
    let numerator = take_byte_or(bytes, 4);
    let denominator = take_byte_or(bytes, 2);
    let clock_ticks_per_metronome_click = take_byte_or(bytes, 0);
    let thirtysecond_notes_per_beat = take_byte_or(bytes, 0);
    let doubled: u8 = ((2 * (denominator as u16)) % 256) as u8;
    let mut text = decimal_string(numerator as u64);
    push_char(&mut text, '/');
    push_decimal(&mut text, doubled as u64);
    push_char(&mut text, '\n');
    text.append(METRONOME_CLICK_MESSAGE);
    text.append(": ");
    push_decimal(&mut text, clock_ticks_per_metronome_click as u64);
    push_char(&mut text, '\n');
    text.append(THIRTYSECOND_NOTES_PER_BEAT_MESSAGE);
    text.append(": ");
    push_decimal(&mut text, thirtysecond_notes_per_beat as u64);
    assert(text@ =~= time_signature_text(start));
    assert(bytes@ =~= start.skip(
        if start.len() < 4 {
            start.len() as int
        } else {
            4
        },
    ));
    text
}

/// The tonic of a key signature with `flats` flats (negative for sharps).
pub open spec fn key_center(flats: int, is_major: bool) -> Seq<char> {
    if is_major {
        if flats == 7 {
            "B"@
        } else if flats == 6 {
            "Gb"@
        } else if flats == 5 {
            "Db"@
        } else if flats == 4 {
            "Ab"@
        } else if flats == 3 {
            "Eb"@
        } else if flats == 2 {
            "Bb"@
        } else if flats == 1 {
            "F"@
        } else if flats == 0 {
            "C"@
        } else if flats == -1 {
            "G"@
        } else if flats == -2 {
            "D"@
        } else if flats == -3 {
            "A"@
        } else if flats == -4 {
            "E"@
        } else if flats == -5 {
            "B"@
        } else if flats == -6 {
            "F#"@
        } else {
            "C#"@
        }
    } else {
        if flats == 7 {
            "Ab"@
        } else if flats == 6 {
            "Eb"@
        } else if flats == 5 {
            "Bb"@
        } else if flats == 4 {
            "F"@
        } else if flats == 3 {
            "C"@
        } else if flats == 2 {
            "G"@
        } else if flats == 1 {
            "D"@
        } else if flats == 0 {
            "A"@
        } else if flats == -1 {
            "E"@
        } else if flats == -2 {
            "B"@
        } else if flats == -3 {
            "F#"@
        } else if flats == -4 {
            "C#"@
        } else if flats == -5 {
            "G#"@
        } else if flats == -6 {
            "D#"@
        } else {
            "A#"@
        }
    }
}

/// A key signature, e.g. `F minor` or `B Major`.
pub open spec fn key_text(flats: int, is_major: bool) -> Seq<char> {
    key_center(flats, is_major) + seq![' '] + if is_major {
        MAJOR_SCALE_TITLE@
    } else {
        MINOR_SCALE_TITLE@
    }
}

/// The tonic of a key signature as a string.
fn key_center_string(flats: i8, is_major: bool) -> (text: String)
    requires
        -7 <= flats <= 7,
    ensures
        text@ == key_center(flats as int, is_major),
{
    if is_major {
        match flats {
            7 => String::from_str("B"),
            6 => String::from_str("Gb"),
            5 => String::from_str("Db"),
            4 => String::from_str("Ab"),
            3 => String::from_str("Eb"),
            2 => String::from_str("Bb"),
            1 => String::from_str("F"),
            0 => String::from_str("C"),
            -1 => String::from_str("G"),
            -2 => String::from_str("D"),
            -3 => String::from_str("A"),
            -4 => String::from_str("E"),
            -5 => String::from_str("B"),
            -6 => String::from_str("F#"),
            _ => String::from_str("C#"),
        }
    } else {
        match flats {
            7 => String::from_str("Ab"),
            6 => String::from_str("Eb"),
            5 => String::from_str("Bb"),
            4 => String::from_str("F"),
            3 => String::from_str("C"),
            2 => String::from_str("G"),
            1 => String::from_str("D"),
            0 => String::from_str("A"),
            -1 => String::from_str("E"),
            -2 => String::from_str("B"),
            -3 => String::from_str("F#"),
            -4 => String::from_str("C#"),
            -5 => String::from_str("G#"),
            -6 => String::from_str("D#"),
            _ => String::from_str("A#"),
        }
    }
}

/// Names the key of a key signature from its number of flats (negative
/// for sharps, at most seven either way) and its mode.
pub fn get_key_from_number_of_flats(flats: i8, is_major: bool) -> (text: String)
    requires
        -7 <= flats <= 7,
    ensures
        text@ == key_text(flats as int, is_major),
{
    let mut text = key_center_string(flats, is_major);
    push_char(&mut text, ' ');
    if is_major {
        text.append(MAJOR_SCALE_TITLE);
    } else {
        text.append(MINOR_SCALE_TITLE);
    }
    assert(text@ =~= key_text(flats as int, is_major));
    text
}

pub const META_EVENT_SEQUENCE_NUMBER: &'static str = "Sequence Number";
pub const META_EVENT_TEXT: &'static str = "Text";
pub const META_EVENT_COPYRIGHT_NOTICE: &'static str = "Copyright Notice";
pub const META_EVENT_TRACK_NAME: &'static str = "Track Name";
pub const META_EVENT_INSTRUMENT_NAME: &'static str = "Instrument Name";
pub const META_EVENT_LYRICS: &'static str = "Lyrics";
pub const META_EVENT_MARKER: &'static str = "Marker";
pub const META_EVENT_CUE_POINT: &'static str = "Cue Point";
pub const META_EVENT_CHANNEL_PREFIX: &'static str = "Channel Prefix";
pub const META_EVENT_MIDI_PORT: &'static str = "MIDI Port";
pub const META_EVENT_DEVICE_NAME: &'static str = "Device Name";
pub const META_EVENT_SET_TEMPO: &'static str = "Set Tempo";
pub const META_EVENT_SMPTE_OFFSET: &'static str = "SMPTE Offset";
pub const META_EVENT_TIME_SIGNATURE: &'static str = "Time Signature";
pub const META_EVENT_KEY_SIGNATURE: &'static str = "Key Signature";
pub const META_EVENT_SEQUENCER_SPECIFIC: &'static str = "Sequencer specific Message";
pub const META_EVENT_UNKNOWN: &'static str = "Unknown MetaEvent";

/// The error for the short read of `n` bytes from `s`.
pub open spec fn short_take(n: int, s: Seq<u8>) -> LocalError {
    LocalError::InsufficientBytesToTake(n as usize, s.len() as usize)
}

/// The name and value of a meta event of the given type with the given
/// data. Tempo events whose data is not three bytes and key signatures
/// beyond seven flats or sharps are refused with `InvalidMidiMetaEventData`.
pub open spec fn meta_event(type_byte: u8, data: Seq<u8>) -> Result<(Seq<char>, Seq<char>), LocalError> {
    if type_byte == 0x00 {
        if data.len() < 2 {
            Err(short_take(2, data))
        } else {
            Ok(
                (
                    META_EVENT_SEQUENCE_NUMBER@,
                    decimal_text(u16_value(data.take(2), Endian::Big) as nat),
                ),
            )
        }
    } else if type_byte == 0x01 {
        Ok((META_EVENT_TEXT@, utf8_lossy_text(data)))
    } else if type_byte == 0x02 {
        Ok((META_EVENT_COPYRIGHT_NOTICE@, printable_text(data)))
    } else if type_byte == 0x03 {
        Ok((META_EVENT_TRACK_NAME@, printable_text(data)))
    } else if type_byte == 0x04 {
        Ok((META_EVENT_INSTRUMENT_NAME@, printable_text(data)))
    } else if type_byte == 0x05 {
        Ok((META_EVENT_LYRICS@, printable_text(data)))
    } else if type_byte == 0x06 {
        Ok((META_EVENT_MARKER@, printable_text(data)))
    } else if type_byte == 0x07 {
        Ok((META_EVENT_CUE_POINT@, printable_text(data)))
    } else if type_byte == 0x09 {
        Ok((META_EVENT_DEVICE_NAME@, printable_text(data)))
    } else if type_byte == 0x20 || type_byte == 0x21 {
        if data.len() < 1 {
            Err(short_take(1, data))
        } else {
            Ok(
                (
                    if type_byte == 0x20 {
                        META_EVENT_CHANNEL_PREFIX@
                    } else {
                        META_EVENT_MIDI_PORT@
                    },
                    decimal_text(data[0] as nat),
                ),
            )
        }
    } else if type_byte == 0x51 {
        if data.len() != 3 {
            Err(LocalError::InvalidMidiMetaEventData(type_byte))
        } else {
            Ok((META_EVENT_SET_TEMPO@, bpm_text(data)))
        }
    } else if type_byte == 0x54 {
        if data.len() < 4 {
            Err(LocalError::InsufficientBytesToTake(1, 0))
        } else {
            Ok((META_EVENT_SMPTE_OFFSET@, smpte_offset_text(data, Endian::Big)))
        }
    } else if type_byte == 0x58 {
        Ok((META_EVENT_TIME_SIGNATURE@, time_signature_text(data)))
    } else if type_byte == 0x59 {
        if data.len() < 2 {
            Err(LocalError::InsufficientBytesToTake(1, 0))
        } else if i8_value(data[0]) < -7 || i8_value(data[0]) > 7 {
            Err(LocalError::InvalidMidiMetaEventData(type_byte))
        } else {
            Ok((META_EVENT_KEY_SIGNATURE@, key_text(i8_value(data[0]), data[1] == 0)))
        }
    } else if type_byte == 0x7F {
        Ok((META_EVENT_SEQUENCER_SPECIFIC@, sequencer_specific_text(data)))
    } else {
        Ok(
            (
                META_EVENT_UNKNOWN@,
                "Byte: 0x"@ + hex_pair_upper(type_byte) + " - "@ + printable_text(data),
            ),
        )
    }
}

/// The views of a name and value pair, or the error.
pub open spec fn pair_view(result: Result<(String, String), LocalError>) -> Result<
    (Seq<char>, Seq<char>),
    LocalError,
> {
    match result {
        Ok((name, value)) => Ok((name@, value@)),
        Err(e) => Err(e),
    }
}

/// Decodes the data of a meta event of the given type into its name and
/// value.
pub fn get_meta_event_from_event_data_by_type_byte(type_byte: u8, bytes: Vec<u8>) -> (result:
    Result<(String, String), LocalError>)
    ensures
        pair_view(result) == meta_event(type_byte, bytes@),
{
    let mut bytes = bytes;
    let ghost data = bytes@;
    match type_byte {
        0x00 => {
            match take_first_two_bytes_as_unsigned_integer(&mut bytes, Endian::Big) {
                Ok(v) => Ok(
                    (String::from_str(META_EVENT_SEQUENCE_NUMBER), decimal_string(v as u64)),
                ),
                Err(e) => Err(e),
            }
        },
        0x01 => Ok((String::from_str(META_EVENT_TEXT), utf8_lossy_string(bytes.as_slice()))),
        0x02 => Ok((String::from_str(META_EVENT_COPYRIGHT_NOTICE), printable_string(&bytes))),
        0x03 => Ok((String::from_str(META_EVENT_TRACK_NAME), printable_string(&bytes))),
        0x04 => Ok((String::from_str(META_EVENT_INSTRUMENT_NAME), printable_string(&bytes))),
        0x05 => Ok((String::from_str(META_EVENT_LYRICS), printable_string(&bytes))),
        0x06 => Ok((String::from_str(META_EVENT_MARKER), printable_string(&bytes))),
        0x07 => Ok((String::from_str(META_EVENT_CUE_POINT), printable_string(&bytes))),
        0x09 => Ok((String::from_str(META_EVENT_DEVICE_NAME), printable_string(&bytes))),
        0x20 => {
            match take_first_byte_as_unsigned_integer(&mut bytes, Endian::Big) {
                Ok(v) => Ok((String::from_str(META_EVENT_CHANNEL_PREFIX), decimal_string(v as u64))),
                Err(e) => Err(e),
            }
        },
        0x21 => {
            match take_first_byte_as_unsigned_integer(&mut bytes, Endian::Big) {
                Ok(v) => Ok((String::from_str(META_EVENT_MIDI_PORT), decimal_string(v as u64))),
                Err(e) => Err(e),
            }
        },
        0x51 => {
            if bytes.len() != 3 {
                return Err(LocalError::InvalidMidiMetaEventData(type_byte));
            }
            Ok((String::from_str(META_EVENT_SET_TEMPO), get_bpm_from_bytes(&mut bytes)))
        },
        0x54 => {
            match format_smpte_offset(&mut bytes, Endian::Big) {
                Ok(text) => Ok((String::from_str(META_EVENT_SMPTE_OFFSET), text)),
                Err(e) => Err(e),
            }
        },
        0x58 => Ok(
            (String::from_str(META_EVENT_TIME_SIGNATURE), get_time_signature_from_bytes(&mut bytes)),
        ),
        0x59 => {
            let flats = match take_first_byte_as_signed_integer(&mut bytes, Endian::Big) {
                Ok(v) => v,
                Err(e) => return Err(e),
            };
            let mode = match take_first_byte_as_unsigned_integer(&mut bytes, Endian::Big) {
                Ok(v) => v,
                Err(e) => return Err(e),
            };
            if flats < -7 || flats > 7 {
                return Err(LocalError::InvalidMidiMetaEventData(type_byte));
            }
            Ok((String::from_str(META_EVENT_KEY_SIGNATURE), get_key_from_number_of_flats(flats, mode == 0)))
        },
        0x7F => Ok(
            (
                String::from_str(META_EVENT_SEQUENCER_SPECIFIC),
                get_sequencer_specific_field_from_bytes(&mut bytes),
            ),
        ),
        _ => {
            let unknown_as_string = printable_string(&bytes);
            let mut value = String::from_str("Byte: 0x");
            push_hex_pair_upper(&mut value, type_byte);
            value.append(" - ");
            value.append(unknown_as_string.as_str());
            assert(value@ =~= "Byte: 0x"@ + hex_pair_upper(type_byte) + " - "@ + printable_text(data));
            Ok((String::from_str(META_EVENT_UNKNOWN), value))
        },
    }
}

/// One step of reading a track: stop, fail, or go on with the rest of the
/// data and possibly a meta event (delta time, name, value).
pub enum TrackStep {
    Stop,
    Fail(LocalError),
    Next(Seq<u8>, Option<(u32, Seq<char>, Seq<char>)>),
}

/// Reads the data of an event whose length has been read: a zero length,
/// or one longer than what is left, ends the track; the data of a meta
/// event is decoded, other events are passed over.
pub open spec fn track_step_data(
    delta: u32,
    event_id: u8,
    type_byte: u8,
    length: nat,
    s: Seq<u8>,
) -> TrackStep {
    if length == 0 || s.len() < length {
        TrackStep::Stop
    } else if event_id == META_EVENT_ID_BYTE_VALUE {
        match meta_event(type_byte, s.take(length as int)) {
            Ok((name, value)) => TrackStep::Next(s.skip(length as int), Some((delta, name, value))),
            Err(e) => TrackStep::Fail(e),
        }
    } else {
        TrackStep::Next(s.skip(length as int), None)
    }
}

/// One event of a track: delta time, event ID byte, type byte, then the
/// length (a delta-time style field for meta and sysex events, one byte
/// otherwise) and the data. The end-of-track meta event stops the reading.
pub open spec fn track_step(s: Seq<u8>) -> TrackStep {
    let delta = variable_length_value(s) as u32;
    let s1 = s.skip(variable_length_size(s) as int);
    if s1.len() < 1 {
        TrackStep::Fail(LocalError::InsufficientBytesToTake(1, 0))
    } else if s1.len() < 2 {
        TrackStep::Fail(LocalError::InsufficientBytesToTake(1, 0))
    } else {
        let event_id = s1[0];
        let type_byte = s1[1];
        let s3 = s1.skip(2);
        if type_byte == META_EVENT_END_OFF_TRACK_BYTE_VALUE && event_id == META_EVENT_ID_BYTE_VALUE {
            TrackStep::Stop
        } else if event_id == META_EVENT_ID_BYTE_VALUE || type_byte == SYSEX_EVENT_ID_BYTE_VALUE {
            track_step_data(
                delta,
                event_id,
                type_byte,
                variable_length_value(s3),
                s3.skip(variable_length_size(s3) as int),
            )
        } else if s3.len() < 1 {
            TrackStep::Fail(LocalError::InsufficientBytesToTake(1, 0))
        } else {
            track_step_data(delta, event_id, type_byte, s3[0] as nat, s3.skip(1))
        }
    }
}

/// The meta events of a track, in order, as (track number, delta time,
/// name, value), or the first error met.
pub open spec fn track_events(track_number: u16, s: Seq<u8>) -> Result<
    Seq<(u16, u32, Seq<char>, Seq<char>)>,
    LocalError,
>
    decreases s.len(),
{
    match track_step(s) {
        TrackStep::Stop => Ok(Seq::empty()),
        TrackStep::Fail(e) => Err(e),
        TrackStep::Next(rest, event) => {
            if rest.len() < s.len() {
                match track_events(track_number, rest) {
                    Ok(events) => Ok(
                        match event {
                            Some((delta, name, value)) => seq![
                                (track_number, delta, name, value),
                            ] + events,
                            None => events,
                        },
                    ),
                    Err(e) => Err(e),
                }
            } else {
                Err(LocalError::InsufficientBytesToTake(1, 0))
            }
        },
    }
}

/// The view of a meta event.
pub open spec fn event_view(e: MetaEvent) -> (u16, u32, Seq<char>, Seq<char>) {
    (e.track_number, e.delta_time, e.name@, e.value@)
}

/// The views of a list of meta events.
pub open spec fn events_view(events: Seq<MetaEvent>) -> Seq<(u16, u32, Seq<char>, Seq<char>)> {
    events.map_values(|e: MetaEvent| event_view(e))
}

/// A result with `prefix` in front of its events.
pub open spec fn prefixed(
    prefix: Seq<(u16, u32, Seq<char>, Seq<char>)>,
    result: Result<Seq<(u16, u32, Seq<char>, Seq<char>)>, LocalError>,
) -> Result<Seq<(u16, u32, Seq<char>, Seq<char>)>, LocalError> {
    match result {
        Ok(events) => Ok(prefix + events),
        Err(e) => Err(e),
    }
}

/// The views of a result holding meta events.
pub open spec fn events_result_view(result: Result<Vec<MetaEvent>, LocalError>) -> Result<
    Seq<(u16, u32, Seq<char>, Seq<char>)>,
    LocalError,
> {
    match result {
        Ok(events) => Ok(events_view(events@)),
        Err(e) => Err(e),
    }
}

/// Reads the meta events of one track's data, up to its end-of-track
/// event (or to an event that cannot be read whole).
pub fn get_midi_meta_events_from_track_data(track_number: u16, track_data: Vec<u8>) -> (result:
    Result<Vec<MetaEvent>, LocalError>)
    ensures
        events_result_view(result) == track_events(track_number, track_data@),
{
    let mut data = track_data;
    let ghost start = track_data@;
    let mut meta_events: Vec<MetaEvent> = Vec::new();
    loop
        invariant
            start == track_data@,
            track_events(track_number, start) == prefixed(
                events_view(meta_events@),
                track_events(track_number, data@),
            ),
        decreases data@.len(),
    {
        let ghost s = data@;
        let delta_time = get_variable_length_unsigned_integer_from_track_data(&mut data);
        let ghost s1 = data@;
        let meta_event_id = match take_first_byte(&mut data) {
            Ok(b) => b,
            Err(e) => {
                assert(track_step(s) == TrackStep::Fail(LocalError::InsufficientBytesToTake(1, 0)));
                assert(track_events(track_number, s) == Err::<
                    Seq<(u16, u32, Seq<char>, Seq<char>)>,
                    LocalError,
                >(LocalError::InsufficientBytesToTake(1, 0)));
                return Err(e);
            },
        };
        let meta_event_type = match take_first_byte(&mut data) {
            Ok(b) => b,
            Err(e) => {
                assert(track_step(s) == TrackStep::Fail(LocalError::InsufficientBytesToTake(1, 0)));
                assert(track_events(track_number, s) == Err::<
                    Seq<(u16, u32, Seq<char>, Seq<char>)>,
                    LocalError,
                >(LocalError::InsufficientBytesToTake(1, 0)));
                return Err(e);
            },
        };
        let ghost s3 = data@;
        assert(s3 =~= s1.skip(2));
        if meta_event_type == META_EVENT_END_OFF_TRACK_BYTE_VALUE && meta_event_id
            == META_EVENT_ID_BYTE_VALUE {
            assert(track_events(track_number, s) == Ok::<
                Seq<(u16, u32, Seq<char>, Seq<char>)>,
                LocalError,
            >(Seq::empty()));
            assert(events_view(meta_events@) + Seq::empty() =~= events_view(meta_events@));
            return Ok(meta_events);
        }
        let meta_event_data_length: u32 = if meta_event_id == META_EVENT_ID_BYTE_VALUE
            || meta_event_type == SYSEX_EVENT_ID_BYTE_VALUE {
            get_variable_length_unsigned_integer_from_track_data(&mut data)
        } else {
            match take_first_byte_as_unsigned_integer(&mut data, Endian::Big) {
                Ok(b) => b as u32,
                Err(e) => {
                    assert(track_events(track_number, s) == Err::<
                        Seq<(u16, u32, Seq<char>, Seq<char>)>,
                        LocalError,
                    >(LocalError::InsufficientBytesToTake(1, 0)));
                    return Err(e);
                },
            }
        };
        assert(track_step(s) == track_step_data(
            delta_time,
            meta_event_id,
            meta_event_type,
            meta_event_data_length as nat,
            data@,
        ));
        if meta_event_data_length == 0 || data.len() < meta_event_data_length as usize {
            assert(track_events(track_number, s) == Ok::<
                Seq<(u16, u32, Seq<char>, Seq<char>)>,
                LocalError,
            >(Seq::empty()));
            assert(events_view(meta_events@) + Seq::empty() =~= events_view(meta_events@));
            return Ok(meta_events);
        }
        let meta_event_data = match take_first_number_of_bytes(
            &mut data,
            meta_event_data_length as usize,
        ) {
            Ok(d) => d,
            Err(e) => {
                return Err(e);
            },
        };
        assert(data@.len() < s.len());
        if meta_event_id == META_EVENT_ID_BYTE_VALUE {
            let (name, value) = match get_meta_event_from_event_data_by_type_byte(
                meta_event_type,
                meta_event_data,
            ) {
                Ok(pair) => pair,
                Err(e) => {
                    assert(track_events(track_number, s) == Err::<
                        Seq<(u16, u32, Seq<char>, Seq<char>)>,
                        LocalError,
                    >(e));
                    return Err(e);
                },
            };
            let ghost before = events_view(meta_events@);
            let ghost ev = (track_number, delta_time, name@, value@);
            meta_events.push(MetaEvent { track_number, delta_time, name, value });
            assert(events_view(meta_events@) =~= before.push(ev));
            proof {
                match track_events(track_number, data@) {
                    Ok(events) => {
                        assert(before + (seq![ev] + events) =~= before.push(ev) + events);
                    },
                    Err(_) => {},
                }
            }
        }
    }
}

/// The data of the chunk at the start of `s`: a four byte chunk ID, a four
/// byte big-endian size and that many bytes of data; or the error of the
/// first field that is cut short.
pub open spec fn track_chunk(s: Seq<u8>) -> Result<Seq<u8>, LocalError> {
    if s.len() < 4 {
        Err(short_take(4, s))
    } else if s.len() < 8 {
        Err(short_take(4, s.skip(4)))
    } else if s.len() - 8 < u32_value(s.subrange(4, 8), Endian::Big) {
        Err(short_take(u32_value(s.subrange(4, 8), Endian::Big), s.skip(8)))
    } else {
        Ok(s.subrange(8, 8 + u32_value(s.subrange(4, 8), Endian::Big)))
    }
}

/// What is left of `s` once the chunk at its start has been read (as far
/// as it could be).
pub open spec fn track_chunk_rest(s: Seq<u8>) -> Seq<u8> {
    if s.len() < 4 {
        s
    } else if s.len() < 8 {
        s.skip(4)
    } else if s.len() - 8 < u32_value(s.subrange(4, 8), Endian::Big) {
        s.skip(8)
    } else {
        s.skip(8 + u32_value(s.subrange(4, 8), Endian::Big))
    }
}

/// Takes one chunk (ID, size, data) from the MIDI data and returns its data.
pub fn get_track_data_from_midi_data(midi_data: &mut Vec<u8>) -> (result: Result<Vec<u8>, LocalError>)
    ensures
        match result {
            Ok(data) => track_chunk(old(midi_data)@) == Ok::<Seq<u8>, LocalError>(data@),
            Err(e) => track_chunk(old(midi_data)@) == Err::<Seq<u8>, LocalError>(e),
        },
        final(midi_data)@ == track_chunk_rest(old(midi_data)@),
{
    let ghost s = midi_data@;
    match take_first_number_of_bytes(midi_data, CHUNK_ID_LENGTH_IN_BYTES) {
        Ok(_) => {},
        Err(e) => return Err(e),
    }
    let track_chunk_size = match take_first_four_bytes_as_unsigned_integer(midi_data, Endian::Big) {
        Ok(v) => v,
        Err(e) => return Err(e),
    };
    assert(s.skip(4).take(4) =~= s.subrange(4, 8));
    assert(s.skip(4).skip(4) =~= s.skip(8));
    let result = take_first_number_of_bytes(midi_data, track_chunk_size as usize);
    proof {
        if s.len() - 8 >= track_chunk_size {
            assert(s.skip(8).take(track_chunk_size as int) =~= s.subrange(
                8,
                8 + track_chunk_size as int,
            ));
            assert(s.skip(8).skip(track_chunk_size as int) =~= s.skip(8 + track_chunk_size as int));
        }
    }
    result
}

/// The view of a header: format text, number of tracks, division.
pub open spec fn header_view(h: Header) -> (Seq<char>, u16, Division) {
    (h.format@, h.number_of_tracks, h.division)
}

/// The header held by the MIDI data: from the first chunk's data, the
/// format number, the number of tracks and the division, two bytes each,
/// big-endian.
pub open spec fn midi_header(s: Seq<u8>) -> Result<(Seq<char>, u16, Division), LocalError> {
    match track_chunk(s) {
        Err(e) => Err(e),
        Ok(t) => {
            if t.len() < 2 {
                Err(short_take(2, t))
            } else if t.len() < 4 {
                Err(short_take(2, t.skip(2)))
            } else if t.len() < 6 {
                Err(short_take(2, t.skip(4)))
            } else {
                Ok(
                    (
                        file_format_text(u16_value(t.take(2), Endian::Big) as u16),
                        u16_value(t.subrange(2, 4), Endian::Big) as u16,
                        division_of(t[4], t[5]),
                    ),
                )
            }
        },
    }
}

/// Reads the header chunk at the start of the MIDI data.
pub fn get_header_metadata_from_midi_data(midi_data: &mut Vec<u8>) -> (result: Result<
    Header,
    LocalError,
>)
    ensures
        match result {
            Ok(h) => midi_header(old(midi_data)@) == Ok::<(Seq<char>, u16, Division), LocalError>(
                header_view(h),
            ),
            Err(e) => midi_header(old(midi_data)@) == Err::<(Seq<char>, u16, Division), LocalError>(
                e,
            ),
        },
        final(midi_data)@ == track_chunk_rest(old(midi_data)@),
{
    let mut header_track_data = match get_track_data_from_midi_data(midi_data) {
        Ok(t) => t,
        Err(e) => return Err(e),
    };
    let ghost t = header_track_data@;
    let raw_format = match take_first_two_bytes_as_unsigned_integer(
        &mut header_track_data,
        Endian::Big,
    ) {
        Ok(v) => v,
        Err(e) => return Err(e),
    };
    let format = get_file_format_from_raw_format_number(raw_format);
    let number_of_tracks = match take_first_two_bytes_as_unsigned_integer(
        &mut header_track_data,
        Endian::Big,
    ) {
        Ok(v) => v,
        Err(e) => return Err(e),
    };
    assert(t.skip(2).take(2) =~= t.subrange(2, 4));
    let raw_division = match take_first_number_of_bytes(
        &mut header_track_data,
        MIDI_HEADER_CHUNK_DIVISION_LENGTH_IN_BYTES,
    ) {
        Ok(v) => v,
        Err(e) => {
            assert(t.skip(2).skip(2) =~= t.skip(4));
            return Err(e);
        },
    };
    assert(raw_division@[0] == t[4]);
    assert(raw_division@[1] == t[5]);
    let division = get_division_output_values_from_raw_division_bytes(raw_division);
    Ok(Header { format, number_of_tracks, division })
}

/// The meta events of the tracks numbered `first` to `last`, one chunk
/// each, in order, or the first error met.
pub open spec fn tracks_events(s: Seq<u8>, first: nat, last: nat) -> Result<
    Seq<(u16, u32, Seq<char>, Seq<char>)>,
    LocalError,
>
    decreases last + 1 - first,
{
    if first > last {
        Ok(Seq::empty())
    } else {
        match track_chunk(s) {
            Err(e) => Err(e),
            Ok(t) => match track_events(first as u16, t) {
                Err(e) => Err(e),
                Ok(events) => prefixed(events, tracks_events(track_chunk_rest(s), first + 1, last)),
            },
        }
    }
}

/// Reads `number_of_tracks` track chunks and gathers their meta events,
/// tracks numbered from 1.
pub fn get_meta_events_from_track_data(midi_data: &mut Vec<u8>, number_of_tracks: u16) -> (result:
    Result<Vec<MetaEvent>, LocalError>)
    ensures
        events_result_view(result) == tracks_events(old(midi_data)@, 1, number_of_tracks as nat),
{
    let ghost start = midi_data@;
    let mut meta_events: Vec<MetaEvent> = Vec::new();
    let mut track_number: u32 = 1;
    assert(events_view(meta_events@) + Seq::empty() =~= events_view(meta_events@));
    while track_number <= number_of_tracks as u32
        invariant
            1 <= track_number <= number_of_tracks as u32 + 1,
            start == old(midi_data)@,
            tracks_events(start, 1, number_of_tracks as nat) == prefixed(
                events_view(meta_events@),
                tracks_events(midi_data@, track_number as nat, number_of_tracks as nat),
            ),
        decreases number_of_tracks as u32 + 1 - track_number,
    {
        let ghost s = midi_data@;
        let track_data = match get_track_data_from_midi_data(midi_data) {
            Ok(t) => t,
            Err(e) => return Err(e),
        };
        let mut events = match get_midi_meta_events_from_track_data(track_number as u16, track_data) {
            Ok(v) => v,
            Err(e) => return Err(e),
        };
        let ghost before = events_view(meta_events@);
        let ghost added = events_view(events@);
        meta_events.append(&mut events);
        assert(events_view(meta_events@) =~= before + added);
        proof {
            match tracks_events(midi_data@, track_number as nat + 1, number_of_tracks as nat) {
                Ok(rest) => {
                    assert(before + (added + rest) =~= (before + added) + rest);
                },
                Err(_) => {},
            }
        }
        track_number = track_number + 1;
    }
    assert(events_view(meta_events@) + Seq::empty() =~= events_view(meta_events@));
    Ok(meta_events)
}

/// The metadata of MIDI data: its header and the meta events of its tracks.
#[derive(Debug, Clone, PartialEq)]
pub struct MidiMetadata {
    pub header: Header,
    pub meta_events: Vec<MetaEvent>,
}

/// The header and meta events held by MIDI data: the header chunk, then as
/// many track chunks as the header names.
pub open spec fn midi_metadata(s: Seq<u8>) -> Result<
    ((Seq<char>, u16, Division), Seq<(u16, u32, Seq<char>, Seq<char>)>),
    LocalError,
> {
    match midi_header(s) {
        Err(e) => Err(e),
        Ok(h) => match tracks_events(track_chunk_rest(s), 1, h.1 as nat) {
            Err(e) => Err(e),
            Ok(events) => Ok((h, events)),
        },
    }
}

/// Reads the header and all track meta events of MIDI data.
pub fn get_metadata_from_midi_data(midi_data: &mut Vec<u8>) -> (result: Result<
    MidiMetadata,
    LocalError,
>)
    ensures
        match result {
            Ok(m) => midi_metadata(old(midi_data)@) == Ok::<
                ((Seq<char>, u16, Division), Seq<(u16, u32, Seq<char>, Seq<char>)>),
                LocalError,
            >((header_view(m.header), events_view(m.meta_events@))),
            Err(e) => midi_metadata(old(midi_data)@) == Err::<
                ((Seq<char>, u16, Division), Seq<(u16, u32, Seq<char>, Seq<char>)>),
                LocalError,
            >(e),
        },
{
    let header = match get_header_metadata_from_midi_data(midi_data) {
        Ok(h) => h,
        Err(e) => return Err(e),
    };
    let meta_events = match get_meta_events_from_track_data(midi_data, header.number_of_tracks) {
        Ok(v) => v,
        Err(e) => return Err(e),
    };
    Ok(MidiMetadata { header, meta_events })
}

/// The template of a MIDI header's report entry.
pub const MIDI_HEADER_TEMPLATE: &'static str = "\n-------------\nMIDI Header Details:\n-------------\nFormat: {{ format }}\nNumber of Tracks: {{ number_of_tracks }}\nPPQN: {{ ppqn }}\nTimecode: {{ timecode }}\nTicks per Frame: {{ ticks_per_frame }}";
/// The template of the report entry of a MIDI file's meta events.
pub const MIDI_EVENTS_TEMPLATE: &'static str = "\n-------------\nMIDI Meta Events:\n-------------{{ meta_event_data }}";

/// The values a MIDI header is rendered from.
pub open spec fn midi_header_values(h: (Seq<char>, u16, Division)) -> Seq<(Seq<char>, Seq<char>)> {
    seq![
        ("format"@, h.0),
        ("number_of_tracks"@, decimal_text(h.1 as nat)),
        ("ppqn"@, decimal_text(h.2.ppqn as nat)),
        ("timecode"@, decimal_text(h.2.timecode as nat)),
        ("ticks_per_frame"@, decimal_text(h.2.ticks_per_frame as nat)),
    ]
}

/// The line of a meta event: `Track {track} | {delta time} | {name} : {value}`.
pub open spec fn event_line(e: (u16, u32, Seq<char>, Seq<char>)) -> Seq<char> {
    "Track "@ + decimal_text(e.0 as nat) + " | "@ + decimal_text(e.1 as nat) + " | "@ + e.2 + " : "@ + e.3
}

/// The two report entries of MIDI data: the header under `Mandatory`, then
/// a line for each meta event of all tracks under `Optional`; or the
/// decoding error, or the first render error.
pub open spec fn midi_entries_is(data: Seq<u8>, result: Result<Vec<OutputEntry>, LocalError>) -> bool {
    match midi_metadata(data) {
        Err(e) => result == Err::<Vec<OutputEntry>, LocalError>(e),
        Ok((h, events)) => match upon_rendered_text(MIDI_HEADER_TEMPLATE@, midi_header_values(h)) {
            Err(m) => result matches Err(LocalError::CouldNotRenderOutput(x)) && x@ == m,
            Ok(header_text) => match upon_rendered_text(
                MIDI_EVENTS_TEMPLATE@,
                seq![("meta_event_data"@, own_lines(events.map_values(|e: (u16, u32, Seq<char>, Seq<char>)| event_line(e))))],
            ) {
                Err(m) => result matches Err(LocalError::CouldNotRenderOutput(x)) && x@ == m,
                Ok(events_text) => result matches Ok(v) && v@.len() == 2 && v@[0].section == Section::Mandatory
                    && v@[0].text@ == header_text && v@[1].section == Section::Optional && v@[1].text@
                    == events_text,
            },
        },
    }
}

/// The line of a meta event.
pub open spec fn meta_event_line(e: MetaEvent) -> Seq<char> {
    event_line(event_view(e))
}

/// The lines of a list of items, in order.
fn meta_event_lines(items: &Vec<MetaEvent>) -> (text: String)
    ensures
        text@ == own_lines(items@.map_values(|x: MetaEvent| meta_event_line(x))),
{
    let mut lines: Vec<String> = Vec::new();
    let mut i: usize = 0;
    while i < items.len()
        invariant
            i <= items@.len(),
            lines_view(lines@) =~= items@.take(i as int).map_values(|x: MetaEvent| meta_event_line(x)),
        decreases items@.len() - i,
    {
        let ghost before = lines_view(lines@);
        let item = &items[i];
        let mut line = String::from_str("Track ");
        push_decimal(&mut line, item.track_number as u64);
        line.append(" | ");
        push_decimal(&mut line, item.delta_time as u64);
        line.append(" | ");
        line.append(item.name.as_str());
        line.append(" : ");
        line.append(item.value.as_str());
        lines.push(line);
        assert(lines_view(lines@) =~= before.push(meta_event_line(items@[i as int])));
        assert(items@.take(i + 1) =~= items@.take(i as int).push(items@[i as int]));
        i = i + 1;
    }
    assert(items@.take(i as int) =~= items@);
    join_on_own_lines(&lines)
}

/// Reads MIDI data and renders its two report entries: the header, then the
/// meta events of all its tracks.
pub fn get_midi_entries(midi_data: &mut Vec<u8>) -> (result: Result<Vec<OutputEntry>, LocalError>)
    ensures
        midi_entries_is(old(midi_data)@, result),
{
    let midi = match get_metadata_from_midi_data(midi_data) {
        Ok(m) => m,
        Err(e) => return Err(e),
    };
    let ghost events = events_view(midi.meta_events@);
    let header_values = vec![
        named("format", midi.header.format.clone()),
        named("number_of_tracks", decimal_string(midi.header.number_of_tracks as u64)),
        named("ppqn", decimal_string(midi.header.division.ppqn as u64)),
        named("timecode", decimal_string(midi.header.division.timecode as u64)),
        named("ticks_per_frame", decimal_string(midi.header.division.ticks_per_frame as u64)),
    ];
    assert(values_view(header_values@) =~= midi_header_values(header_view(midi.header)));
    let header_entry = match render_entry(Section::Mandatory, MIDI_HEADER_TEMPLATE, &header_values) {
        Ok(e) => e,
        Err(e) => return Err(e),
    };
    let lines = meta_event_lines(&midi.meta_events);
    assert(midi.meta_events@.map_values(|e: MetaEvent| meta_event_line(e)) =~= events.map_values(
        |e: (u16, u32, Seq<char>, Seq<char>)| event_line(e),
    ));
    let event_values = vec![named("meta_event_data", lines)];
    assert(values_view(event_values@) =~= seq![
        ("meta_event_data"@, own_lines(events.map_values(|e: (u16, u32, Seq<char>, Seq<char>)| event_line(e)))),
    ]);
    let events_entry = match render_entry(Section::Optional, MIDI_EVENTS_TEMPLATE, &event_values) {
        Ok(e) => e,
        Err(e) => return Err(e),
    };
    Ok(vec![header_entry, events_entry])
}

/// The tonic of a key signature follows the circle of fifths: each flat
/// moves the major tonic a fourth (five semitones) up from C, each sharp a
/// fifth up, and the minor tonic is the relative minor, three semitones
/// below the major one.
pub proof fn key_centers_follow_the_circle_of_fifths(flats: int, is_major: bool)
    requires
        -7 <= flats <= 7,
    ensures
        1 <= key_center(flats, is_major).len() <= 2,
        is_note_letter(key_center(flats, is_major)[0]),
        pitch_class(key_center(flats, is_major)) == if is_major {
            (5 * flats) % 12
        } else {
            (5 * flats + 9) % 12
        },
{
    {
        reveal_strlit("B");
        reveal_strlit("Gb");
        reveal_strlit("Db");
        reveal_strlit("Ab");
        reveal_strlit("Eb");
        reveal_strlit("Bb");
        reveal_strlit("F");
        reveal_strlit("C");
        reveal_strlit("G");
        reveal_strlit("D");
        reveal_strlit("A");
        reveal_strlit("E");
        reveal_strlit("F#");
        reveal_strlit("C#");
        reveal_strlit("G#");
        reveal_strlit("D#");
        reveal_strlit("A#");
    }
}

/// The header of MIDI data is its first chunk: after the four byte chunk
/// ID, a size of bytes 4 to 7 (most significant first), then the format
/// (bytes 8 and 9), the number of tracks (bytes 10 and 11) and the division
/// (bytes 12 and 13), all most significant first; a division with its top
/// bit set counts SMPTE frames, else ticks per quarter note.
pub proof fn midi_header_is_big_endian(s: Seq<u8>)
    requires
        midi_header(s) is Ok,
    ensures
        s.len() >= 14,
        be32(s, 4) >= 6,
        ({
            let (format, tracks, division) = midi_header(s)->Ok_0;
            &&& format == file_format_text((256 * s[8] + s[9]) as u16)
            &&& tracks == 256 * s[10] + s[11]
            &&& s[12] < 128 ==> division.ppqn == 256 * s[12] + s[13] && division.timecode == 0
            &&& s[12] >= 128 ==> division.ppqn == 0 && division.timecode == s[12] - 128
                && division.ticks_per_frame == s[13]
        }),
{
    let t = s.subrange(8, 8 + be32(s, 4));
    assert(t.take(2) =~= s.subrange(8, 10));
    assert(t.subrange(2, 4) =~= s.subrange(10, 12));
    assert(t[4] == s[12] && t[5] == s[13]);
}

/// A Set Tempo event's three bytes are microseconds per quarter note, most
/// significant first; the tempo shown is the whole number of beats a minute,
/// `n` with `n` beats taking at most a minute and `n + 1` beats more.
pub proof fn tempo_is_whole_beats_per_minute(data: Seq<u8>, n: nat)
    requires
        data.len() == 3,
        ({
            let microseconds = 65536 * data[0] + 256 * data[1] + data[2];
            microseconds > 0 && n * microseconds <= 60000000 < (n + 1) * microseconds
        }),
    ensures
        meta_event(0x51, data) == Ok::<(Seq<char>, Seq<char>), LocalError>(
            (META_EVENT_SET_TEMPO@, decimal_text(n)),
        ),
{
    let m: int = 65536 * data[0] + 256 * data[1] + data[2];
    let q = 60000000int / m;
    assert(q == n) by (nonlinear_arith)
        requires
            m > 0,
            n * m <= 60000000 < (n + 1) * m,
            q == 60000000int / m,
    ;
}

/// A Key Signature event names the key of its first byte, read as a
/// signed byte counting flats (a negative count is sharps), and of its
/// second byte, 0 for major and anything else for minor: each flat moves the
/// tonic a fourth up from C major (A minor), each sharp a fifth up.
pub proof fn key_signatures_name_their_tonic(data: Seq<u8>)
    requires
        data.len() >= 2,
        meta_event(0x59, data) is Ok,
    ensures
        ({
            let flats = if data[0] >= 128 { data[0] - 256 } else { data[0] as int };
            let (name, text) = meta_event(0x59, data)->Ok_0;
            &&& name == META_EVENT_KEY_SIGNATURE@
            &&& -7 <= flats <= 7
            &&& is_note_letter(text[0])
            &&& pitch_class(text) == if data[1] == 0 {
                (5 * flats) % 12
            } else {
                (5 * flats + 9) % 12
            }
        }),
{
    let flats = if data[0] >= 128 { data[0] - 256 } else { data[0] as int };
    key_centers_follow_the_circle_of_fifths(flats, data[1] == 0);
    let center = key_center(flats, data[1] == 0);
    let text = key_text(flats, data[1] == 0);
    assert(text[0] == center[0]);
    assert(center.len() > 1 ==> text[1] == center[1]);
    assert(center.len() == 1 ==> text[1] == ' ');
}

} // verus!
