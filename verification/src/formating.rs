use crate::byte_arrays::{
    i8_value, printable_string, printable_text, take_first_byte, take_first_byte_as_signed_integer,
    Endian,
};
use crate::errors::LocalError;
use crate::strings::{
    decimal_text, hex_pair_lower, push_char, push_decimal, push_hex_pair_lower, push_signed_decimal,
    signed_decimal_text, spaces, spaces_string,
};
use vstd::prelude::*;

verus! {

/// Seconds between the Mac HFS epoch (1904-01-01) and the Unix epoch.
pub const MAC_HFS_FORMAT_TIMESTAMP_OFFSET: u32 = 2082844800;

/// Spacer length used when there are no keys to measure.
pub const DEFAULT_SPACER_LENGTH: usize = 5;

/// A key and its value, with the spaces that align the values of a list.
#[derive(Debug, Clone, PartialEq)]
pub struct KeyValuePair {
    pub key: String,
    pub spacer: String,
    pub value: String,
}

/// Length in bytes of the UTF-8 encoding of a text.
pub open spec fn byte_len(s: Seq<char>) -> nat {
    vstd::utf8::encode_utf8(s).len()
}

/// Hexadecimal bytes, lower case, two digits each, separated by one space.
pub open spec fn hex_bytes_text(s: Seq<u8>) -> Seq<char>
    decreases s.len(),
{
    if s.len() == 0 {
        Seq::empty()
    } else if s.len() == 1 {
        hex_pair_lower(s[0])
    } else {
        hex_bytes_text(s.drop_last()) + seq![' '] + hex_pair_lower(s.last())
    }
}

/// Formats bytes as their hexadecimal values, e.g. `01 02 3a 4b`.
pub fn format_bytes_as_string_of_bytes(bytes: &[u8]) -> (text: String)
    ensures
        text@ == hex_bytes_text(bytes@),
{
    let mut text = String::new();
    let mut i: usize = 0;
    while i < bytes.len()
        invariant
            i <= bytes@.len(),
            text@ == hex_bytes_text(bytes@.take(i as int)),
        decreases bytes@.len() - i,
    {
        assert(bytes@.take(i + 1).drop_last() =~= bytes@.take(i as int));
        if i > 0 {
            push_char(&mut text, ' ');
        }
        push_hex_pair_lower(&mut text, bytes[i]);
        i = i + 1;
        assert(text@ =~= hex_bytes_text(bytes@.take(i as int)));
    }
    assert(bytes@.take(i as int) =~= bytes@);
    text
}

/// The text of raw bytes: the printable ASCII bytes, in order; NUL bytes,
/// control characters and non-ASCII bytes are dropped.
pub fn format_bytes_as_string(byte_data: Vec<u8>) -> (result: Result<String, LocalError>)
    ensures
        result matches Ok(text) && text@ == printable_text(byte_data@),
{
    Ok(printable_string(&byte_data))
}

/// The note names of one octave, starting at C.
pub open spec fn note_letters(offset: int) -> Seq<char> {
    if offset == 0 {
        "C"@
    } else if offset == 1 {
        "C#/Db"@
    } else if offset == 2 {
        "D"@
    } else if offset == 3 {
        "D#/Eb"@
    } else if offset == 4 {
        "E"@
    } else if offset == 5 {
        "F"@
    } else if offset == 6 {
        "F#/Gb"@
    } else if offset == 7 {
        "G"@
    } else if offset == 8 {
        "G#/Ab"@
    } else if offset == 9 {
        "A"@
    } else if offset == 10 {
        "A#/Bb"@
    } else {
        "B"@
    }
}

/// The name of a MIDI note number: the note letter followed by the octave,
/// where note 0 is `C-2`.
pub open spec fn note_name_text(midi_note_number: nat) -> Seq<char> {
    note_letters((midi_note_number % 12) as int) + signed_decimal_text(
        midi_note_number as int / 12 - 2,
    )
}

/// The note letters of one octave as a string.
pub fn note_letters_string(offset: u32) -> (text: String)
    requires
        offset < 12,
    ensures
        text@ == note_letters(offset as int),
{
    match offset {
        0 => String::from_str("C"),
        1 => String::from_str("C#/Db"),
        2 => String::from_str("D"),
        3 => String::from_str("D#/Eb"),
        4 => String::from_str("E"),
        5 => String::from_str("F"),
        6 => String::from_str("F#/Gb"),
        7 => String::from_str("G"),
        8 => String::from_str("G#/Ab"),
        9 => String::from_str("A"),
        10 => String::from_str("A#/Bb"),
        _ => String::from_str("B"),
    }
}

/// Formats a MIDI note number as a note name, e.g. 66 is `F#/Gb3`.
/// Note numbers from 2^24 on are left out: there a 32-bit float, in which
/// the octave is worked out, no longer holds every note number exactly.
pub fn format_midi_note_number_as_note_name(midi_note_number: u32) -> (text: String)
    requires
        midi_note_number < 16777216,
    ensures
        text@ == note_name_text(midi_note_number as nat),
{
    let offset = midi_note_number % 12;
    let mut text = note_letters_string(offset);
    let octave: i64 = (midi_note_number / 12) as i64 - 2;
    push_signed_decimal(&mut text, octave);
    text
}

/// Name for the final component of a path as `std::path::Path::file_name`
/// gives it, converted to a string.
pub uninterp spec fn path_file_name(path: Seq<char>) -> Option<Seq<char>>;

/// Calls `std::path::Path::file_name` on the path and converts the name to
/// a string. The contract only ties the result to the name
/// `path_file_name`: what the final component of a path is (the handling
/// of `..`, `.`, roots and trailing separators) is left to std.
#[verifier::external_body]
fn file_name_of_path(file_path: &str) -> (name: Option<String>)
    ensures
        match name {
            Some(n) => path_file_name(file_path@) == Some(n@),
            None => path_file_name(file_path@) is None,
        },
{
    std::path::Path::new(file_path).file_name().map(|n| n.to_string_lossy().to_string())
}

/// The file name of a path, or `InvalidFileName` when the path has none.
pub fn file_name_or_error(file_name: Option<String>) -> (result: Result<String, LocalError>)
    ensures
        match file_name {
            Some(n) => result matches Ok(r) && r@ == n@,
            None => result == Err::<String, LocalError>(LocalError::InvalidFileName),
        },
{
    match file_name {
        Some(n) => Ok(n),
        None => Err(LocalError::InvalidFileName),
    }
}

/// The final component of a file path, e.g. `filename.wav` for
/// `/test/path/filename.wav`; `InvalidFileName` when there is none.
pub fn get_file_name_from_file_path(file_path: &str) -> (result: Result<String, LocalError>)
    ensures
        match path_file_name(file_path@) {
            Some(n) => result matches Ok(r) && r@ == n,
            None => result == Err::<String, LocalError>(LocalError::InvalidFileName),
        },
{
    file_name_or_error(file_name_of_path(file_path))
}

/// The text of an SMPTE offset: `{hours}h:{minutes}m:{seconds}s & {samples} samples`.
pub open spec fn smpte_text(hours: int, minutes: nat, seconds: nat, samples: nat) -> Seq<char> {
    signed_decimal_text(hours) + "h:"@ + decimal_text(minutes) + "m:"@ + decimal_text(seconds)
        + "s & "@ + decimal_text(samples) + " samples"@
}

/// The SMPTE offset held by the first four bytes: hours (signed), minutes,
/// seconds and samples, in that order for little endian and in the reverse
/// order for big endian.
pub open spec fn smpte_offset_text(b: Seq<u8>, endian: Endian) -> Seq<char> {
    match endian {
        Endian::Little => smpte_text(i8_value(b[0]), b[1] as nat, b[2] as nat, b[3] as nat),
        Endian::Big => smpte_text(i8_value(b[3]), b[2] as nat, b[1] as nat, b[0] as nat),
    }
}

/// Builds the SMPTE offset text from its four fields.
fn smpte_string(hours: i8, minutes: u8, seconds: u8, samples: u8) -> (text: String)
    ensures
        text@ == smpte_text(hours as int, minutes as nat, seconds as nat, samples as nat),
{
    let mut text = String::new();
    push_signed_decimal(&mut text, hours as i64);
    text.append("h:");
    push_decimal(&mut text, minutes as u64);
    text.append("m:");
    push_decimal(&mut text, seconds as u64);
    text.append("s & ");
    push_decimal(&mut text, samples as u64);
    text.append(" samples");
    assert(text@ =~= smpte_text(hours as int, minutes as nat, seconds as nat, samples as nat));
    text
}

/// Takes the four bytes of an SMPTE offset and formats them, e.g.
/// `1h:2m:3s & 4 samples`. With fewer than four bytes every byte is
/// consumed and the error is the failed take of one byte.
pub fn format_smpte_offset(smpte_offset_bytes: &mut Vec<u8>, endianness: Endian) -> (result: Result<
    String,
    LocalError,
>)
    ensures
        old(smpte_offset_bytes)@.len() >= 4 ==> (result matches Ok(text) && text@
            == smpte_offset_text(old(smpte_offset_bytes)@, endianness)),
        old(smpte_offset_bytes)@.len() >= 4 ==> final(smpte_offset_bytes)@ == old(smpte_offset_bytes)@.skip(4),
        old(smpte_offset_bytes)@.len() < 4 ==> result == Err::<String, LocalError>(
            LocalError::InsufficientBytesToTake(1, 0),
        ),
        old(smpte_offset_bytes)@.len() < 4 ==> final(smpte_offset_bytes)@ == Seq::<u8>::empty(),
{
    let ghost start = smpte_offset_bytes@;
    if matches!(endianness, Endian::Little) {
        let hours = match take_first_byte_as_signed_integer(smpte_offset_bytes, Endian::Little) {
            Ok(v) => v,
            Err(e) => return Err(e),
        };
        let minutes = match take_first_byte(smpte_offset_bytes) {
            Ok(v) => v,
            Err(e) => return Err(e),
        };
        let seconds = match take_first_byte(smpte_offset_bytes) {
            Ok(v) => v,
            Err(e) => return Err(e),
        };
        let samples = match take_first_byte(smpte_offset_bytes) {
            Ok(v) => v,
            Err(e) => return Err(e),
        };
        assert(smpte_offset_bytes@ =~= start.skip(4));
        Ok(smpte_string(hours, minutes, seconds, samples))
    } else {
        let samples = match take_first_byte(smpte_offset_bytes) {
            Ok(v) => v,
            Err(e) => return Err(e),
        };
        let seconds = match take_first_byte(smpte_offset_bytes) {
            Ok(v) => v,
            Err(e) => return Err(e),
        };
        let minutes = match take_first_byte(smpte_offset_bytes) {
            Ok(v) => v,
            Err(e) => return Err(e),
        };
        let hours = match take_first_byte_as_signed_integer(smpte_offset_bytes, Endian::Big) {
            Ok(v) => v,
            Err(e) => return Err(e),
        };
        assert(smpte_offset_bytes@ =~= start.skip(4));
        Ok(smpte_string(hours, minutes, seconds, samples))
    }
}

/// The greatest key length, in bytes, of a list of key-value pairs.
pub open spec fn longest_key(pairs: Seq<KeyValuePair>) -> nat
    decreases pairs.len(),
{
    if pairs.len() == 0 {
        0
    } else {
        let rest = longest_key(pairs.drop_last());
        let last = byte_len(pairs.last().key@);
        if last > rest {
            last
        } else {
            rest
        }
    }
}

proof fn lemma_longest_key_bounds(pairs: Seq<KeyValuePair>, i: int)
    requires
        0 <= i < pairs.len(),
    ensures
        byte_len(pairs[i].key@) <= longest_key(pairs),
    decreases pairs.len(),
{
    if i < pairs.len() - 1 {
        lemma_longest_key_bounds(pairs.drop_last(), i);
    }
}

/// Pairs the keys and values of `old_pairs` with the spacers that pad every
/// key to the length of the longest one.
pub open spec fn spaced_pairs(old_pairs: Seq<KeyValuePair>, new_pairs: Seq<KeyValuePair>) -> bool {
    &&& new_pairs.len() == old_pairs.len()
    &&& forall|i: int|
        0 <= i < old_pairs.len() ==> {
            &&& #[trigger] new_pairs[i].key@ == old_pairs[i].key@
            &&& new_pairs[i].value@ == old_pairs[i].value@
            &&& new_pairs[i].spacer@ == spaces(
                (longest_key(old_pairs) - byte_len(old_pairs[i].key@)) as nat,
            )
        }
}

/// Sets the spacer of every pair so that keys and spacers together are as
/// long as the longest key (lengths counted in bytes).
pub fn set_key_value_pair_spacers(key_value_pairs: &mut Vec<KeyValuePair>)
    ensures
        spaced_pairs(old(key_value_pairs)@, final(key_value_pairs)@),
{
    let n = key_value_pairs.len();
    let mut longest: usize = 0;
    let mut i: usize = 0;
    while i < n
        invariant
            n == key_value_pairs@.len(),
            i <= n,
            longest == longest_key(key_value_pairs@.take(i as int)),
        decreases n - i,
    {
        assert(key_value_pairs@.take(i + 1).drop_last() =~= key_value_pairs@.take(i as int));
        let key_text = key_value_pairs[i].key.as_str();
        let key_length = key_text.as_bytes().len();
        assert(key_length == byte_len(key_value_pairs@[i as int].key@));
        assert(key_value_pairs@.take(i + 1).last() == key_value_pairs@[i as int]);
        if key_length > longest {
            longest = key_length;
        }
        i = i + 1;
    }
    assert(key_value_pairs@.take(n as int) =~= key_value_pairs@);
    if n == 0 {
        longest = DEFAULT_SPACER_LENGTH;
    }
    let ghost start = key_value_pairs@;
    let mut spaced: Vec<KeyValuePair> = Vec::new();
    let mut j: usize = 0;
    while j < n
        invariant
            n == start.len(),
            key_value_pairs@ == start,
            j <= n,
            spaced@.len() == j,
            n > 0 ==> longest == longest_key(start),
            forall|k: int|
                0 <= k < j ==> {
                    &&& #[trigger] spaced@[k].key@ == start[k].key@
                    &&& spaced@[k].value@ == start[k].value@
                    &&& spaced@[k].spacer@ == spaces(
                        (longest_key(start) - byte_len(start[k].key@)) as nat,
                    )
                },
        decreases n - j,
    {
        proof {
            lemma_longest_key_bounds(start, j as int);
        }
        let pair = &key_value_pairs[j];
        let key_length = pair.key.as_str().as_bytes().len();
        let spacer = if longest > key_length {
            spaces_string(longest - key_length)
        } else {
            String::new()
        };
        spaced.push(KeyValuePair { key: pair.key.clone(), spacer, value: pair.value.clone() });
        j = j + 1;
    }
    *key_value_pairs = spaced;
}

/// A RIFF size rounded up to an even number of bytes.
pub open spec fn padded_byte_size(byte_size: u32) -> int {
    if byte_size % 2 == 1 {
        byte_size + 1
    } else {
        byte_size as int
    }
}

/// Rounds a RIFF size up to an even number of bytes.
pub fn add_one_if_byte_size_is_odd(byte_size: u32) -> (padded: u32)
    requires
        byte_size < u32::MAX,
    ensures
        padded == padded_byte_size(byte_size),
{
    if byte_size % 2 > 0 {
        byte_size + 1
    } else {
        byte_size
    }
}

/// `True` for the bit value 1 and `False` for anything else.
pub open spec fn bool_text(bit: u8) -> Seq<char> {
    if bit == 1 {
        "True"@
    } else {
        "False"@
    }
}

/// Formats a flag bit as `True` or `False`.
pub fn format_bit_as_bool_string(bit: u8) -> (text: String)
    ensures
        text@ == bool_text(bit),
{
    if bit == 1 {
        String::from_str("True")
    } else {
        String::from_str("False")
    }
}

/// Text used when a date cannot be formed from a timestamp.
pub const BAD_TIMESTAMP_MESSAGE: &'static str = "Unexpected bad timestamp format";

/// Name for the text `chrono` gives a UTC date and time (as its `Display`
/// prints a `DateTime<Utc>`, e.g. `2001-09-09 01:46:40 UTC`) for a number
/// of seconds since the Unix epoch, or `None` where `chrono` has no date.
pub uninterp spec fn utc_date_time_text(unix_seconds: int) -> Option<Seq<char>>;

/// Calls `chrono::DateTime::from_timestamp(secs, 0)` and formats the date
/// with its `Display`. The calendar computation itself is left unstated
/// (it is the name `utc_date_time_text`); stated is that `chrono` has a date
/// for every number of seconds from 0 below 2^33, as its source shows
/// (dates up to year 262143 are in range).
#[verifier::external_body]
fn date_time_from_unix_seconds(unix_seconds: i64) -> (text: Option<String>)
    ensures
        match text {
            Some(t) => utc_date_time_text(unix_seconds as int) == Some(t@),
            None => utc_date_time_text(unix_seconds as int) is None,
        },
        0 <= unix_seconds < 8589934592 ==> text is Some,
{
    chrono::DateTime::from_timestamp(unix_seconds, 0).map(|d| d.to_string())
}

/// The date text, or the bad timestamp message when there is none.
pub fn date_time_text_or_message(text: Option<String>) -> (result: String)
    ensures
        match text {
            Some(t) => result@ == t@,
            None => result@ == BAD_TIMESTAMP_MESSAGE@,
        },
{
    match text {
        Some(t) => t,
        None => String::from_str(BAD_TIMESTAMP_MESSAGE),
    }
}

/// Formats a Mac HFS timestamp (seconds since 1904-01-01) as a UTC date and
/// time; timestamps before the Unix epoch are refused.
pub fn format_mac_hfs_timestamp_as_date_time_string(timestamp: u32) -> (result: Result<
    String,
    LocalError,
>)
    ensures
        timestamp < MAC_HFS_FORMAT_TIMESTAMP_OFFSET ==> result == Err::<String, LocalError>(
            LocalError::HFSTimestampTooSmall,
        ),
        timestamp >= MAC_HFS_FORMAT_TIMESTAMP_OFFSET ==> (result matches Ok(text) && Some(text@)
            == utc_date_time_text(timestamp - MAC_HFS_FORMAT_TIMESTAMP_OFFSET)),
{
    if timestamp < MAC_HFS_FORMAT_TIMESTAMP_OFFSET {
        return Err(LocalError::HFSTimestampTooSmall);
    }
    let text = date_time_from_unix_seconds((timestamp - MAC_HFS_FORMAT_TIMESTAMP_OFFSET) as i64);
    Ok(date_time_text_or_message(text))
}

/// Name for the human readable size `byte_unit` gives a number of bytes:
/// the appropriate binary unit, at most two decimals, no needless
/// fraction (`{:#.2}`), e.g. `117.74 MiB`.
pub uninterp spec fn binary_size_text(size_in_bytes: nat) -> Seq<char>;

/// Calls `byte_unit::Byte::from_u64(n).get_appropriate_unit(UnitType::Binary)`
/// and formats it with `{:#.2}`. Only that the text is the one named by
/// `binary_size_text` is stated; the unit choice and rounding are left to
/// `byte_unit`.
#[verifier::external_body]
fn binary_size_string(size_in_bytes: u64) -> (text: String)
    ensures
        text@ == binary_size_text(size_in_bytes as nat),
{
    format!(
        "{:#.2}",
        byte_unit::Byte::from_u64(size_in_bytes).get_appropriate_unit(byte_unit::UnitType::Binary)
    )
}

/// A file size in a human readable binary unit, e.g. `117.74 MiB`.
pub fn format_file_size_as_string(file_size_in_bytes: u64) -> (text: String)
    ensures
        text@ == binary_size_text(file_size_in_bytes as nat),
{
    binary_size_string(file_size_in_bytes)
}

/// A padded size is even, and is the size or one byte more.
pub proof fn padded_size_is_even(byte_size: u32)
    ensures
        padded_byte_size(byte_size) % 2 == 0,
        byte_size <= padded_byte_size(byte_size) <= byte_size + 1,
{
}

/// Spacers align the values: in the spaced list every key followed by its
/// spacer is as long as the longest key (keys counted in bytes, spacers in
/// spaces).
pub proof fn spacers_align_values(old_pairs: Seq<KeyValuePair>, new_pairs: Seq<KeyValuePair>)
    requires
        spaced_pairs(old_pairs, new_pairs),
    ensures
        forall|i: int|
            0 <= i < new_pairs.len() ==> byte_len((#[trigger] new_pairs[i]).key@)
                + new_pairs[i].spacer@.len() == longest_key(old_pairs),
{
    assert forall|i: int| 0 <= i < new_pairs.len() implies byte_len(
        (#[trigger] new_pairs[i]).key@,
    ) + new_pairs[i].spacer@.len() == longest_key(old_pairs) by {
        lemma_longest_key_bounds(old_pairs, i);
    }
}

/// Each byte takes two digits and one space separates neighbouring bytes.
pub proof fn hex_text_length(s: Seq<u8>)
    ensures
        s.len() > 0 ==> hex_bytes_text(s).len() == 3 * s.len() - 1,
    decreases s.len(),
{
    if s.len() > 1 {
        hex_text_length(s.drop_last());
    }
}

/// A note twelve semitones up has the same letters, one octave higher.
pub proof fn octave_up_keeps_letters(midi_note_number: nat)
    ensures
        note_name_text(midi_note_number + 12) == note_letters((midi_note_number % 12) as int)
            + signed_decimal_text(midi_note_number as int / 12 - 1),
{
    assert((midi_note_number + 12) % 12 == midi_note_number % 12);
    assert((midi_note_number + 12) as int / 12 == midi_note_number as int / 12 + 1);
}

/// Whether a character is one of the seven note letters.
pub open spec fn is_note_letter(c: char) -> bool {
    c == 'C' || c == 'D' || c == 'E' || c == 'F' || c == 'G' || c == 'A' || c == 'B'
}

/// The semitones of a natural note above C: C 0, D 2, E 4, F 5, G 7, A 9,
/// B 11.
pub open spec fn letter_semitone(c: char) -> int {
    if c == 'C' {
        0
    } else if c == 'D' {
        2
    } else if c == 'E' {
        4
    } else if c == 'F' {
        5
    } else if c == 'G' {
        7
    } else if c == 'A' {
        9
    } else {
        11
    }
}

/// The pitch class (0 for C to 11 for B) of the note a name starts with: its
/// letter, raised a semitone by a following `#` or lowered by a `b`.
pub open spec fn pitch_class(name: Seq<char>) -> int {
    let accidental = if name.len() > 1 && name[1] == '#' {
        1int
    } else if name.len() > 1 && name[1] == 'b' {
        -1int
    } else {
        0int
    };
    (letter_semitone(name[0]) + accidental) % 12
}

/// The letters of a note name the pitch class of the offset from C: the
/// note letter names the note the offset counts up to, and where a flat
/// spelling follows (after `/`) it names the same note.
pub proof fn note_letters_name_their_pitch_class(offset: int)
    requires
        0 <= offset < 12,
    ensures
        is_note_letter(note_letters(offset)[0]),
        pitch_class(note_letters(offset)) == offset,
        note_letters(offset).len() > 3 ==> note_letters(offset)[2] == '/' && is_note_letter(
            note_letters(offset)[3],
        ) && pitch_class(note_letters(offset).skip(3)) == offset,
{
    {
        reveal_strlit("C");
        reveal_strlit("C#/Db");
        reveal_strlit("D");
        reveal_strlit("D#/Eb");
        reveal_strlit("E");
        reveal_strlit("F");
        reveal_strlit("F#/Gb");
        reveal_strlit("G");
        reveal_strlit("G#/Ab");
        reveal_strlit("A");
        reveal_strlit("A#/Bb");
        reveal_strlit("B");
    }
}

} // verus!
