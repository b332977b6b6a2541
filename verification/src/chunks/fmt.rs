use crate::byte_arrays::{
    take_first_four_bytes_as_unsigned_integer, take_first_two_bytes_as_unsigned_integer,
    u16_field, u16_value, u32_field, Endian,
};
use crate::chunks::acid::{bit_is_set, check_bit_mask_position};
use crate::errors::LocalError;
use crate::strings::{decimal_text, hex_upper_unpadded, push_decimal, push_hex_upper_unpadded};
use crate::template::{entry_of, named, render_entry, upon_rendered_text, values_view};
use crate::output::{OutputEntry, Section};
use crate::strings::decimal_string;
use crate::wave::fmt::{push_thousandths, thousandths_text};
use vstd::prelude::*;

verus! {

/// Size of a format chunk without an extension.
pub const FORMAT_CHUNK_SIZE_IF_NO_EXTENSION: usize = 16;

/// Format code of PCM audio.
pub const PCM_FORMAT_ID: u16 = 1;

/// Format code of IEEE floating-point audio.
pub const IEEE_FORMAT_FLOAT_ID: u16 = 3;

/// Format code of A-law audio.
pub const ALAW_FORMAT_ID: u16 = 6;

/// Format code of µ-law audio.
pub const MULAW_FORMAT_ID: u16 = 7;

/// Format code of the extensible format.
pub const EXTENSIBLE_FORMAT_ID: u16 = 65279;

/// Start of the name of a format code that is not known.
pub const UNKOWN_FORMAT: &'static str = "Unknown Format ID: ";

/// Length of a sub-format GUID.
pub const GUID_LENGTH_IN_BYTES: usize = 16;

/// Extension size of a format chunk that carries the extensible fields.
pub const SIZE_IF_EXTENSION_IS_PRESENT: u16 = 22;

/// Number of speaker positions a channel mask names.
pub const NUMBER_OF_SPEAKER_POSITIONS: u8 = 18;

/// The name of a format code.
pub open spec fn format_name_text(format_id: u16) -> Seq<char> {
    if format_id == PCM_FORMAT_ID {
        "PCM"@
    } else if format_id == IEEE_FORMAT_FLOAT_ID {
        "IEEE float"@
    } else if format_id == ALAW_FORMAT_ID {
        "8-bit ITU-T G.711 A-law"@
    } else if format_id == MULAW_FORMAT_ID {
        "8-bit ITU-T G.711 µ-law"@
    } else if format_id == EXTENSIBLE_FORMAT_ID {
        "Determined by SubFormat"@
    } else {
        UNKOWN_FORMAT@ + seq![' '] + decimal_text(format_id as nat)
    }
}

/// Names a format code, e.g. `PCM`.
pub fn get_format_name_from_format_id(format_id: u16) -> (name: String)
    ensures
        name@ == format_name_text(format_id),
{
    if format_id == PCM_FORMAT_ID {
        String::from_str("PCM")
    } else if format_id == IEEE_FORMAT_FLOAT_ID {
        String::from_str("IEEE float")
    } else if format_id == ALAW_FORMAT_ID {
        String::from_str("8-bit ITU-T G.711 A-law")
    } else if format_id == MULAW_FORMAT_ID {
        String::from_str("8-bit ITU-T G.711 µ-law")
    } else if format_id == EXTENSIBLE_FORMAT_ID {
        String::from_str("Determined by SubFormat")
    } else {
        let mut name = String::from_str(UNKOWN_FORMAT);
        name.append(" ");
        push_decimal(&mut name, format_id as u64);
        proof {
            reveal_strlit(" ");
        }
        assert(name@ =~= UNKOWN_FORMAT@ + seq![' '] + decimal_text(format_id as nat));
        name
    }
}

/// The speaker position named by bit `i` of a channel mask.
pub open spec fn speaker_name(i: int) -> Seq<char> {
    seq![
        "Front Left"@,
        "Front Tight"@,
        "Front Center"@,
        "Low Frequency"@,
        "Back Left"@,
        "Back Tight"@,
        "Front Left Of Center"@,
        "Front Tight Of Center"@,
        "Back Center"@,
        "Side Left"@,
        "Side Tight"@,
        "Top Center"@,
        "Top Front Left"@,
        "Top Front Center"@,
        "Top Front Tight"@,
        "Top Back Left"@,
        "Top Back Center"@,
        "Top Back Tight"@,
    ][i]
}

fn speaker_name_string(i: u8) -> (name: String)
    requires
        i < NUMBER_OF_SPEAKER_POSITIONS,
    ensures
        name@ == speaker_name(i as int),
{
    match i {
        0 => String::from_str("Front Left"),
        1 => String::from_str("Front Tight"),
        2 => String::from_str("Front Center"),
        3 => String::from_str("Low Frequency"),
        4 => String::from_str("Back Left"),
        5 => String::from_str("Back Tight"),
        6 => String::from_str("Front Left Of Center"),
        7 => String::from_str("Front Tight Of Center"),
        8 => String::from_str("Back Center"),
        9 => String::from_str("Side Left"),
        10 => String::from_str("Side Tight"),
        11 => String::from_str("Top Center"),
        12 => String::from_str("Top Front Left"),
        13 => String::from_str("Top Front Center"),
        14 => String::from_str("Top Front Tight"),
        15 => String::from_str("Top Back Left"),
        16 => String::from_str("Top Back Center"),
        _ => String::from_str("Top Back Tight"),
    }
}

/// The speaker positions of the first `n` bits of a channel mask, each set
/// bit as a new line ` - {name}`.
pub open spec fn speaker_positions_text(mask: u32, n: nat) -> Seq<char>
    decreases n,
{
    if n == 0 {
        Seq::empty()
    } else {
        speaker_positions_text(mask, (n - 1) as nat) + if bit_is_set(mask, (n - 1) as u8) {
            "\n - "@ + speaker_name(n - 1)
        } else {
            Seq::empty()
        }
    }
}

/// Lists the speaker positions of a channel mask, one per line, each line
/// starting with a line break; empty when no position is set.
pub fn format_speaker_position(speaker_position_mask: u32) -> (text: String)
    ensures
        text@ == speaker_positions_text(speaker_position_mask, NUMBER_OF_SPEAKER_POSITIONS as nat),
{
    let mut text = String::new();
    let mut i: u8 = 0;
    while i < NUMBER_OF_SPEAKER_POSITIONS
        invariant
            i <= NUMBER_OF_SPEAKER_POSITIONS,
            text@ == speaker_positions_text(speaker_position_mask, i as nat),
        decreases NUMBER_OF_SPEAKER_POSITIONS - i,
    {
        if check_bit_mask_position(speaker_position_mask, i) {
            text.append("\n - ");
            let name = speaker_name_string(i);
            text.append(name.as_str());
        }
        i = i + 1;
    }
    text
}

/// Bytes as upper-case hexadecimal without padding, run together.
pub open spec fn unpadded_hex_text(s: Seq<u8>) -> Seq<char>
    decreases s.len(),
{
    if s.len() == 0 {
        Seq::empty()
    } else {
        unpadded_hex_text(s.drop_last()) + hex_upper_unpadded(s.last())
    }
}

/// Appends the bytes as unpadded upper-case hexadecimal.
pub fn push_unpadded_hex(text: &mut String, bytes: &[u8])
    ensures
        final(text)@ == old(text)@ + unpadded_hex_text(bytes@),
{
    let mut i: usize = 0;
    while i < bytes.len()
        invariant
            i <= bytes@.len(),
            text@ == old(text)@ + unpadded_hex_text(bytes@.take(i as int)),
        decreases bytes@.len() - i,
    {
        assert(bytes@.take(i + 1).drop_last() =~= bytes@.take(i as int));
        push_hex_upper_unpadded(text, bytes[i]);
        i = i + 1;
    }
    assert(bytes@.take(i as int) =~= bytes@);
}

/// Whether every byte is zero.
pub open spec fn all_zero(s: Seq<u8>) -> bool {
    forall|i: int| 0 <= i < s.len() ==> s[i] == 0
}

/// A sub-format GUID as unpadded upper-case hexadecimal bytes; empty when
/// every byte is zero.
pub open spec fn guid_text(guid: Seq<u8>) -> Seq<char> {
    if all_zero(guid) {
        Seq::empty()
    } else {
        unpadded_hex_text(guid)
    }
}

/// Formats a sub-format GUID.
pub fn format_guid(guid_bytes: [u8; 16]) -> (text: String)
    ensures
        text@ == guid_text(guid_bytes@),
{
    let mut i: usize = 0;
    while i < GUID_LENGTH_IN_BYTES
        invariant
            i <= 16,
            guid_bytes@.len() == 16,
            forall|j: int| 0 <= j < i ==> guid_bytes@[j] == 0,
        decreases 16 - i,
    {
        if guid_bytes[i] != 0 {
            let mut text = String::new();
            push_unpadded_hex(&mut text, guid_bytes.as_slice());
            return text;
        }
        i = i + 1;
    }
    String::new()
}

/// The fields of a format chunk as stored (the extension fields zero when
/// absent).
pub ghost struct FmtView {
    pub format_id: u16,
    pub number_of_channels: u16,
    pub samples_per_second: u32,
    pub average_data_rate: u32,
    pub data_block_size: u16,
    pub bits_per_sample: u16,
    pub valid_bits_per_sample: u16,
    pub speaker_position_mask: u32,
    pub subformat_guid: Seq<u8>,
}

/// The basic fields of a format chunk, little-endian: format code,
/// channels, sample rate, data rate, block size and bit depth, then the rest.
pub open spec fn fmt_basic_fields(s: Seq<u8>) -> Result<
    (u16, u16, u32, u32, u16, u16, Seq<u8>),
    LocalError,
> {
    match u16_field(s, Endian::Little) {
        Err(e) => Err(e),
        Ok((format_id, s)) => match u16_field(s, Endian::Little) {
            Err(e) => Err(e),
            Ok((channels, s)) => match u32_field(s, Endian::Little) {
                Err(e) => Err(e),
                Ok((rate, s)) => match u32_field(s, Endian::Little) {
                    Err(e) => Err(e),
                    Ok((data_rate, s)) => match u16_field(s, Endian::Little) {
                        Err(e) => Err(e),
                        Ok((block, s)) => match u16_field(s, Endian::Little) {
                            Err(e) => Err(e),
                            Ok((bits, s)) => Ok((format_id, channels, rate, data_rate, block, bits, s)),
                        },
                    },
                },
            },
        },
    }
}

/// Whether the sub-format GUID of a chunk that declares the extensible
/// fields takes exactly the sixteen bytes that remain after them.
pub open spec fn extension_fits(s: Seq<u8>) -> bool {
    (s.len() >= 24 && u16_value(s.subrange(16, 18), Endian::Little) == SIZE_IF_EXTENSION_IS_PRESENT)
        ==> s.len() == 40
}

/// What a format chunk holds: the basic fields; when the chunk is longer
/// than 16 bytes an extension size; when that size is 22, the valid bits,
/// the channel mask and the sub-format GUID (the rest).
pub open spec fn fmt_chunk(s: Seq<u8>) -> Result<FmtView, LocalError> {
    match fmt_basic_fields(s) {
        Err(e) => Err(e),
        Ok((format_id, channels, rate, data_rate, block, bits, rest)) => {
            let basic = FmtView {
                format_id,
                number_of_channels: channels,
                samples_per_second: rate,
                average_data_rate: data_rate,
                data_block_size: block,
                bits_per_sample: bits,
                valid_bits_per_sample: 0,
                speaker_position_mask: 0,
                subformat_guid: Seq::new(16, |i: int| 0u8),
            };
            if s.len() <= FORMAT_CHUNK_SIZE_IF_NO_EXTENSION {
                Ok(basic)
            } else {
                match u16_field(rest, Endian::Little) {
                    Err(e) => Err(e),
                    Ok((extension_size, rest)) => if extension_size != SIZE_IF_EXTENSION_IS_PRESENT {
                        Ok(basic)
                    } else {
                        match u16_field(rest, Endian::Little) {
                            Err(e) => Err(e),
                            Ok((valid_bits, rest)) => match u32_field(rest, Endian::Little) {
                                Err(e) => Err(e),
                                Ok((mask, rest)) => Ok(
                                    FmtView {
                                        valid_bits_per_sample: valid_bits,
                                        speaker_position_mask: mask,
                                        subformat_guid: rest,
                                        ..basic
                                    },
                                ),
                            },
                        }
                    },
                }
            }
        },
    }
}

/// The decoded contents of a format chunk.
#[derive(Debug, Clone, PartialEq)]
pub struct FmtMetadata {
    pub format_code: String,
    pub number_of_channels: u16,
    pub samples_per_second: u32,
    pub average_data_rate: u32,
    pub data_block_size: u16,
    pub bits_per_sample: u16,
    pub valid_bits_per_sample: u16,
    pub speaker_position_mask: String,
    pub subformat_guid: String,
}

/// Whether the metadata shows the fields `f`.
pub open spec fn fmt_metadata_matches(m: FmtMetadata, f: FmtView) -> bool {
    &&& m.format_code@ == format_name_text(f.format_id)
    &&& m.number_of_channels == f.number_of_channels
    &&& m.samples_per_second == f.samples_per_second
    &&& m.average_data_rate == f.average_data_rate
    &&& m.data_block_size == f.data_block_size
    &&& m.bits_per_sample == f.bits_per_sample
    &&& m.valid_bits_per_sample == f.valid_bits_per_sample
    &&& m.speaker_position_mask@ == speaker_positions_text(
        f.speaker_position_mask,
        NUMBER_OF_SPEAKER_POSITIONS as nat,
    )
    &&& m.subformat_guid@ == guid_text(f.subformat_guid)
}

fn take_u16(bytes: &mut Vec<u8>) -> (result: Result<u16, LocalError>)
    ensures
        match u16_field(old(bytes)@, Endian::Little) {
            Ok((v, rest)) => result == Ok::<u16, LocalError>(v) && final(bytes)@ == rest,
            Err(e) => result == Err::<u16, LocalError>(e),
        },
{
    take_first_two_bytes_as_unsigned_integer(bytes, Endian::Little)
}

fn take_u32(bytes: &mut Vec<u8>) -> (result: Result<u32, LocalError>)
    ensures
        match u32_field(old(bytes)@, Endian::Little) {
            Ok((v, rest)) => result == Ok::<u32, LocalError>(v) && final(bytes)@ == rest,
            Err(e) => result == Err::<u32, LocalError>(e),
        },
{
    take_first_four_bytes_as_unsigned_integer(bytes, Endian::Little)
}

fn guid_array(bytes: &Vec<u8>) -> (guid: [u8; 16])
    requires
        bytes@.len() == 16,
    ensures
        guid@ == bytes@,
{
    let guid: [u8; 16] = [
        bytes[0],
        bytes[1],
        bytes[2],
        bytes[3],
        bytes[4],
        bytes[5],
        bytes[6],
        bytes[7],
        bytes[8],
        bytes[9],
        bytes[10],
        bytes[11],
        bytes[12],
        bytes[13],
        bytes[14],
        bytes[15],
    ];
    assert(guid@ =~= bytes@);
    guid
}

/// Decodes a format chunk. A chunk that declares the extensible fields must
/// end with a sixteen byte sub-format GUID.
pub fn get_metadata(chunk_data: Vec<u8>) -> (result: Result<FmtMetadata, LocalError>)
    requires
        extension_fits(chunk_data@),
    ensures
        match fmt_chunk(chunk_data@) {
            Ok(f) => result matches Ok(m) && fmt_metadata_matches(m, f),
            Err(e) => result == Err::<FmtMetadata, LocalError>(e),
        },
{
    let chunk_size = chunk_data.len();
    let ghost start = chunk_data@;
    let mut data = chunk_data;
    let format_id = match take_u16(&mut data) {
        Ok(v) => v,
        Err(e) => return Err(e),
    };
    let number_of_channels = match take_u16(&mut data) {
        Ok(v) => v,
        Err(e) => return Err(e),
    };
    let samples_per_second = match take_u32(&mut data) {
        Ok(v) => v,
        Err(e) => return Err(e),
    };
    let average_data_rate = match take_u32(&mut data) {
        Ok(v) => v,
        Err(e) => return Err(e),
    };
    let data_block_size = match take_u16(&mut data) {
        Ok(v) => v,
        Err(e) => return Err(e),
    };
    let bits_per_sample = match take_u16(&mut data) {
        Ok(v) => v,
        Err(e) => return Err(e),
    };
    assert(data@ =~= start.skip(16));
    let mut extension_size: u16 = 0;
    if chunk_size > FORMAT_CHUNK_SIZE_IF_NO_EXTENSION {
        extension_size = match take_u16(&mut data) {
            Ok(v) => v,
            Err(e) => return Err(e),
        };
        assert(start.skip(16).take(2) =~= start.subrange(16, 18));
    }
    let mut valid_bits_per_sample: u16 = 0;
    let mut speaker_position_mask: u32 = 0;
    let mut guid: [u8; 16] = [0; 16];
    if extension_size == SIZE_IF_EXTENSION_IS_PRESENT {
        valid_bits_per_sample = match take_u16(&mut data) {
            Ok(v) => v,
            Err(e) => return Err(e),
        };
        speaker_position_mask = match take_u32(&mut data) {
            Ok(v) => v,
            Err(e) => return Err(e),
        };
        guid = guid_array(&data);
    }
    assert(guid@ =~= fmt_chunk(start)->Ok_0.subformat_guid);
    Ok(
        FmtMetadata {
            format_code: get_format_name_from_format_id(format_id),
            number_of_channels,
            samples_per_second,
            average_data_rate,
            data_block_size,
            bits_per_sample,
            valid_bits_per_sample,
            speaker_position_mask: format_speaker_position(speaker_position_mask),
            subformat_guid: format_guid(guid),
        },
    )
}

/// The template of a format chunk's report entry.
pub const FMT_TEMPLATE: &'static str = "\n-------------\nFormat (fmt) Chunk Details:\n-------------\nFormat Code: {{ format_code }}\nNumber of Channels: {{ number_of_channels }}\nSample Rate: {{ samples_per_second }} kHz\nBit Depth: {{ bits_per_sample }} bits\nAverage Data Rate: {{ average_data_rate }} kB/Second\nData Block Size: {{ data_block_size }} bytes\nValid Bits per Sample: {{ valid_bits_per_sample }} bits\nSpeaker Position Mask: {{ speaker_position_mask }}\nGUID: {{ subformat_guid }}";

/// The values a fmt entry is rendered from.
pub open spec fn fmt_output_values(m: FmtMetadata) -> Seq<(Seq<char>, Seq<char>)> {
    seq![
        ("format_code"@, m.format_code@),
        ("number_of_channels"@, decimal_text(m.number_of_channels as nat)),
        ("samples_per_second"@, thousandths_text(m.samples_per_second as nat)),
        ("bits_per_sample"@, decimal_text(m.bits_per_sample as nat)),
        ("average_data_rate"@, thousandths_text(m.average_data_rate as nat)),
        ("data_block_size"@, decimal_text(m.data_block_size as nat)),
        ("valid_bits_per_sample"@, decimal_text(m.valid_bits_per_sample as nat)),
        ("speaker_position_mask"@, m.speaker_position_mask@),
        ("subformat_guid"@, m.subformat_guid@),
    ]
}

fn fmt_values(m: &FmtMetadata) -> (values: Vec<(String, String)>)
    ensures
        values_view(values@) == fmt_output_values(*m),
{
    let mut rate = String::new();
    push_thousandths(&mut rate, m.samples_per_second);
    let mut data_rate = String::new();
    push_thousandths(&mut data_rate, m.average_data_rate);
    let values = vec![
        named("format_code", m.format_code.clone()),
        named("number_of_channels", decimal_string(m.number_of_channels as u64)),
        named("samples_per_second", rate),
        named("bits_per_sample", decimal_string(m.bits_per_sample as u64)),
        named("average_data_rate", data_rate),
        named("data_block_size", decimal_string(m.data_block_size as u64)),
        named("valid_bits_per_sample", decimal_string(m.valid_bits_per_sample as u64)),
        named("speaker_position_mask", m.speaker_position_mask.clone()),
        named("subformat_guid", m.subformat_guid.clone()),
    ];
    assert(values_view(values@) =~= fmt_output_values(*m));
    values
}

/// The report entry of a chunk's bytes: the decoding error, or the
/// decoded fields rendered under `Mandatory`.
pub open spec fn fmt_entry_is(data: Seq<u8>, result: Result<OutputEntry, LocalError>) -> bool {
    match fmt_chunk(data) {
        Ok(v) => exists|m: FmtMetadata| #[trigger] fmt_metadata_matches(m, v) && entry_of(
            Section::Mandatory,
            upon_rendered_text(FMT_TEMPLATE@, fmt_output_values(m)),
            result,
        ),
        Err(e) => result == Err::<OutputEntry, LocalError>(e),
    }
}

/// Decodes a chunk and renders it as its report entry.
pub fn fmt_entry(chunk_data: Vec<u8>) -> (result: Result<OutputEntry, LocalError>)
    requires
        extension_fits(chunk_data@),
    ensures
        fmt_entry_is(chunk_data@, result),
{
    match get_metadata(chunk_data) {
        Ok(m) => {
            let values = fmt_values(&m);
            render_entry(Section::Mandatory, FMT_TEMPLATE, &values)
        },
        Err(e) => Err(e),
    }
}

/// Whether `w` occurs in `s`.
pub open spec fn has_text(s: Seq<char>, w: Seq<char>) -> bool {
    exists|k: int| 0 <= k && k + w.len() <= s.len() && #[trigger] s.subrange(k, k + w.len()) == w
}

/// The speaker of each channel mask bit is where WAVEFORMATEXTENSIBLE puts
/// it: bits 0 to 2, 6 and 7 are front speakers, 4, 5 and 8 back speakers,
/// 9 and 10 side speakers, 11 to 17 top speakers (12 to 14 at the front, 15
/// to 17 at the back) and bit 3 the low frequency channel; bits 0, 4, 6, 9,
/// 12 and 15 are on the left, 1, 5, 7, 10, 14 and 17 on the right, and 2, 6,
/// 7, 8, 11, 13 and 16 at or towards the center.
pub proof fn speaker_bits_name_their_positions(i: int)
    requires
        0 <= i < NUMBER_OF_SPEAKER_POSITIONS,
    ensures
        speaker_name(3) == "Low Frequency"@,
        (i == 0 || i == 1 || i == 2 || i == 6 || i == 7) ==> "Front "@.is_prefix_of(speaker_name(i)),
        (i == 4 || i == 5 || i == 8) ==> "Back "@.is_prefix_of(speaker_name(i)),
        (i == 9 || i == 10) ==> "Side "@.is_prefix_of(speaker_name(i)),
        (i == 11 || i == 12 || i == 13 || i == 14 || i == 15 || i == 16 || i == 17) ==> "Top "@.is_prefix_of(speaker_name(i)),
        (i == 0 || i == 4 || i == 6 || i == 9 || i == 12 || i == 15) ==> has_text(speaker_name(i), "Left"@),
        (i == 1 || i == 5 || i == 7 || i == 10 || i == 14 || i == 17) ==> has_text(speaker_name(i), "Tight"@),
        (i == 2 || i == 6 || i == 7 || i == 8 || i == 11 || i == 13 || i == 16) ==> has_text(speaker_name(i), "Center"@),
        (i == 12 || i == 13 || i == 14) ==> has_text(speaker_name(i), "Front"@),
        (i == 15 || i == 16 || i == 17) ==> has_text(speaker_name(i), "Back"@),
{
    {
        reveal_strlit("Front Left");
        reveal_strlit("Front Tight");
        reveal_strlit("Front Center");
        reveal_strlit("Low Frequency");
        reveal_strlit("Back Left");
        reveal_strlit("Back Tight");
        reveal_strlit("Front Left Of Center");
        reveal_strlit("Front Tight Of Center");
        reveal_strlit("Back Center");
        reveal_strlit("Side Left");
        reveal_strlit("Side Tight");
        reveal_strlit("Top Center");
        reveal_strlit("Top Front Left");
        reveal_strlit("Top Front Center");
        reveal_strlit("Top Front Tight");
        reveal_strlit("Top Back Left");
        reveal_strlit("Top Back Center");
        reveal_strlit("Top Back Tight");
        reveal_strlit("Left");
        reveal_strlit("Tight");
        reveal_strlit("Center");
        reveal_strlit("Front");
        reveal_strlit("Back");
        reveal_strlit("Front ");
        reveal_strlit("Back ");
        reveal_strlit("Side ");
        reveal_strlit("Top ");
        reveal_strlit("Low Frequency");
    }
    if i == 0 { assert(speaker_name(i).subrange(6, 6int + "Left"@.len()) =~= "Left"@); }
    if i == 0 { assert(speaker_name(i).subrange(0, 0int + "Front"@.len()) =~= "Front"@); }
    if i == 0 { assert(speaker_name(i).take(6) =~= "Front "@); }
    if i == 1 { assert(speaker_name(i).subrange(6, 6int + "Tight"@.len()) =~= "Tight"@); }
    if i == 1 { assert(speaker_name(i).subrange(0, 0int + "Front"@.len()) =~= "Front"@); }
    if i == 1 { assert(speaker_name(i).take(6) =~= "Front "@); }
    if i == 2 { assert(speaker_name(i).subrange(6, 6int + "Center"@.len()) =~= "Center"@); }
    if i == 2 { assert(speaker_name(i).subrange(0, 0int + "Front"@.len()) =~= "Front"@); }
    if i == 2 { assert(speaker_name(i).take(6) =~= "Front "@); }
    if i == 4 { assert(speaker_name(i).subrange(5, 5int + "Left"@.len()) =~= "Left"@); }
    if i == 4 { assert(speaker_name(i).subrange(0, 0int + "Back"@.len()) =~= "Back"@); }
    if i == 4 { assert(speaker_name(i).take(5) =~= "Back "@); }
    if i == 5 { assert(speaker_name(i).subrange(5, 5int + "Tight"@.len()) =~= "Tight"@); }
    if i == 5 { assert(speaker_name(i).subrange(0, 0int + "Back"@.len()) =~= "Back"@); }
    if i == 5 { assert(speaker_name(i).take(5) =~= "Back "@); }
    if i == 6 { assert(speaker_name(i).subrange(6, 6int + "Left"@.len()) =~= "Left"@); }
    if i == 6 { assert(speaker_name(i).subrange(14, 14int + "Center"@.len()) =~= "Center"@); }
    if i == 6 { assert(speaker_name(i).subrange(0, 0int + "Front"@.len()) =~= "Front"@); }
    if i == 6 { assert(speaker_name(i).take(6) =~= "Front "@); }
    if i == 7 { assert(speaker_name(i).subrange(6, 6int + "Tight"@.len()) =~= "Tight"@); }
    if i == 7 { assert(speaker_name(i).subrange(15, 15int + "Center"@.len()) =~= "Center"@); }
    if i == 7 { assert(speaker_name(i).subrange(0, 0int + "Front"@.len()) =~= "Front"@); }
    if i == 7 { assert(speaker_name(i).take(6) =~= "Front "@); }
    if i == 8 { assert(speaker_name(i).subrange(5, 5int + "Center"@.len()) =~= "Center"@); }
    if i == 8 { assert(speaker_name(i).subrange(0, 0int + "Back"@.len()) =~= "Back"@); }
    if i == 8 { assert(speaker_name(i).take(5) =~= "Back "@); }
    if i == 9 { assert(speaker_name(i).subrange(5, 5int + "Left"@.len()) =~= "Left"@); }
    if i == 9 { assert(speaker_name(i).take(5) =~= "Side "@); }
    if i == 10 { assert(speaker_name(i).subrange(5, 5int + "Tight"@.len()) =~= "Tight"@); }
    if i == 10 { assert(speaker_name(i).take(5) =~= "Side "@); }
    if i == 11 { assert(speaker_name(i).subrange(4, 4int + "Center"@.len()) =~= "Center"@); }
    if i == 11 { assert(speaker_name(i).take(4) =~= "Top "@); }
    if i == 12 { assert(speaker_name(i).subrange(10, 10int + "Left"@.len()) =~= "Left"@); }
    if i == 12 { assert(speaker_name(i).subrange(4, 4int + "Front"@.len()) =~= "Front"@); }
    if i == 12 { assert(speaker_name(i).take(4) =~= "Top "@); }
    if i == 13 { assert(speaker_name(i).subrange(10, 10int + "Center"@.len()) =~= "Center"@); }
    if i == 13 { assert(speaker_name(i).subrange(4, 4int + "Front"@.len()) =~= "Front"@); }
    if i == 13 { assert(speaker_name(i).take(4) =~= "Top "@); }
    if i == 14 { assert(speaker_name(i).subrange(10, 10int + "Tight"@.len()) =~= "Tight"@); }
    if i == 14 { assert(speaker_name(i).subrange(4, 4int + "Front"@.len()) =~= "Front"@); }
    if i == 14 { assert(speaker_name(i).take(4) =~= "Top "@); }
    if i == 15 { assert(speaker_name(i).subrange(9, 9int + "Left"@.len()) =~= "Left"@); }
    if i == 15 { assert(speaker_name(i).subrange(4, 4int + "Back"@.len()) =~= "Back"@); }
    if i == 15 { assert(speaker_name(i).take(4) =~= "Top "@); }
    if i == 16 { assert(speaker_name(i).subrange(9, 9int + "Center"@.len()) =~= "Center"@); }
    if i == 16 { assert(speaker_name(i).subrange(4, 4int + "Back"@.len()) =~= "Back"@); }
    if i == 16 { assert(speaker_name(i).take(4) =~= "Top "@); }
    if i == 17 { assert(speaker_name(i).subrange(9, 9int + "Tight"@.len()) =~= "Tight"@); }
    if i == 17 { assert(speaker_name(i).subrange(4, 4int + "Back"@.len()) =~= "Back"@); }
    if i == 17 { assert(speaker_name(i).take(4) =~= "Top "@); }
}

/// The fields of a format chunk are little-endian, least significant byte
/// first: the format code is bytes 0 and 1, the channel count bytes 2 and 3,
/// the sample rate bytes 4 to 7, the average data rate bytes 8 to 11, the
/// block size bytes 12 and 13 and the bits per sample bytes 14 and 15; with
/// a 22 byte extension (its size in bytes 16 and 17), the valid bits are
/// bytes 18 and 19, the speaker mask bytes 20 to 23 and the sub-format GUID
/// bytes 24 to 39.
pub proof fn fmt_fields_are_little_endian(s: Seq<u8>)
    requires
        fmt_chunk(s) is Ok,
    ensures
        s.len() >= 16,
        ({
            let v = fmt_chunk(s)->Ok_0;
            &&& v.format_id == s[0] + 256 * s[1]
            &&& v.number_of_channels == s[2] + 256 * s[3]
            &&& v.samples_per_second == s[4] + 256 * s[5] + 65536 * s[6] + 16777216 * s[7]
            &&& v.average_data_rate == s[8] + 256 * s[9] + 65536 * s[10] + 16777216 * s[11]
            &&& v.data_block_size == s[12] + 256 * s[13]
            &&& v.bits_per_sample == s[14] + 256 * s[15]
            &&& (s.len() >= 24 && s[16] + 256 * s[17] == 22) ==> {
                &&& v.valid_bits_per_sample == s[18] + 256 * s[19]
                &&& v.speaker_position_mask == s[20] + 256 * s[21] + 65536 * s[22] + 16777216 * s[23]
                &&& v.subformat_guid == s.skip(24)
            }
        }),
{
    let t = s.skip(2).skip(2).skip(4).skip(4).skip(2).skip(2);
    assert(s.skip(2).skip(2).skip(4).skip(4).skip(2).skip(2) =~= s.skip(16));
    assert(s.skip(2).take(2) =~= s.subrange(2, 4));
    assert(s.skip(2).skip(2).take(4) =~= s.subrange(4, 8));
    assert(s.skip(2).skip(2).skip(4).take(4) =~= s.subrange(8, 12));
    assert(s.skip(2).skip(2).skip(4).skip(4).take(2) =~= s.subrange(12, 14));
    assert(s.skip(2).skip(2).skip(4).skip(4).skip(2).take(2) =~= s.subrange(14, 16));
    if s.len() >= 24 {
        assert(t.take(2) =~= s.subrange(16, 18));
        assert(t.skip(2).take(2) =~= s.subrange(18, 20));
        assert(t.skip(2).skip(2).take(4) =~= s.subrange(20, 24));
        assert(t.skip(2).skip(2).skip(4) =~= s.skip(24));
    }
}

/// The format codes name their formats: 1 PCM, 3 IEEE float, 6 A-law, 7
/// µ-law and 65279 the extensible format (determined by its sub-format);
/// any other code is named unknown, with its number.
pub proof fn format_codes_name_their_formats(format_id: u16)
    ensures
        has_text(format_name_text(1), "PCM"@),
        has_text(format_name_text(3), "IEEE float"@),
        has_text(format_name_text(6), "A-law"@),
        has_text(format_name_text(7), "µ-law"@),
        has_text(format_name_text(65279), "SubFormat"@),
        format_id != 1 && format_id != 3 && format_id != 6 && format_id != 7 && format_id != 65279
            ==> format_name_text(format_id) == UNKOWN_FORMAT@ + seq![' '] + decimal_text(format_id as nat),
{
    reveal_strlit("PCM");
    reveal_strlit("IEEE float");
    reveal_strlit("A-law");
    reveal_strlit("µ-law");
    reveal_strlit("SubFormat");
    reveal_strlit("PCM");
    reveal_strlit("IEEE float");
    reveal_strlit("8-bit ITU-T G.711 A-law");
    reveal_strlit("8-bit ITU-T G.711 µ-law");
    reveal_strlit("Determined by SubFormat");
    assert(format_name_text(1).subrange(0, 0int + "PCM"@.len()) =~= "PCM"@);
    assert(format_name_text(3).subrange(0, 0int + "IEEE float"@.len()) =~= "IEEE float"@);
    assert(format_name_text(6).subrange(18, 18int + "A-law"@.len()) =~= "A-law"@);
    assert(format_name_text(7).subrange(18, 18int + "µ-law"@.len()) =~= "µ-law"@);
    assert(format_name_text(65279).subrange(14, 14int + "SubFormat"@.len()) =~= "SubFormat"@);
}

} // verus!
