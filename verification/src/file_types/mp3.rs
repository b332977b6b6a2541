use crate::errors::LocalError;
pub use crate::formating::format_bit_as_bool_string;
use crate::formating::bool_text;
use crate::strings::{decimal_text, digit_char, digit_to_char, push_char, push_decimal};
use crate::template::{entry_of, named, render_entry, upon_rendered_text, values_view};
use crate::output::{OutputEntry, Section};
use crate::strings::decimal_string;
use vstd::prelude::*;

verus! {

/// Bytes of an ID3 header before its four size bytes.
pub const ID3_HEADER_BYTES_BEFORE_ID3_SIZE_BYTES: usize = 6;

/// Length of the sync-safe size field of an ID3 header.
pub const ID3_HEADER_SIZE_LENGTH_IN_BYTES: usize = 4;

/// Length of an MPEG audio frame header.
pub const MP3_HEADER_LENGTH_IN_BYTES: usize = 4;

/// Largest value a byte of a sync-safe integer may hold.
pub const MAX_SYNC_SAFE_INTEGER_BYTE_VALUE: u8 = 0x7F;

/// The version field value that MPEG reserves.
pub const VERSION_RESERVED_VALUE: u8 = 1;

/// The layer field value that MPEG reserves.
pub const LAYER_RESERVED_VALUE: u8 = 0;

/// Number of rows of the bitrate table (bitrate field values 0 to 14).
pub const MPEG_BITRATE_INDEX_LENGTH: u8 = 15;

/// Number of entries of the layer I/II mode extension table.
pub const MPEG_MODE_EXTENSION_LENGTH: u8 = 4;

/// The fields of an MPEG audio frame header, as the report shows them.
#[derive(Debug, Clone, PartialEq)]
pub struct Mp3Header {
    pub version: String,
    pub layer: String,
    pub protected: String,
    pub bitrate: u16,
    pub sample_rate: String,
    pub private_bit: String,
    pub channel_mode: String,
    pub joint_stereo: String,
    pub intensity_stereo: String,
    pub mid_side_stereo: String,
    pub copyright: String,
    pub original: String,
    pub emphasis: String,
}

/// The value of a sync-safe integer: seven bits from each of four bytes,
/// the first byte most significant.
pub open spec fn sync_safe_value(b: Seq<u8>) -> int {
    b[3] + b[2] * 128 + b[1] * 16384 + b[0] * 2097152
}

/// Whether a byte of the sequence exceeds the sync-safe maximum.
pub open spec fn has_oversized_byte(b: Seq<u8>) -> bool {
    exists|i: int| 0 <= i < b.len() && b[i] > MAX_SYNC_SAFE_INTEGER_BYTE_VALUE
}

/// Decodes a four-byte sync-safe integer (as used for ID3 tag sizes).
/// An empty input, or one with a byte above 0x7F, is refused.
pub fn u32_integer_from_sync_safe_integer(sync_safe_integer_bytes: Vec<u8>) -> (result: Result<
    u32,
    LocalError,
>)
    requires
        sync_safe_integer_bytes@.len() == 0 || sync_safe_integer_bytes@.len() >= 4
            || has_oversized_byte(sync_safe_integer_bytes@),
    ensures
        match result {
            Ok(value) => {
                &&& sync_safe_integer_bytes@.len() >= 4
                &&& !has_oversized_byte(sync_safe_integer_bytes@)
                &&& value == sync_safe_value(sync_safe_integer_bytes@)
            },
            Err(e) => {
                &&& (sync_safe_integer_bytes@.len() == 0 || has_oversized_byte(
                    sync_safe_integer_bytes@,
                ))
                &&& e == LocalError::MP3SyncSafeIntegerOverflow(MAX_SYNC_SAFE_INTEGER_BYTE_VALUE)
            },
        },
{
    if sync_safe_integer_bytes.len() == 0 {
        return Err(LocalError::MP3SyncSafeIntegerOverflow(MAX_SYNC_SAFE_INTEGER_BYTE_VALUE));
    }
    let mut i: usize = 0;
    while i < sync_safe_integer_bytes.len()
        invariant
            i <= sync_safe_integer_bytes@.len(),
            forall|j: int| 0 <= j < i ==> sync_safe_integer_bytes@[j] <= MAX_SYNC_SAFE_INTEGER_BYTE_VALUE,
        decreases sync_safe_integer_bytes@.len() - i,
    {
        if sync_safe_integer_bytes[i] > MAX_SYNC_SAFE_INTEGER_BYTE_VALUE {
            assert(sync_safe_integer_bytes@[i as int] > MAX_SYNC_SAFE_INTEGER_BYTE_VALUE);
            assert(has_oversized_byte(sync_safe_integer_bytes@));
            return Err(LocalError::MP3SyncSafeIntegerOverflow(MAX_SYNC_SAFE_INTEGER_BYTE_VALUE));
        }
        i = i + 1;
    }
    assert(!has_oversized_byte(sync_safe_integer_bytes@));
    let byte0 = sync_safe_integer_bytes[3] as u32;
    let byte1 = sync_safe_integer_bytes[2] as u32;
    let byte2 = sync_safe_integer_bytes[1] as u32;
    let byte3 = sync_safe_integer_bytes[0] as u32;
    Ok(byte0 + byte1 * 128 + byte2 * 16384 + byte3 * 2097152)
}

/// The sample rate in Hz for a sample rate field value and a version field
/// value (0 where MPEG defines none).
pub open spec fn raw_sample_rate(sample_rate: u8, version: u8) -> u16 {
    let row: Seq<u16> = if sample_rate == 0 {
        seq![11025u16, 0, 22050, 44100]
    } else if sample_rate == 1 {
        seq![12000u16, 0, 24000, 48000]
    } else if sample_rate == 2 {
        seq![8000u16, 0, 16000, 32000]
    } else {
        seq![0u16, 0, 0, 0]
    };
    row[version as int]
}

/// A rate in Hz shown in kHz: whole kilohertz without a fraction, else with
/// one decimal, the tenth rounded to nearest with a half rounding down (the
/// rates of the table that end in 50 Hz have a half that binary floats hold
/// just below it).
pub open spec fn khz_text(raw: nat) -> Seq<char> {
    if raw % 1000 == 0 {
        decimal_text(raw / 1000)
    } else {
        decimal_text(raw / 1000) + seq!['.', digit_char(((raw % 1000 + 49) / 100) as nat)]
    }
}

fn raw_sample_rate_value(sample_rate: u8, version: u8) -> (raw: u16)
    requires
        sample_rate < 4,
        version < 4,
    ensures
        raw == raw_sample_rate(sample_rate, version),
{
    if sample_rate == 0 {
        if version == 0 {
            11025
        } else if version == 1 {
            0
        } else if version == 2 {
            22050
        } else {
            44100
        }
    } else if sample_rate == 1 {
        if version == 0 {
            12000
        } else if version == 1 {
            0
        } else if version == 2 {
            24000
        } else {
            48000
        }
    } else if sample_rate == 2 {
        if version == 0 {
            8000
        } else if version == 1 {
            0
        } else if version == 2 {
            16000
        } else {
            32000
        }
    } else {
        0
    }
}

/// The sample rate in kHz for the sample rate and version fields of a frame
/// header, e.g. `44.1` or `16`.
pub fn get_sample_rate_from_index(sample_rate: u8, version: u8) -> (result: Result<
    String,
    LocalError,
>)
    ensures
        match result {
            Ok(text) => sample_rate < 4 && version < 4 && text@ == khz_text(
                raw_sample_rate(sample_rate, version) as nat,
            ),
            Err(e) => if sample_rate >= 4 {
                e == LocalError::MP3SampleRateIndexOverflow(sample_rate)
            } else {
                version >= 4 && e == LocalError::MP3VersionIndexOverflow(version)
            },
        },
{
    if sample_rate >= 4 {
        return Err(LocalError::MP3SampleRateIndexOverflow(sample_rate));
    }
    if version >= 4 {
        return Err(LocalError::MP3VersionIndexOverflow(version));
    }
    let raw = raw_sample_rate_value(sample_rate, version) as u64;
    let mut text = String::new();
    push_decimal(&mut text, raw / 1000);
    if raw % 1000 != 0 {
        push_char(&mut text, '.');
        let tenth = digit_to_char((raw % 1000 + 49) / 100);
        push_char(&mut text, tenth);
    }
    assert(text@ =~= khz_text(raw as nat));
    Ok(text)
}

/// The bitrate in kbit/s for a bitrate field value, a column chosen by
/// version and a column chosen by layer.
pub open spec fn bitrate_table(bitrate: int, version_column: int, layer_column: int) -> u16 {
    let rows: Seq<Seq<Seq<u16>>> = seq![
        seq![seq![0u16, 0, 0], seq![0u16, 0, 0]],
        seq![seq![32u16, 32, 32], seq![32u16, 8, 8]],
        seq![seq![64u16, 48, 40], seq![48u16, 16, 16]],
        seq![seq![96u16, 56, 48], seq![56u16, 24, 24]],
        seq![seq![128u16, 64, 56], seq![64u16, 32, 32]],
        seq![seq![60u16, 80, 64], seq![80u16, 40, 40]],
        seq![seq![192u16, 96, 80], seq![96u16, 48, 48]],
        seq![seq![224u16, 112, 96], seq![112u16, 56, 56]],
        seq![seq![256u16, 128, 112], seq![128u16, 64, 64]],
        seq![seq![288u16, 160, 128], seq![144u16, 80, 80]],
        seq![seq![320u16, 192, 160], seq![160u16, 96, 96]],
        seq![seq![352u16, 224, 192], seq![176u16, 112, 112]],
        seq![seq![384u16, 256, 224], seq![192u16, 128, 128]],
        seq![seq![416u16, 320, 256], seq![224u16, 144, 144]],
        seq![seq![448u16, 384, 320], seq![256u16, 160, 160]],
    ];
    rows[bitrate][version_column][layer_column]
}

/// The table column of a version field value: MPEG 1 is column 0, MPEG 2
/// and 2.5 share column 1.
pub open spec fn version_column(version: u8) -> int {
    if version == 3 {
        0
    } else {
        1
    }
}

/// The table column of a layer field value (3 is layer I, 1 is layer III).
pub open spec fn layer_column(layer: u8) -> int {
    3 - layer
}

/// The bitrate a frame header gives, 0 where version or layer is reserved.
pub open spec fn bitrate_value(bitrate: u8, version: u8, layer: u8) -> u16 {
    if version == VERSION_RESERVED_VALUE || layer == LAYER_RESERVED_VALUE {
        0
    } else {
        bitrate_table(bitrate as int, version_column(version), layer_column(layer))
    }
}

fn bitrate_table_value(bitrate: u8, version_column: usize, layer_column: usize) -> (value: u16)
    requires
        bitrate < 15,
        version_column < 2,
        layer_column < 3,
    ensures
        value == bitrate_table(bitrate as int, version_column as int, layer_column as int),
{
    let row: [[u16; 3]; 2] = if bitrate == 0 {
        [[0, 0, 0], [0, 0, 0]]
    } else if bitrate == 1 {
        [[32, 32, 32], [32, 8, 8]]
    } else if bitrate == 2 {
        [[64, 48, 40], [48, 16, 16]]
    } else if bitrate == 3 {
        [[96, 56, 48], [56, 24, 24]]
    } else if bitrate == 4 {
        [[128, 64, 56], [64, 32, 32]]
    } else if bitrate == 5 {
        [[60, 80, 64], [80, 40, 40]]
    } else if bitrate == 6 {
        [[192, 96, 80], [96, 48, 48]]
    } else if bitrate == 7 {
        [[224, 112, 96], [112, 56, 56]]
    } else if bitrate == 8 {
        [[256, 128, 112], [128, 64, 64]]
    } else if bitrate == 9 {
        [[288, 160, 128], [144, 80, 80]]
    } else if bitrate == 10 {
        [[320, 192, 160], [160, 96, 96]]
    } else if bitrate == 11 {
        [[352, 224, 192], [176, 112, 112]]
    } else if bitrate == 12 {
        [[384, 256, 224], [192, 128, 128]]
    } else if bitrate == 13 {
        [[416, 320, 256], [224, 144, 144]]
    } else {
        [[448, 384, 320], [256, 160, 160]]
    };
    row[version_column][layer_column]
}

/// The bitrate in kbit/s for the bitrate, version and layer fields of a
/// frame header.
pub fn get_bitrate_from_index(bitrate: u8, version: u8, layer: u8) -> (result: Result<
    u16,
    LocalError,
>)
    ensures
        match result {
            Ok(value) => {
                &&& bitrate < MPEG_BITRATE_INDEX_LENGTH
                &&& (version == VERSION_RESERVED_VALUE || layer == LAYER_RESERVED_VALUE || (
                version < 4 && layer < 4))
                &&& value == bitrate_value(bitrate, version, layer)
            },
            Err(e) => if bitrate >= MPEG_BITRATE_INDEX_LENGTH {
                e == LocalError::MP3BitrateIndexOverflow(bitrate)
            } else if version == VERSION_RESERVED_VALUE || layer == LAYER_RESERVED_VALUE {
                false
            } else if version >= 4 {
                e == LocalError::MP3VersionIndexOverflow(version)
            } else {
                layer >= 4 && e == LocalError::MP3LayerIndexOverflow(layer)
            },
        },
{
    if bitrate >= MPEG_BITRATE_INDEX_LENGTH {
        return Err(LocalError::MP3BitrateIndexOverflow(bitrate));
    }
    if version == VERSION_RESERVED_VALUE || layer == LAYER_RESERVED_VALUE {
        return Ok(0);
    }
    if version >= 4 {
        return Err(LocalError::MP3VersionIndexOverflow(version));
    }
    if layer >= 4 {
        return Err(LocalError::MP3LayerIndexOverflow(layer));
    }
    let version_col: usize = if version == 3 {
        0
    } else {
        1
    };
    let layer_col: usize = (3 - layer) as usize;
    Ok(bitrate_table_value(bitrate, version_col, layer_col))
}

/// The band range of a layer I/II mode extension.
pub open spec fn band_text(mode_extension: u8) -> Seq<char> {
    if mode_extension == 0 {
        "Bands 4 to 31"@
    } else if mode_extension == 1 {
        "Bands 8 to 31"@
    } else if mode_extension == 2 {
        "Bands 12 to 31"@
    } else {
        "Bands 16 to 31"@
    }
}

/// `On` or `Off`.
pub open spec fn on_off_text(on: bool) -> Seq<char> {
    if on {
        "On"@
    } else {
        "Off"@
    }
}

/// The joint stereo, intensity stereo and mid/side stereo texts of a mode
/// extension: layers I and II (3 and 2) give a band range, layer III (1)
/// gives the two stereo switches (bit 0 intensity, bit 1 mid/side), any
/// other layer gives nothing.
pub open spec fn mode_extension_texts(mode_extension: u8, layer: u8) -> (Seq<char>, Seq<char>, Seq<char>) {
    if layer == 3 || layer == 2 {
        (band_text(mode_extension), Seq::empty(), Seq::empty())
    } else if layer == 1 {
        (Seq::empty(), on_off_text(mode_extension % 2 == 1), on_off_text(mode_extension >= 2))
    } else {
        (Seq::empty(), Seq::empty(), Seq::empty())
    }
}

fn on_off_string(on: bool) -> (text: String)
    ensures
        text@ == on_off_text(on),
{
    if on {
        String::from_str("On")
    } else {
        String::from_str("Off")
    }
}

/// The joint stereo, intensity stereo and mid/side stereo values of a mode
/// extension for a layer.
pub fn get_mode_extension_from_index(mode_extension: u8, layer: u8) -> (values: (
    String,
    String,
    String,
))
    requires
        1 <= layer <= 3 ==> mode_extension < MPEG_MODE_EXTENSION_LENGTH,
    ensures
        (values.0@, values.1@, values.2@) == mode_extension_texts(mode_extension, layer),
{
    if layer == 3 || layer == 2 {
        let joint = if mode_extension == 0 {
            String::from_str("Bands 4 to 31")
        } else if mode_extension == 1 {
            String::from_str("Bands 8 to 31")
        } else if mode_extension == 2 {
            String::from_str("Bands 12 to 31")
        } else {
            String::from_str("Bands 16 to 31")
        };
        (joint, String::new(), String::new())
    } else if layer == 1 {
        let intensity = on_off_string(mode_extension % 2 == 1);
        let mid_side = on_off_string(mode_extension >= 2);
        (String::new(), intensity, mid_side)
    } else {
        (String::new(), String::new(), String::new())
    }
}

/// The MPEG audio version named by a version field value.
pub open spec fn version_text(version: u8) -> Seq<char> {
    if version == 0 {
        "MPEG Version 2.5"@
    } else if version == 1 {
        "Reserved"@
    } else if version == 2 {
        "MPEG Version 2 (ISO/IEC 13818-3)"@
    } else {
        "MPEG Version 1 (ISO/IEC 11172-3)"@
    }
}

/// The layer named by a layer field value.
pub open spec fn layer_text(layer: u8) -> Seq<char> {
    if layer == 0 {
        "Reserved"@
    } else if layer == 1 {
        "Layer III"@
    } else if layer == 2 {
        "Layer II"@
    } else {
        "Layer I"@
    }
}

/// The channel mode named by a channel mode field value.
pub open spec fn channel_mode_text(mode: u8) -> Seq<char> {
    if mode == 0 {
        "Stereo"@
    } else if mode == 1 {
        "Joint stereo (Stereo)"@
    } else if mode == 2 {
        "Dual channel (Stereo)"@
    } else {
        "Single channel (Mono)"@
    }
}

/// The emphasis named by an emphasis field value.
pub open spec fn emphasis_text(emphasis: u8) -> Seq<char> {
    if emphasis == 0 {
        "None"@
    } else if emphasis == 1 {
        "50/15 ms"@
    } else if emphasis == 2 {
        "Reserved"@
    } else {
        "CCIT J.17"@
    }
}

/// Whether a header describes its fields as `header` does.
pub open spec fn mp3_header_matches(bytes: Seq<u8>, header: Mp3Header) -> bool {
    let version = bytes[1] / 8 % 4;
    let layer = bytes[1] / 2 % 4;
    let bitrate = bytes[2] / 16;
    let sample_rate = bytes[2] / 4 % 4;
    let mode_extension = bytes[3] / 16 % 4;
    let stereo = mode_extension_texts(mode_extension, layer);
    &&& header.version@ == version_text(version)
    &&& header.layer@ == layer_text(layer)
    &&& header.protected@ == bool_text(bytes[1] % 2)
    &&& header.bitrate == bitrate_value(bitrate, version, layer)
    &&& header.sample_rate@ == khz_text(raw_sample_rate(sample_rate, version) as nat)
    &&& header.private_bit@ == bool_text(bytes[2] % 2)
    &&& header.channel_mode@ == channel_mode_text(bytes[3] / 64)
    &&& header.joint_stereo@ == stereo.0
    &&& header.intensity_stereo@ == stereo.1
    &&& header.mid_side_stereo@ == stereo.2
    &&& header.copyright@ == bool_text(bytes[3] / 8 % 2)
    &&& header.original@ == bool_text(bytes[3] / 4 % 2)
    &&& header.emphasis@ == emphasis_text(bytes[3] % 4)
}

fn text_of_four(index: u8, first: &str, second: &str, third: &str, fourth: &str) -> (text: String)
    requires
        index < 4,
    ensures
        text@ == if index == 0 {
            first@
        } else if index == 1 {
            second@
        } else if index == 2 {
            third@
        } else {
            fourth@
        },
{
    if index == 0 {
        first.to_owned()
    } else if index == 1 {
        second.to_owned()
    } else if index == 2 {
        third.to_owned()
    } else {
        fourth.to_owned()
    }
}

/// Decodes the four bytes of an MPEG audio frame header. The bitrate field
/// 15 (which MPEG calls bad) is refused.
pub fn get_header_metadata(header_bytes: &[u8]) -> (result: Result<Mp3Header, LocalError>)
    requires
        header_bytes@.len() >= MP3_HEADER_LENGTH_IN_BYTES,
    ensures
        match result {
            Ok(header) => header_bytes@[2] / 16 < MPEG_BITRATE_INDEX_LENGTH && mp3_header_matches(
                header_bytes@,
                header,
            ),
            Err(e) => header_bytes@[2] / 16 >= MPEG_BITRATE_INDEX_LENGTH
                && e == LocalError::MP3BitrateIndexOverflow(header_bytes@[2] / 16),
        },
{
    let b1 = header_bytes[1];
    let b2 = header_bytes[2];
    let b3 = header_bytes[3];
    let version = b1 / 8 % 4;
    let layer = b1 / 2 % 4;
    let protected = b1 % 2;
    let bitrate = b2 / 16;
    let sample_rate = b2 / 4 % 4;
    let private_bit = b2 % 2;
    let channel_mode = b3 / 64;
    let mode_extension = b3 / 16 % 4;
    let copyright = b3 / 8 % 2;
    let original = b3 / 4 % 2;
    let emphasis = b3 % 4;

    let mode_extension_values = get_mode_extension_from_index(mode_extension, layer);
    let bitrate_kbps = match get_bitrate_from_index(bitrate, version, layer) {
        Ok(value) => value,
        Err(e) => {
            return Err(e);
        },
    };
    let sample_rate_text = match get_sample_rate_from_index(sample_rate, version) {
        Ok(text) => text,
        Err(e) => {
            return Err(e);
        },
    };
    Ok(
        Mp3Header {
            version: text_of_four(
                version,
                "MPEG Version 2.5",
                "Reserved",
                "MPEG Version 2 (ISO/IEC 13818-3)",
                "MPEG Version 1 (ISO/IEC 11172-3)",
            ),
            layer: text_of_four(layer, "Reserved", "Layer III", "Layer II", "Layer I"),
            protected: format_bit_as_bool_string(protected),
            bitrate: bitrate_kbps,
            sample_rate: sample_rate_text,
            private_bit: format_bit_as_bool_string(private_bit),
            channel_mode: text_of_four(
                channel_mode,
                "Stereo",
                "Joint stereo (Stereo)",
                "Dual channel (Stereo)",
                "Single channel (Mono)",
            ),
            joint_stereo: mode_extension_values.0,
            intensity_stereo: mode_extension_values.1,
            mid_side_stereo: mode_extension_values.2,
            copyright: format_bit_as_bool_string(copyright),
            original: format_bit_as_bool_string(original),
            emphasis: text_of_four(emphasis, "None", "50/15 ms", "Reserved", "CCIT J.17"),
        },
    )
}

/// A sync-safe integer holds 28 bits: seven from each of its four bytes.
pub proof fn sync_safe_values_hold_28_bits(b: Seq<u8>)
    requires
        b.len() >= 4,
        !has_oversized_byte(b),
    ensures
        0 <= sync_safe_value(b) < 268435456,
{
    assert(b[0] <= 127 && b[1] <= 127 && b[2] <= 127 && b[3] <= 127);
}

/// The template of an MP3 frame header's report entry.
pub const MP3_TEMPLATE: &'static str = "\n-------------\nMP3 Header Details:\n-------------\nVersion: {{ version }}\nLayer: {{ layer }}\nProtected: {{ protected }}\nBitrate: {{ bitrate }} kbps\nSample Rate: {{ sample_rate }} kHz\nPrivate Bit: {{ private_bit }}\nChannel Mode: {{ channel_mode }}\nJoint Stereo: {{ joint_stereo }}\nIntensity Stereo: {{ intensity_stereo }}\nMid/Side Stereo: {{ mid_side_stereo }}\nCopyright: {{ copyright }}\nOriginal: {{ original }}\nEmphasis: {{ emphasis }}";

/// The values a mp3 entry is rendered from.
pub open spec fn mp3_output_values(m: Mp3Header) -> Seq<(Seq<char>, Seq<char>)> {
    seq![
        ("version"@, m.version@),
        ("layer"@, m.layer@),
        ("protected"@, m.protected@),
        ("bitrate"@, decimal_text(m.bitrate as nat)),
        ("sample_rate"@, m.sample_rate@),
        ("private_bit"@, m.private_bit@),
        ("channel_mode"@, m.channel_mode@),
        ("joint_stereo"@, m.joint_stereo@),
        ("intensity_stereo"@, m.intensity_stereo@),
        ("mid_side_stereo"@, m.mid_side_stereo@),
        ("copyright"@, m.copyright@),
        ("original"@, m.original@),
        ("emphasis"@, m.emphasis@),
    ]
}

fn mp3_values(m: &Mp3Header) -> (values: Vec<(String, String)>)
    ensures
        values_view(values@) == mp3_output_values(*m),
{
    let values = vec![
        named("version", m.version.clone()),
        named("layer", m.layer.clone()),
        named("protected", m.protected.clone()),
        named("bitrate", decimal_string(m.bitrate as u64)),
        named("sample_rate", m.sample_rate.clone()),
        named("private_bit", m.private_bit.clone()),
        named("channel_mode", m.channel_mode.clone()),
        named("joint_stereo", m.joint_stereo.clone()),
        named("intensity_stereo", m.intensity_stereo.clone()),
        named("mid_side_stereo", m.mid_side_stereo.clone()),
        named("copyright", m.copyright.clone()),
        named("original", m.original.clone()),
        named("emphasis", m.emphasis.clone()),
    ];
    assert(values_view(values@) =~= mp3_output_values(*m));
    values
}

/// The report entry of an MP3 frame header: the bitrate index error, or the
/// decoded fields rendered under `Mandatory`.
pub open spec fn mp3_entry_is(bytes: Seq<u8>, result: Result<OutputEntry, LocalError>) -> bool {
    if bytes[2] / 16 >= MPEG_BITRATE_INDEX_LENGTH {
        result == Err::<OutputEntry, LocalError>(LocalError::MP3BitrateIndexOverflow(bytes[2] / 16))
    } else {
        exists|m: Mp3Header| #[trigger] mp3_header_matches(bytes, m) && entry_of(
            Section::Mandatory,
            upon_rendered_text(MP3_TEMPLATE@, mp3_output_values(m)),
            result,
        )
    }
}

/// Decodes an MP3 frame header and renders it as its report entry.
pub fn mp3_entry(header_bytes: &[u8]) -> (result: Result<OutputEntry, LocalError>)
    requires
        header_bytes@.len() >= MP3_HEADER_LENGTH_IN_BYTES,
    ensures
        mp3_entry_is(header_bytes@, result),
{
    match get_header_metadata(header_bytes) {
        Ok(m) => {
            let values = mp3_values(&m);
            render_entry(Section::Mandatory, MP3_TEMPLATE, &values)
        },
        Err(e) => Err(e),
    }
}

/// MPEG sample rates: MPEG-1 (version field 3) samples at 44100, 48000 or
/// 32000 Hz for the sample rate fields 0, 1 and 2; MPEG-2 (version field 2)
/// at half those rates and MPEG-2.5 (version field 0) at a quarter of them;
/// the reserved version (1) and the reserved sample rate field (3) have no
/// rate.
pub proof fn sample_rates_follow_the_mpeg_versions(sample_rate: u8, version: u8)
    requires
        sample_rate < 4,
        version < 4,
    ensures
        sample_rate == 0 ==> raw_sample_rate(sample_rate, 3) == 44100,
        sample_rate == 1 ==> raw_sample_rate(sample_rate, 3) == 48000,
        sample_rate == 2 ==> raw_sample_rate(sample_rate, 3) == 32000,
        2 * raw_sample_rate(sample_rate, 2) == raw_sample_rate(sample_rate, 3),
        4 * raw_sample_rate(sample_rate, 0) == raw_sample_rate(sample_rate, 3),
        raw_sample_rate(sample_rate, 1) == 0,
        raw_sample_rate(3, version) == 0,
{
}

/// The MPEG bitrates in kbit/s, by bitrate field `i` (0 is the free
/// format): MPEG-1 layer I is 32·i (the field 5 entry reads 60, as this
/// table has it); MPEG-1 layer II rises by 16, then 8, then 16, 32 and 64
/// kbit/s steps; MPEG-1 layer III is layer II one field lower from field 3
/// on; MPEG-2/2.5 layer I matches MPEG-1 layer II up to field 8, then rises
/// by 16; MPEG-2/2.5 layers II and III are the same, 8·i up to field 8 and
/// 16 kbit/s steps after it.
pub proof fn bitrates_follow_the_mpeg_tables(i: int)
    requires
        0 <= i < MPEG_BITRATE_INDEX_LENGTH,
    ensures
        bitrate_table(0, 0, 0) == 0 && bitrate_table(0, 0, 1) == 0 && bitrate_table(0, 0, 2) == 0,
        bitrate_table(0, 1, 0) == 0 && bitrate_table(0, 1, 1) == 0 && bitrate_table(0, 1, 2) == 0,
        1 <= i && i != 5 ==> bitrate_table(i, 0, 0) == 32 * i,
        bitrate_table(5, 0, 0) == 60,
        i == 1 ==> bitrate_table(i, 0, 1) == 32,
        2 <= i <= 4 ==> bitrate_table(i, 0, 1) == 8 * (i + 4),
        5 <= i <= 7 ==> bitrate_table(i, 0, 1) == 16 * i,
        8 <= i <= 12 ==> bitrate_table(i, 0, 1) == 32 * (i - 4),
        13 <= i ==> bitrate_table(i, 0, 1) == 64 * (i - 8),
        bitrate_table(1, 0, 2) == 32 && bitrate_table(2, 0, 2) == 40,
        3 <= i ==> bitrate_table(i, 0, 2) == bitrate_table(i - 1, 0, 1),
        1 <= i <= 8 ==> bitrate_table(i, 1, 0) == bitrate_table(i, 0, 1),
        9 <= i <= 12 ==> bitrate_table(i, 1, 0) == 16 * i,
        13 <= i ==> bitrate_table(i, 1, 0) == bitrate_table(i - 2, 0, 1),
        bitrate_table(i, 1, 1) == bitrate_table(i, 1, 2),
        1 <= i <= 8 ==> bitrate_table(i, 1, 1) == 8 * i,
        9 <= i ==> bitrate_table(i, 1, 1) == 16 * (i - 4),
{
}

/// The layer a layer field names: 3 is layer I, 2 layer II, 1 layer III,
/// written as that many `I`s after `Layer `.
pub proof fn layer_fields_count_down(layer: u8)
    requires
        1 <= layer <= 3,
    ensures
        layer_text(layer) == "Layer "@ + Seq::new((4 - layer) as nat, |k: int| 'I'),
{
    reveal_strlit("Layer ");
    reveal_strlit("Layer I");
    reveal_strlit("Layer II");
    reveal_strlit("Layer III");
    assert(layer_text(layer) =~= "Layer "@ + Seq::new((4 - layer) as nat, |k: int| 'I'));
}

/// The band range of a layer I or II mode extension starts at band
/// 4·(extension + 1) and ends at band 31.
pub proof fn band_ranges_step_by_four(mode_extension: u8)
    requires
        mode_extension < 4,
    ensures
        band_text(mode_extension) == "Bands "@ + decimal_text(4 * (mode_extension as nat + 1)) + " to 31"@,
{
    reveal_strlit("Bands ");
    reveal_strlit(" to 31");
    reveal_strlit("Bands 4 to 31");
    reveal_strlit("Bands 8 to 31");
    reveal_strlit("Bands 12 to 31");
    reveal_strlit("Bands 16 to 31");
    assert(decimal_text(4) =~= seq!['4']);
    assert(decimal_text(8) =~= seq!['8']);
    assert(decimal_text(1) =~= seq!['1']);
    assert(decimal_text(12) =~= seq!['1', '2']);
    assert(decimal_text(16) =~= seq!['1', '6']);
    assert(band_text(mode_extension) =~= "Bands "@ + decimal_text(4 * (mode_extension as nat + 1)) + " to 31"@);
}

} // verus!
