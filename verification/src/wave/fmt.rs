use crate::byte_arrays::{u16_field, u32_field, Endian};
pub use crate::chunks::fmt::{
    format_speaker_position, get_format_name_from_format_id, format_name_text,
    speaker_positions_text, unpadded_hex_text, NUMBER_OF_SPEAKER_POSITIONS,
};
use crate::chunks::fmt::push_unpadded_hex;
use crate::errors::LocalError;
use crate::strings::{decimal_text, digit_char, digit_to_char, push_char, push_decimal};
use crate::strings::{lines_view, push_line};
use vstd::prelude::*;

verus! {

/// Size of a format chunk without an extension.
pub const FORMAT_CHUNK_SIZE_IF_NO_EXTENSION: usize = 16;

/// Length of a sub-format GUID.
pub const GUID_LENGTH_IN_BYTES: usize = 16;

/// Shown for a sub-format GUID that is not sixteen bytes long.
pub const NO_GUID_FOUND_MESSAGE: &'static str = "N/A";

/// Heading of the format lines.
pub const OUTPUT_HEADER: &'static str = "\n-------------\nFormat (fmt) Chunk Details:\n-------------";

/// The fields of a format chunk of a Wave file.
#[derive(Debug, Clone, PartialEq)]
pub struct FmtFields {
    pub format_code: String,
    pub number_of_channels: u16,
    pub samples_per_second: u32,
    pub average_data_rate: u32,
    pub data_block_size: u16,
    pub bits_per_sample: u16,
    pub valid_bits_per_sample: u16,
    pub speaker_position_mask: u32,
    pub subformat_guid: Vec<u8>,
}

/// What the format chunk bytes `s` hold: format code, channels, sample
/// rate, data rate, block size, bit depth; when the chunk is longer than 16
/// bytes an extension size; when that size is not zero, the valid bits, the
/// channel mask and the sub-format GUID (the rest). Little-endian.
pub open spec fn fmt_fields(s: Seq<u8>) -> Result<
    (u16, u16, u32, u32, u16, u16, u16, u32, Seq<u8>),
    LocalError,
> {
    match crate::chunks::fmt::fmt_basic_fields(s) {
        Err(e) => Err(e),
        Ok((format_id, channels, rate, data_rate, block, bits, rest)) => {
            if s.len() <= FORMAT_CHUNK_SIZE_IF_NO_EXTENSION {
                Ok((format_id, channels, rate, data_rate, block, bits, 0, 0, Seq::empty()))
            } else {
                match u16_field(rest, Endian::Little) {
                    Err(e) => Err(e),
                    Ok((extension_size, rest)) => if extension_size == 0 {
                        Ok((format_id, channels, rate, data_rate, block, bits, 0, 0, Seq::empty()))
                    } else {
                        match u16_field(rest, Endian::Little) {
                            Err(e) => Err(e),
                            Ok((valid_bits, rest)) => match u32_field(rest, Endian::Little) {
                                Err(e) => Err(e),
                                Ok((mask, rest)) => Ok(
                                    (
                                        format_id,
                                        channels,
                                        rate,
                                        data_rate,
                                        block,
                                        bits,
                                        valid_bits,
                                        mask,
                                        rest,
                                    ),
                                ),
                            },
                        }
                    },
                }
            }
        },
    }
}

/// Whether `fields` holds the values `f`, the format code by its name.
pub open spec fn fmt_fields_match(
    fields: FmtFields,
    f: (u16, u16, u32, u32, u16, u16, u16, u32, Seq<u8>),
) -> bool {
    &&& fields.format_code@ == format_name_text(f.0)
    &&& fields.number_of_channels == f.1
    &&& fields.samples_per_second == f.2
    &&& fields.average_data_rate == f.3
    &&& fields.data_block_size == f.4
    &&& fields.bits_per_sample == f.5
    &&& fields.valid_bits_per_sample == f.6
    &&& fields.speaker_position_mask == f.7
    &&& fields.subformat_guid@ == f.8
}

impl FmtFields {
    /// Decodes the bytes of a format chunk.
    pub fn new(fmt_data: Vec<u8>) -> (result: Result<Self, LocalError>)
        ensures
            match fmt_fields(fmt_data@) {
                Ok(f) => result matches Ok(fields) && fmt_fields_match(fields, f),
                Err(e) => result == Err::<FmtFields, LocalError>(e),
            },
    {
        let chunk_size = fmt_data.len();
        let ghost start = fmt_data@;
        let mut data = fmt_data;
        let format_id = match crate::byte_arrays::take_first_two_bytes_as_unsigned_integer(
            &mut data,
            Endian::Little,
        ) {
            Ok(v) => v,
            Err(e) => return Err(e),
        };
        let number_of_channels = match crate::byte_arrays::take_first_two_bytes_as_unsigned_integer(
            &mut data,
            Endian::Little,
        ) {
            Ok(v) => v,
            Err(e) => return Err(e),
        };
        let samples_per_second = match crate::byte_arrays::take_first_four_bytes_as_unsigned_integer(
            &mut data,
            Endian::Little,
        ) {
            Ok(v) => v,
            Err(e) => return Err(e),
        };
        let average_data_rate = match crate::byte_arrays::take_first_four_bytes_as_unsigned_integer(
            &mut data,
            Endian::Little,
        ) {
            Ok(v) => v,
            Err(e) => return Err(e),
        };
        let data_block_size = match crate::byte_arrays::take_first_two_bytes_as_unsigned_integer(
            &mut data,
            Endian::Little,
        ) {
            Ok(v) => v,
            Err(e) => return Err(e),
        };
        let bits_per_sample = match crate::byte_arrays::take_first_two_bytes_as_unsigned_integer(
            &mut data,
            Endian::Little,
        ) {
            Ok(v) => v,
            Err(e) => return Err(e),
        };
        let mut extension_size: u16 = 0;
        if chunk_size > FORMAT_CHUNK_SIZE_IF_NO_EXTENSION {
            extension_size = match crate::byte_arrays::take_first_two_bytes_as_unsigned_integer(
                &mut data,
                Endian::Little,
            ) {
                Ok(v) => v,
                Err(e) => return Err(e),
            };
        }
        let mut valid_bits_per_sample: u16 = 0;
        let mut speaker_position_mask: u32 = 0;
        let mut subformat_guid: Vec<u8> = Vec::new();
        if extension_size > 0 {
            valid_bits_per_sample = match crate::byte_arrays::take_first_two_bytes_as_unsigned_integer(
                &mut data,
                Endian::Little,
            ) {
                Ok(v) => v,
                Err(e) => return Err(e),
            };
            speaker_position_mask = match crate::byte_arrays::take_first_four_bytes_as_unsigned_integer(
                &mut data,
                Endian::Little,
            ) {
                Ok(v) => v,
                Err(e) => return Err(e),
            };
            subformat_guid = data;
        }
        Ok(
            FmtFields {
                format_code: get_format_name_from_format_id(format_id),
                number_of_channels,
                samples_per_second,
                average_data_rate,
                data_block_size,
                bits_per_sample,
                valid_bits_per_sample,
                speaker_position_mask,
                subformat_guid,
            },
        )
    }
}

/// `n` thousandths written in decimal: the whole part, then, when there is a
/// fraction, a point and its digits without trailing zeros (`44100` gives
/// `44.1`, `48000` gives `48`, `22050` gives `22.05`). This is how the value
/// `n / 1000` prints as a 64-bit float.
pub open spec fn thousandths_text(n: nat) -> Seq<char> {
    let whole = decimal_text(n / 1000);
    let fraction = n % 1000;
    if fraction == 0 {
        whole
    } else if fraction % 100 == 0 {
        whole + seq!['.', digit_char(fraction / 100)]
    } else if fraction % 10 == 0 {
        whole + seq!['.', digit_char(fraction / 100), digit_char(fraction / 10 % 10)]
    } else {
        whole + seq![
            '.',
            digit_char(fraction / 100),
            digit_char(fraction / 10 % 10),
            digit_char(fraction % 10),
        ]
    }
}

/// Appends `n` thousandths in decimal (see `thousandths_text`).
pub fn push_thousandths(text: &mut String, n: u32)
    ensures
        final(text)@ == old(text)@ + thousandths_text(n as nat),
{
    let n = n as u64;
    push_decimal(text, n / 1000);
    let fraction = n % 1000;
    if fraction != 0 {
        push_char(text, '.');
        push_char(text, digit_to_char(fraction / 100));
        if fraction % 100 != 0 {
            push_char(text, digit_to_char(fraction / 10 % 10));
            if fraction % 10 != 0 {
                push_char(text, digit_to_char(fraction % 10));
            }
        }
    }
    assert(final(text)@ =~= old(text)@ + thousandths_text(n as nat));
}

/// A sub-format GUID as unpadded upper-case hexadecimal bytes, or `N/A`
/// when it is not sixteen bytes long.
pub open spec fn guid_text(guid: Seq<u8>) -> Seq<char> {
    if guid.len() != GUID_LENGTH_IN_BYTES {
        NO_GUID_FOUND_MESSAGE@
    } else {
        unpadded_hex_text(guid)
    }
}

/// Formats a sub-format GUID.
pub fn format_guid(guid_bytes: Vec<u8>) -> (text: String)
    ensures
        text@ == guid_text(guid_bytes@),
{
    if guid_bytes.len() != GUID_LENGTH_IN_BYTES {
        return String::from_str(NO_GUID_FOUND_MESSAGE);
    }
    let mut text = String::new();
    push_unpadded_hex(&mut text, guid_bytes.as_slice());
    text
}

/// The lines that show a format chunk; rates are shown in thousands.
pub open spec fn fmt_output_lines(f: FmtFields) -> Seq<Seq<char>> {
    seq![
        OUTPUT_HEADER@,
        "Format Code: "@ + f.format_code@,
        "Number of Channels: "@ + decimal_text(f.number_of_channels as nat),
        "Sample Rate:  "@ + thousandths_text(f.samples_per_second as nat) + " kHz"@,
        "Bit Depth: "@ + decimal_text(f.bits_per_sample as nat) + " bits"@,
        "Average Data Rate: "@ + thousandths_text(f.average_data_rate as nat) + " kB/Second"@,
        "Data Block Size: "@ + decimal_text(f.data_block_size as nat) + " bytes"@,
        "Valid Bits per Sample: "@ + decimal_text(f.valid_bits_per_sample as nat) + " bits"@,
        "Speaker Position Mask: "@ + speaker_positions_text(
            f.speaker_position_mask,
            NUMBER_OF_SPEAKER_POSITIONS as nat,
        ),
        "GUID: \""@ + guid_text(f.subformat_guid@) + "\""@,
    ]
}

fn number_line(label: &str, value: u64, unit: &str) -> (text: String)
    ensures
        text@ == label@ + decimal_text(value as nat) + unit@,
{
    let mut text = String::from_str(label);
    push_decimal(&mut text, value);
    text.append(unit);
    text
}

impl FmtFields {
    /// The lines that show the chunk.
    pub fn get_metadata_output(&self) -> (lines: Vec<String>)
        ensures
            lines_view(lines@) == fmt_output_lines(*self),
    {
        let mut lines: Vec<String> = Vec::new();
        push_line(&mut lines, String::from_str(OUTPUT_HEADER));
        let mut code = String::from_str("Format Code: ");
        code.append(self.format_code.as_str());
        push_line(&mut lines, code);
        push_line(
            &mut lines,
            number_line("Number of Channels: ", self.number_of_channels as u64, ""),
        );
        let mut rate = String::from_str("Sample Rate:  ");
        push_thousandths(&mut rate, self.samples_per_second);
        rate.append(" kHz");
        push_line(&mut lines, rate);
        push_line(&mut lines, number_line("Bit Depth: ", self.bits_per_sample as u64, " bits"));
        let mut data_rate = String::from_str("Average Data Rate: ");
        push_thousandths(&mut data_rate, self.average_data_rate);
        data_rate.append(" kB/Second");
        push_line(&mut lines, data_rate);
        push_line(
            &mut lines,
            number_line("Data Block Size: ", self.data_block_size as u64, " bytes"),
        );
        push_line(
            &mut lines,
            number_line("Valid Bits per Sample: ", self.valid_bits_per_sample as u64, " bits"),
        );
        let mut speakers = String::from_str("Speaker Position Mask: ");
        let positions = format_speaker_position(self.speaker_position_mask);
        speakers.append(positions.as_str());
        push_line(&mut lines, speakers);
        let mut guid = String::from_str("GUID: \"");
        let guid_value = format_guid(self.subformat_guid.clone());
        guid.append(guid_value.as_str());
        guid.append("\"");
        push_line(&mut lines, guid);
        proof {
            reveal_strlit("");
        }
        assert(lines_view(lines@) =~= fmt_output_lines(*self));
        lines
    }
}

} // verus!
