use crate::byte_arrays::{
    i16_field, i32_field, take_field, take_first_byte_as_unsigned_integer,
    take_first_four_bytes_as_signed_integer, take_first_number_of_bytes,
    take_first_number_of_bytes_as_string, take_first_two_bytes_as_signed_integer, text_field,
    u8_field, Endian,
};
use crate::errors::LocalError;
use crate::template::{entry_of, named, render_entry, upon_rendered_text, values_view};
use crate::output::{OutputEntry, Section};
use crate::strings::{signed_decimal_string, signed_decimal_text};
use vstd::prelude::*;

verus! {

pub const COMPRESSION_NAME_LENGTH_IN_BYTES: usize = 4;
/// Length of the 80-bit extended precision sample rate.
pub const SAMPLE_RATE_LENGTH_IN_BYTES: usize = 10;

/// The decoded contents of an AIFF COMM chunk. The sample rate is kept as
/// its ten bytes (an 80-bit IEEE extended precision float, big-endian).
#[derive(Debug, Clone, PartialEq, Eq)]
pub struct CommMetadata {
    pub number_of_channels: i16,
    pub sample_frames: i32,
    pub sample_size: i16,
    pub sample_rate_bytes: Vec<u8>,
    pub compression_type: String,
    pub compression_name: String,
}

/// The compression fields of an AIFF-C COMM chunk: a four byte type, a one
/// byte name length and the name; none when no bytes are left.
pub open spec fn compression_fields(s: Seq<u8>) -> Result<(Seq<char>, Seq<char>), LocalError> {
    if s.len() == 0 {
        Ok((Seq::empty(), Seq::empty()))
    } else {
        match text_field(s, 4) {
            Err(e) => Err(e),
            Ok((compression_type, s)) => match u8_field(s) {
                Err(e) => Err(e),
                Ok((n, s)) => match text_field(s, n as int) {
                    Err(e) => Err(e),
                    Ok((compression_name, _)) => Ok((compression_type, compression_name)),
                },
            },
        }
    }
}

/// The fields of a COMM chunk: channels, sample frames, sample size (all
/// big-endian, signed), the ten sample rate bytes and the compression
/// fields.
pub open spec fn comm_fields(s: Seq<u8>) -> Result<
    (i16, i32, i16, Seq<u8>, Seq<char>, Seq<char>),
    LocalError,
> {
    match i16_field(s, Endian::Big) {
        Err(e) => Err(e),
        Ok((channels, s)) => match i32_field(s, Endian::Big) {
            Err(e) => Err(e),
            Ok((frames, s)) => match i16_field(s, Endian::Big) {
                Err(e) => Err(e),
                Ok((sample_size, s)) => match take_field(s, 10) {
                    Err(e) => Err(e),
                    Ok((rate, s)) => match compression_fields(s) {
                        Err(e) => Err(e),
                        Ok((t, n)) => Ok((channels, frames, sample_size, rate, t, n)),
                    },
                },
            },
        },
    }
}

/// Decodes an AIFF COMM chunk.
pub fn get_metadata(chunk_data: Vec<u8>) -> (result: Result<CommMetadata, LocalError>)
    ensures
        match comm_fields(chunk_data@) {
            Ok((channels, frames, sample_size, rate, t, n)) => result matches Ok(m)
                && m.number_of_channels == channels && m.sample_frames == frames && m.sample_size
                == sample_size && m.sample_rate_bytes@ == rate && m.compression_type@ == t
                && m.compression_name@ == n,
            Err(e) => result == Err::<CommMetadata, LocalError>(e),
        },
{
    let mut data = chunk_data;
    let number_of_channels = match take_first_two_bytes_as_signed_integer(&mut data, Endian::Big) {
        Ok(v) => v,
        Err(e) => return Err(e),
    };
    let sample_frames = match take_first_four_bytes_as_signed_integer(&mut data, Endian::Big) {
        Ok(v) => v,
        Err(e) => return Err(e),
    };
    let sample_size = match take_first_two_bytes_as_signed_integer(&mut data, Endian::Big) {
        Ok(v) => v,
        Err(e) => return Err(e),
    };
    let sample_rate_bytes = match take_first_number_of_bytes(&mut data, SAMPLE_RATE_LENGTH_IN_BYTES) {
        Ok(v) => v,
        Err(e) => return Err(e),
    };
    let mut compression_type = String::new();
    let mut compression_name = String::new();
    if data.len() > 0 {
        compression_type = match take_first_number_of_bytes_as_string(
            &mut data,
            COMPRESSION_NAME_LENGTH_IN_BYTES,
        ) {
            Ok(v) => v,
            Err(e) => return Err(e),
        };
        let compression_name_size = match take_first_byte_as_unsigned_integer(&mut data, Endian::Big) {
            Ok(v) => v as usize,
            Err(e) => return Err(e),
        };
        compression_name = match take_first_number_of_bytes_as_string(&mut data, compression_name_size) {
            Ok(v) => v,
            Err(e) => return Err(e),
        };
    }
    Ok(CommMetadata {
        number_of_channels,
        sample_frames,
        sample_size,
        sample_rate_bytes,
        compression_type,
        compression_name,
    })
}

/// The template of a common chunk's report entry.
pub const COMM_TEMPLATE: &'static str = "\n-------------\nCommon (COMM) Chunk Details:\n-------------\nNumber of Channels: {{ number_of_channels }}\nSample Frames: {{ sample_frames }}\nSample Size: {{ sample_size }} bits\nSample Rate: {{ sample_rate }} Hz\nCompression Type: {{ compression_type }}\nCompression Name: {{ compression_name }}";

/// The values a common chunk's entry is rendered from; the sample rate, a
/// floating point number, comes as the text it is written as.
pub open spec fn comm_output_values(
    fields: (i16, i32, i16, Seq<u8>, Seq<char>, Seq<char>),
    sample_rate: Seq<char>,
) -> Seq<(Seq<char>, Seq<char>)> {
    seq![
        ("number_of_channels"@, signed_decimal_text(fields.0 as int)),
        ("sample_frames"@, signed_decimal_text(fields.1 as int)),
        ("sample_size"@, signed_decimal_text(fields.2 as int)),
        ("sample_rate"@, sample_rate),
        ("compression_type"@, fields.4),
        ("compression_name"@, fields.5),
    ]
}

/// The report entry of a common chunk: the decoding error, or its fields
/// rendered under `Mandatory`.
pub open spec fn comm_entry_is(data: Seq<u8>, sample_rate: Seq<char>, result: Result<OutputEntry, LocalError>) -> bool {
    match comm_fields(data) {
        Ok(f) => entry_of(Section::Mandatory, upon_rendered_text(COMM_TEMPLATE@, comm_output_values(f, sample_rate)), result),
        Err(e) => result == Err::<OutputEntry, LocalError>(e),
    }
}

/// Decodes a common chunk and renders it as its report entry. The sample
/// rate is a floating point number, handed in as the text it is written as.
pub fn comm_entry(chunk_data: Vec<u8>, sample_rate: &str) -> (result: Result<OutputEntry, LocalError>)
    ensures
        comm_entry_is(chunk_data@, sample_rate@, result),
{
    let ghost data = chunk_data@;
    match get_metadata(chunk_data) {
        Ok(m) => {
            let values = vec![
                named("number_of_channels", signed_decimal_string(m.number_of_channels as i64)),
                named("sample_frames", signed_decimal_string(m.sample_frames as i64)),
                named("sample_size", signed_decimal_string(m.sample_size as i64)),
                named("sample_rate", String::from_str(sample_rate)),
                named("compression_type", m.compression_type),
                named("compression_name", m.compression_name),
            ];
            assert(values_view(values@) =~= comm_output_values(comm_fields(data)->Ok_0, sample_rate@));
            render_entry(Section::Mandatory, COMM_TEMPLATE, &values)
        },
        Err(e) => Err(e),
    }
}

/// The integer fields of a COMM chunk are big-endian two's complement: the
/// channel count is bytes 0 and 1 (most significant first), the number of
/// sample frames bytes 2 to 5, the sample size bytes 6 and 7, and the ten
/// sample rate bytes follow from byte 8; a chunk that decodes is at least
/// 18 bytes long.
pub proof fn comm_integers_are_big_endian(data: Seq<u8>)
    requires
        comm_fields(data) is Ok,
    ensures
        data.len() >= 18,
        ({
            let (channels, frames, sample_size, rate, _, _) = comm_fields(data)->Ok_0;
            let c = 256 * data[0] + data[1];
            let f = 16777216 * data[2] + 65536 * data[3] + 256 * data[4] + data[5];
            let z = 256 * data[6] + data[7];
            &&& channels as int == if c >= 32768 { c - 65536 } else { c }
            &&& frames as int == if f >= 2147483648 { f - 4294967296 } else { f }
            &&& sample_size as int == if z >= 32768 { z - 65536 } else { z }
            &&& rate == data.subrange(8, 18)
        }),
{
    assert(data.skip(2).take(4) =~= data.subrange(2, 6));
    assert(data.skip(2).skip(4).take(2) =~= data.subrange(6, 8));
    assert(data.skip(2).skip(4).skip(2).take(10) =~= data.subrange(8, 18));
}

} // verus!
