use crate::byte_arrays::{
    printable_text, take_field, take_first_four_bytes_as_unsigned_integer,
    take_first_number_of_bytes, take_first_number_of_bytes_as_string,
    take_first_two_bytes_as_unsigned_integer, text_field, u16_field, u32_field, Endian,
};
use crate::chunks::bext::get_coding_history_from_bytes;
use crate::errors::LocalError;
use crate::formating::{format_bytes_as_string_of_bytes, hex_bytes_text};
use crate::strings::{decimal_string, decimal_text};
use crate::template::{get_file_chunk_output, named, rendered_as, upon_rendered_text, values_view};
use vstd::prelude::*;

verus! {

/// Length of the description field.
pub const DESCRIPTION_LENGTH_IN_BYTES: usize = 256;

/// Length of the originator field.
pub const ORIGINATOR_LENGTH_IN_BYTES: usize = 32;

/// Length of the originator reference field.
pub const ORIGINATOR_REFERENCE_LENGTH_IN_BYTES: usize = 32;

/// Length of the origination date field.
pub const ORIGINATOR_DATA_LENGTH_IN_BYTES: usize = 10;

/// Length of the origination time field.
pub const ORIGINATOR_TIME_LENGTH_IN_BYTES: usize = 8;

/// Length of the UMID field.
pub const UMID_LENGTH_IN_BYTES: usize = 64;

/// Length of the reserved field.
pub const RESERVED_FIELD_LENGTH_IN_BYTES: usize = 180;

/// The fields of a broadcast extension chunk of a Wave file.
#[derive(Debug, Clone, PartialEq, Eq)]
pub struct BextData {
    pub description: String,
    pub originator: String,
    pub originator_reference: String,
    pub originator_date: String,
    pub originator_time: String,
    pub time_reference_low: u32,
    pub time_reference_high: u32,
    pub version: u16,
    pub umid: Vec<u8>,
    pub loudness_value: u16,
    pub loudness_range: u16,
    pub max_true_peak_level: u16,
    pub max_momentary_loudness: u16,
    pub max_short_term_loudness: u16,
    pub reserved: String,
    pub coding_history: String,
}

/// The fields of a broadcast extension chunk as stored.
pub ghost struct BextDataView {
    pub description: Seq<char>,
    pub originator: Seq<char>,
    pub originator_reference: Seq<char>,
    pub originator_date: Seq<char>,
    pub originator_time: Seq<char>,
    pub time_reference_low: u32,
    pub time_reference_high: u32,
    pub version: u16,
    pub umid: Seq<u8>,
    pub loudness_value: u16,
    pub loudness_range: u16,
    pub max_true_peak_level: u16,
    pub max_momentary_loudness: u16,
    pub max_short_term_loudness: u16,
    pub reserved: Seq<char>,
    pub coding_history: Seq<char>,
}

/// The fields of a broadcast extension chunk: five texts (256, 32, 32, 10
/// and 8 bytes), the time reference as two 32-bit halves, the version, the
/// 64 byte UMID, five 16-bit loudness values, a 180 byte reserved text, and
/// the rest as the coding history. Integers are little-endian.
pub open spec fn bext_data_fields(s: Seq<u8>) -> Result<BextDataView, LocalError> {
    match text_field(s, 256) {
        Err(e) => Err(e),
        Ok((description, s)) => 
            match text_field(s, 32) {
                Err(e) => Err(e),
                Ok((originator, s)) => 
                    match text_field(s, 32) {
                        Err(e) => Err(e),
                        Ok((originator_reference, s)) => 
                            match text_field(s, 10) {
                                Err(e) => Err(e),
                                Ok((originator_date, s)) => 
                                    match text_field(s, 8) {
                                        Err(e) => Err(e),
                                        Ok((originator_time, s)) => 
                                            match u32_field(s, Endian::Little) {
                                                Err(e) => Err(e),
                                                Ok((time_reference_low, s)) => 
                                                    match u32_field(s, Endian::Little) {
                                                        Err(e) => Err(e),
                                                        Ok((time_reference_high, s)) => 
                                                            match u16_field(s, Endian::Little) {
                                                                Err(e) => Err(e),
                                                                Ok((version, s)) => 
                                                                    match take_field(s, 64) {
                                                                        Err(e) => Err(e),
                                                                        Ok((umid, s)) => 
                                                                            match u16_field(s, Endian::Little) {
                                                                                Err(e) => Err(e),
                                                                                Ok((loudness_value, s)) => 
                                                                                    match u16_field(s, Endian::Little) {
                                                                                        Err(e) => Err(e),
                                                                                        Ok((loudness_range, s)) => 
                                                                                            match u16_field(s, Endian::Little) {
                                                                                                Err(e) => Err(e),
                                                                                                Ok((max_true_peak_level, s)) => 
                                                                                                    match u16_field(s, Endian::Little) {
                                                                                                        Err(e) => Err(e),
                                                                                                        Ok((max_momentary_loudness, s)) => 
                                                                                                            match u16_field(s, Endian::Little) {
                                                                                                                Err(e) => Err(e),
                                                                                                                Ok((max_short_term_loudness, s)) => 
                                                                                                                    match text_field(s, 180) {
                                                                                                                        Err(e) => Err(e),
                                                                                                                        Ok((reserved, s)) => 
                                                                                                                            Ok(BextDataView { description, originator, originator_reference, originator_date, originator_time, time_reference_low, time_reference_high, version, umid, loudness_value, loudness_range, max_true_peak_level, max_momentary_loudness, max_short_term_loudness, reserved, coding_history: printable_text(s) }),
                                                                                                                    },
                                                                                                            },
                                                                                                    },
                                                                                            },
                                                                                    },
                                                                            },
                                                                    },
                                                            },
                                                    },
                                            },
                                    },
                            },
                    },
            },
    }

}

/// Whether `b` holds the fields `v`.
pub open spec fn bext_data_matches(b: BextData, v: BextDataView) -> bool {
    &&& b.description@ == v.description
    &&& b.originator@ == v.originator
    &&& b.originator_reference@ == v.originator_reference
    &&& b.originator_date@ == v.originator_date
    &&& b.originator_time@ == v.originator_time
    &&& b.time_reference_low == v.time_reference_low
    &&& b.time_reference_high == v.time_reference_high
    &&& b.version == v.version
    &&& b.umid@ == v.umid
    &&& b.loudness_value == v.loudness_value
    &&& b.loudness_range == v.loudness_range
    &&& b.max_true_peak_level == v.max_true_peak_level
    &&& b.max_momentary_loudness == v.max_momentary_loudness
    &&& b.max_short_term_loudness == v.max_short_term_loudness
    &&& b.reserved@ == v.reserved
    &&& b.coding_history@ == v.coding_history
}

fn take_text(bytes: &mut Vec<u8>, n: usize) -> (result: Result<String, LocalError>)
    ensures
        match text_field(old(bytes)@, n as int) {
            Ok((t, rest)) => result matches Ok(text) && text@ == t && final(bytes)@ == rest,
            Err(e) => result == Err::<String, LocalError>(e),
        },
{
    take_first_number_of_bytes_as_string(bytes, n)
}

fn take_u16(bytes: &mut Vec<u8>) -> (result: Result<u16, LocalError>)
    ensures
        match u16_field(old(bytes)@, Endian::Little) {
            Ok((v, rest)) => result == Ok::<u16, LocalError>(v) && final(bytes)@ == rest,
            Err(e) => result == Err::<u16, LocalError>(e),
        },
{
    take_first_two_bytes_as_unsigned_integer(bytes, Endian::Little)
}

fn take_u32(bytes: &mut Vec<u8>) -> (result: Result<u32, LocalError>)
    ensures
        match u32_field(old(bytes)@, Endian::Little) {
            Ok((v, rest)) => result == Ok::<u32, LocalError>(v) && final(bytes)@ == rest,
            Err(e) => result == Err::<u32, LocalError>(e),
        },
{
    take_first_four_bytes_as_unsigned_integer(bytes, Endian::Little)
}

/// Decodes the bytes of a broadcast extension chunk.
pub fn read_bext_chunk(bext_data: Vec<u8>) -> (result: Result<BextData, LocalError>)
    ensures
        match bext_data_fields(bext_data@) {
            Ok(v) => result matches Ok(b) && bext_data_matches(b, v),
            Err(e) => result == Err::<BextData, LocalError>(e),
        },
{
    let mut data = bext_data;
    let description = match take_text(&mut data, DESCRIPTION_LENGTH_IN_BYTES) {
        Ok(v) => v,
        Err(e) => return Err(e),
    };
    let originator = match take_text(&mut data, ORIGINATOR_LENGTH_IN_BYTES) {
        Ok(v) => v,
        Err(e) => return Err(e),
    };
    let originator_reference = match take_text(&mut data, ORIGINATOR_REFERENCE_LENGTH_IN_BYTES) {
        Ok(v) => v,
        Err(e) => return Err(e),
    };
    let originator_date = match take_text(&mut data, ORIGINATOR_DATA_LENGTH_IN_BYTES) {
        Ok(v) => v,
        Err(e) => return Err(e),
    };
    let originator_time = match take_text(&mut data, ORIGINATOR_TIME_LENGTH_IN_BYTES) {
        Ok(v) => v,
        Err(e) => return Err(e),
    };
    let time_reference_low = match take_u32(&mut data) {
        Ok(v) => v,
        Err(e) => return Err(e),
    };
    let time_reference_high = match take_u32(&mut data) {
        Ok(v) => v,
        Err(e) => return Err(e),
    };
    let version = match take_u16(&mut data) {
        Ok(v) => v,
        Err(e) => return Err(e),
    };
    let umid = match take_first_number_of_bytes(&mut data, UMID_LENGTH_IN_BYTES) {
        Ok(v) => v,
        Err(e) => return Err(e),
    };
    let loudness_value = match take_u16(&mut data) {
        Ok(v) => v,
        Err(e) => return Err(e),
    };
    let loudness_range = match take_u16(&mut data) {
        Ok(v) => v,
        Err(e) => return Err(e),
    };
    let max_true_peak_level = match take_u16(&mut data) {
        Ok(v) => v,
        Err(e) => return Err(e),
    };
    let max_momentary_loudness = match take_u16(&mut data) {
        Ok(v) => v,
        Err(e) => return Err(e),
    };
    let max_short_term_loudness = match take_u16(&mut data) {
        Ok(v) => v,
        Err(e) => return Err(e),
    };
    let reserved = match take_text(&mut data, RESERVED_FIELD_LENGTH_IN_BYTES) {
        Ok(v) => v,
        Err(e) => return Err(e),
    };
    let coding_history = match get_coding_history_from_bytes(data) {
        Ok(v) => v,
        Err(e) => return Err(e),
    };
    Ok(
        BextData {
            description,
            originator,
            originator_reference,
            originator_date,
            originator_time,
            time_reference_low,
            time_reference_high,
            version,
            umid,
            loudness_value,
            loudness_range,
            max_true_peak_level,
            max_momentary_loudness,
            max_short_term_loudness,
            reserved,
            coding_history,
        },
    )
}

/// The template of a broadcast extension chunk.
pub const BEXT_TEMPLATE: &'static str = "\n-------------\nBroadcast Wave Format (bext) Chunk Details:\n-------------\nDescription: {{ description }}\nOriginator: {{ originator }}\nOriginator Reference: {{ originator_reference }}\nOriginator Date: {{ originator_date }}\nOriginator Time: {{ originator_time }}\nTime Reference: {{ time_reference }}\nBWF Version: {{ version }}\nUMID: {{ umid }}\nLoudness Value: {{ loudness_value }}\nLoudness Range: {{ loudness_range }}\nMaximum True Peak Level: {{ max_true_peak_level }}\nMaximum Momentary Loudness: {{ max_momentary_loudness }}\nMaximum Short Term Loudness: {{ max_short_term_loudness }}\nCoding History: {{ coding_history }}";

/// The values a broadcast extension chunk is rendered from; the time
/// reference is its two halves taken as one 64-bit number.
pub open spec fn bext_output_values(b: BextData) -> Seq<(Seq<char>, Seq<char>)> {
    seq![
        ("description"@, b.description@),
        ("originator"@, b.originator@),
        ("originator_reference"@, b.originator_reference@),
        ("originator_date"@, b.originator_date@),
        ("originator_time"@, b.originator_time@),
        ("time_reference"@, decimal_text((b.time_reference_high as nat) * 4294967296 + b.time_reference_low as nat)),
        ("version"@, decimal_text(b.version as nat)),
        ("umid"@, hex_bytes_text(b.umid@)),
        ("loudness_value"@, decimal_text(b.loudness_value as nat)),
        ("loudness_range"@, decimal_text(b.loudness_range as nat)),
        ("max_true_peak_level"@, decimal_text(b.max_true_peak_level as nat)),
        ("max_momentary_loudness"@, decimal_text(b.max_momentary_loudness as nat)),
        ("max_short_term_loudness"@, decimal_text(b.max_short_term_loudness as nat)),
        ("coding_history"@, b.coding_history@),
    ]
}

impl BextData {
    /// Renders the chunk's fields.
    pub fn format_data_for_output(&self) -> (result: Result<String, String>)
        ensures
            rendered_as(result, upon_rendered_text(BEXT_TEMPLATE@, bext_output_values(*self))),
    {
        let time_reference = (self.time_reference_high as u64) * 4294967296 + self.time_reference_low as u64;
        let values = vec![
            named("description", self.description.clone()),
            named("originator", self.originator.clone()),
            named("originator_reference", self.originator_reference.clone()),
            named("originator_date", self.originator_date.clone()),
            named("originator_time", self.originator_time.clone()),
            named("time_reference", decimal_string(time_reference)),
            named("version", decimal_string(self.version as u64)),
            named("umid", format_bytes_as_string_of_bytes(self.umid.as_slice())),
            named("loudness_value", decimal_string(self.loudness_value as u64)),
            named("loudness_range", decimal_string(self.loudness_range as u64)),
            named("max_true_peak_level", decimal_string(self.max_true_peak_level as u64)),
            named("max_momentary_loudness", decimal_string(self.max_momentary_loudness as u64)),
            named("max_short_term_loudness", decimal_string(self.max_short_term_loudness as u64)),
            named("coding_history", self.coding_history.clone()),
        ];
        assert(values_view(values@) =~= bext_output_values(*self));
        get_file_chunk_output(BEXT_TEMPLATE, &values)
    }
}

} // verus!
