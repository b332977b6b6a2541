use crate::byte_arrays::{
    i16_field, printable_text, take_field,
    take_first_eight_bytes_as_unsigned_integer, take_first_number_of_bytes,
    take_first_number_of_bytes_as_string, take_first_two_bytes_as_signed_integer,
    take_first_two_bytes_as_unsigned_integer, text_field, u16_field, u64_field, Endian,
};
use crate::errors::LocalError;
use crate::formating::{format_bytes_as_string_of_bytes, hex_bytes_text};
use crate::template::{entry_of, named, render_entry, upon_rendered_text, values_view};
use crate::output::{OutputEntry, Section};
use crate::strings::{decimal_string, decimal_text, signed_decimal_string, signed_decimal_text};
use crate::byte_arrays::{le16, le32};
use vstd::prelude::*;

verus! {

pub const DESCRIPTION_LENGTH_IN_BYTES: usize = 256;
pub const ORIGINATOR_LENGTH_IN_BYTES: usize = 32;
pub const ORIGINATOR_REFERENCE_LENGTH_IN_BYTES: usize = 32;
pub const ORIGINATOR_DATA_LENGTH_IN_BYTES: usize = 10;
pub const ORIGINATOR_TIME_LENGTH_IN_BYTES: usize = 8;
pub const RESERVED_FIELD_LENGTH_IN_BYTES: usize = 180;
pub const UMID_UNIVERSAL_LABEL_LENGTH_IN_BYTES: usize = 12;
pub const UMID_LENGTH_LENGTH_IN_BYTES: usize = 1;
pub const UMID_INSTANCE_NUMBER_LENGTH_IN_BYTES: usize = 3;
pub const UMID_MATERIAL_NUMBER_LEMGTH_IN_BYTES: usize = 16;
pub const UMID_TIME_AND_DATE_LENGTH_IN_BYTES: usize = 8;
pub const UMID_SPATIAL_COORDINATES_LENGTH_IN_BYTES: usize = 12;
pub const UMID_COUNTRY_LENGTH_IN_BYTES: usize = 4;
pub const UMID_ORGANIZATION_LENGTH_IN_BYTES: usize = 4;
pub const UMID_USER_LENGTH_IN_BYTES: usize = 4;

/// The components of a SMPTE UMID, as raw bytes.
#[derive(Debug, Clone, PartialEq)]
pub struct UmidComponent {
    pub universal_label: Vec<u8>,
    pub length: Vec<u8>,
    pub instance_number: Vec<u8>,
    pub material_number: Vec<u8>,
    pub time_and_date: Vec<u8>,
    pub spatial_coordinates: Vec<u8>,
    pub country: Vec<u8>,
    pub organization: Vec<u8>,
    pub user: Vec<u8>,
}

/// The view of a UMID: its components in order.
pub ghost struct UmidView {
    pub universal_label: Seq<u8>,
    pub length: Seq<u8>,
    pub instance_number: Seq<u8>,
    pub material_number: Seq<u8>,
    pub time_and_date: Seq<u8>,
    pub spatial_coordinates: Seq<u8>,
    pub country: Seq<u8>,
    pub organization: Seq<u8>,
    pub user: Seq<u8>,
}

impl View for UmidComponent {
    type V = UmidView;

    open spec fn view(&self) -> UmidView {
        UmidView {
            universal_label: self.universal_label@,
            length: self.length@,
            instance_number: self.instance_number@,
            material_number: self.material_number@,
            time_and_date: self.time_and_date@,
            spatial_coordinates: self.spatial_coordinates@,
            country: self.country@,
            organization: self.organization@,
            user: self.user@,
        }
    }
}

/// The UMID components at the start of `s` (12, 1, 3, 16, 8, 12, 4, 4 and
/// 4 bytes), followed by the rest.
pub open spec fn umid_fields(s: Seq<u8>) -> Result<(UmidView, Seq<u8>), LocalError> {
    match take_field(s, 12) {
        Err(e) => Err(e),
        Ok((universal_label, s)) => 
            match take_field(s, 1) {
                Err(e) => Err(e),
                Ok((length, s)) => 
                    match take_field(s, 3) {
                        Err(e) => Err(e),
                        Ok((instance_number, s)) => 
                            match take_field(s, 16) {
                                Err(e) => Err(e),
                                Ok((material_number, s)) => 
                                    match take_field(s, 8) {
                                        Err(e) => Err(e),
                                        Ok((time_and_date, s)) => 
                                            match take_field(s, 12) {
                                                Err(e) => Err(e),
                                                Ok((spatial_coordinates, s)) => 
                                                    match take_field(s, 4) {
                                                        Err(e) => Err(e),
                                                        Ok((country, s)) => 
                                                            match take_field(s, 4) {
                                                                Err(e) => Err(e),
                                                                Ok((organization, s)) => 
                                                                    match take_field(s, 4) {
                                                                        Err(e) => Err(e),
                                                                        Ok((user, s)) => Ok((UmidView { universal_label, length, instance_number, material_number, time_and_date, spatial_coordinates, country, organization, user }, s)),
                                                                    },
                                                            },
                                                    },
                                            },
                                    },
                            },
                    },
            },
    }
}

/// Takes the UMID components from the front of `umid_data`.
pub fn get_umid_from_bytes(umid_data: &mut Vec<u8>) -> (result: Result<UmidComponent, LocalError>)
    ensures
        match umid_fields(old(umid_data)@) {
            Ok((v, rest)) => result matches Ok(u) && u@ == v && final(umid_data)@ == rest,
            Err(e) => result == Err::<UmidComponent, LocalError>(e),
        },
{
    let universal_label = match take_first_number_of_bytes(umid_data, UMID_UNIVERSAL_LABEL_LENGTH_IN_BYTES) {
        Ok(v) => v,
        Err(e) => return Err(e),
    };
    let length = match take_first_number_of_bytes(umid_data, UMID_LENGTH_LENGTH_IN_BYTES) {
        Ok(v) => v,
        Err(e) => return Err(e),
    };
    let instance_number = match take_first_number_of_bytes(umid_data, UMID_INSTANCE_NUMBER_LENGTH_IN_BYTES) {
        Ok(v) => v,
        Err(e) => return Err(e),
    };
    let material_number = match take_first_number_of_bytes(umid_data, UMID_MATERIAL_NUMBER_LEMGTH_IN_BYTES) {
        Ok(v) => v,
        Err(e) => return Err(e),
    };
    let time_and_date = match take_first_number_of_bytes(umid_data, UMID_TIME_AND_DATE_LENGTH_IN_BYTES) {
        Ok(v) => v,
        Err(e) => return Err(e),
    };
    let spatial_coordinates = match take_first_number_of_bytes(umid_data, UMID_SPATIAL_COORDINATES_LENGTH_IN_BYTES) {
        Ok(v) => v,
        Err(e) => return Err(e),
    };
    let country = match take_first_number_of_bytes(umid_data, UMID_COUNTRY_LENGTH_IN_BYTES) {
        Ok(v) => v,
        Err(e) => return Err(e),
    };
    let organization = match take_first_number_of_bytes(umid_data, UMID_ORGANIZATION_LENGTH_IN_BYTES) {
        Ok(v) => v,
        Err(e) => return Err(e),
    };
    let user = match take_first_number_of_bytes(umid_data, UMID_USER_LENGTH_IN_BYTES) {
        Ok(v) => v,
        Err(e) => return Err(e),
    };
    Ok(UmidComponent {
        universal_label,
        length,
        instance_number,
        material_number,
        time_and_date,
        spatial_coordinates,
        country,
        organization,
        user,
    })
}

/// The coding history of a BEXT chunk: the text of the bytes after the
/// fixed fields (empty when there are none).
pub fn get_coding_history_from_bytes(bext_data: Vec<u8>) -> (result: Result<String, LocalError>)
    ensures
        result matches Ok(text) && text@ == printable_text(bext_data@),
{
    let mut data = bext_data;
    let mut coding_history = String::new();
    if data.len() > 0 {
        let remaining_bytes = data.len();
        coding_history = match take_first_number_of_bytes_as_string(&mut data, remaining_bytes) {
            Ok(text) => text,
            Err(e) => return Err(e),
        };
        assert(bext_data@.take(remaining_bytes as int) =~= bext_data@);
    } else {
        assert(printable_text(bext_data@) =~= Seq::<char>::empty());
    }
    Ok(coding_history)
}

/// The fields of a BEXT (broadcast extension) chunk as stored.
pub ghost struct BextView {
    pub description: Seq<char>,
    pub originator: Seq<char>,
    pub originator_reference: Seq<char>,
    pub originator_date: Seq<char>,
    pub originator_time: Seq<char>,
    pub time_reference: u64,
    pub version: u16,
    pub umid: UmidView,
    pub loudness_value: i16,
    pub loudness_range: i16,
    pub max_true_peak_level: i16,
    pub max_momentary_loudness: i16,
    pub max_short_term_loudness: i16,
    pub reserved: Seq<char>,
    pub coding_history: Seq<char>,
}

/// The fields of a BEXT chunk: texts of 256, 32, 32, 10 and 8 bytes, a
/// 64-bit time reference, a 16-bit version, the UMID, five signed 16-bit
/// loudness values (hundredths), a 180 byte reserved text and the coding
/// history (the rest); numbers little-endian.
pub open spec fn bext_fields(s: Seq<u8>) -> Result<BextView, LocalError> {
    match text_field(s, 256) {
        Err(e) => Err(e),
        Ok((description, s)) => 
            match text_field(s, 32) {
                Err(e) => Err(e),
                Ok((originator, s)) => 
                    match text_field(s, 32) {
                        Err(e) => Err(e),
                        Ok((originator_reference, s)) => 
                            match text_field(s, 10) {
                                Err(e) => Err(e),
                                Ok((originator_date, s)) => 
                                    match text_field(s, 8) {
                                        Err(e) => Err(e),
                                        Ok((originator_time, s)) => 
                                            match u64_field(s, Endian::Little) {
                                                Err(e) => Err(e),
                                                Ok((time_reference, s)) => 
                                                    match u16_field(s, Endian::Little) {
                                                        Err(e) => Err(e),
                                                        Ok((version, s)) => 
                                                            match umid_fields(s) {
                                                                Err(e) => Err(e),
                                                                Ok((umid, s)) => 
                                                                    match i16_field(s, Endian::Little) {
                                                                        Err(e) => Err(e),
                                                                        Ok((loudness_value, s)) => 
                                                                            match i16_field(s, Endian::Little) {
                                                                                Err(e) => Err(e),
                                                                                Ok((loudness_range, s)) => 
                                                                                    match i16_field(s, Endian::Little) {
                                                                                        Err(e) => Err(e),
                                                                                        Ok((max_true_peak_level, s)) => 
                                                                                            match i16_field(s, Endian::Little) {
                                                                                                Err(e) => Err(e),
                                                                                                Ok((max_momentary_loudness, s)) => 
                                                                                                    match i16_field(s, Endian::Little) {
                                                                                                        Err(e) => Err(e),
                                                                                                        Ok((max_short_term_loudness, s)) => 
                                                                                                            match text_field(s, 180) {
                                                                                                                Err(e) => Err(e),
                                                                                                                Ok((reserved, s)) => Ok(BextView { description, originator, originator_reference, originator_date, originator_time, time_reference, version, umid, loudness_value, loudness_range, max_true_peak_level, max_momentary_loudness, max_short_term_loudness, reserved, coding_history: printable_text(s) }),
                                                                                                            },
                                                                                                    },
                                                                                            },
                                                                                    },
                                                                            },
                                                                    },
                                                            },
                                                    },
                                            },
                                    },
                            },
                    },
            },
    }
}

/// A signed value divided by 100, rounding toward zero.
pub open spec fn hundredths(v: i16) -> int {
    if v >= 0 {
        v as int / 100
    } else {
        -((-v) as int / 100)
    }
}

/// Divides by 100, rounding toward zero.
pub fn divide_by_one_hundred(v: i16) -> (result: i16)
    ensures
        result == hundredths(v),
{
    if v >= 0 {
        v / 100
    } else {
        let magnitude: i32 = -(v as i32);
        (-(magnitude / 100)) as i16
    }
}

/// The decoded contents of a BEXT chunk: its texts, numbers (loudness
/// values in whole units, rounded toward zero), UMID and the UMID
/// components as hexadecimal text.
#[derive(Debug, Clone, PartialEq)]
pub struct BextMetadata {
    pub description: String,
    pub originator: String,
    pub originator_reference: String,
    pub originator_date: String,
    pub originator_time: String,
    pub time_reference: u64,
    pub version: u16,
    pub loudness_value: i16,
    pub loudness_range: i16,
    pub max_true_peak_level: i16,
    pub max_momentary_loudness: i16,
    pub max_short_term_loudness: i16,
    pub reserved: String,
    pub coding_history: String,
    pub umid: UmidComponent,
    pub universal_label: String,
    pub instance_number: String,
    pub material_number: String,
    pub time_and_date: String,
    pub spatial_coordinates: String,
    pub country: String,
    pub organization: String,
    pub user: String,
}

/// Whether the metadata shows the fields of a BEXT chunk.
pub open spec fn bext_metadata_matches(m: BextMetadata, v: BextView) -> bool {
    &&& m.description@ == v.description
    &&& m.originator@ == v.originator
    &&& m.originator_reference@ == v.originator_reference
    &&& m.originator_date@ == v.originator_date
    &&& m.originator_time@ == v.originator_time
    &&& m.time_reference == v.time_reference
    &&& m.version == v.version
    &&& m.loudness_value == hundredths(v.loudness_value)
    &&& m.loudness_range == hundredths(v.loudness_range)
    &&& m.max_true_peak_level == hundredths(v.max_true_peak_level)
    &&& m.max_momentary_loudness == hundredths(v.max_momentary_loudness)
    &&& m.max_short_term_loudness == hundredths(v.max_short_term_loudness)
    &&& m.reserved@ == v.reserved
    &&& m.coding_history@ == v.coding_history
    &&& m.umid@ == v.umid
    &&& m.universal_label@ == hex_bytes_text(v.umid.universal_label)
    &&& m.instance_number@ == hex_bytes_text(v.umid.instance_number)
    &&& m.material_number@ == hex_bytes_text(v.umid.material_number)
    &&& m.time_and_date@ == hex_bytes_text(v.umid.time_and_date)
    &&& m.spatial_coordinates@ == hex_bytes_text(v.umid.spatial_coordinates)
    &&& m.country@ == hex_bytes_text(v.umid.country)
    &&& m.organization@ == hex_bytes_text(v.umid.organization)
    &&& m.user@ == hex_bytes_text(v.umid.user)
}

/// Decodes a BEXT chunk.
pub fn get_metadata(chunk_data: Vec<u8>) -> (result: Result<BextMetadata, LocalError>)
    ensures
        match bext_fields(chunk_data@) {
            Ok(v) => result matches Ok(m) && bext_metadata_matches(m, v),
            Err(e) => result == Err::<BextMetadata, LocalError>(e),
        },
{
    let mut chunk_data = chunk_data;
    let description = match take_first_number_of_bytes_as_string(&mut chunk_data, DESCRIPTION_LENGTH_IN_BYTES) {
        Ok(v) => v,
        Err(e) => return Err(e),
    };
    let originator = match take_first_number_of_bytes_as_string(&mut chunk_data, ORIGINATOR_LENGTH_IN_BYTES) {
        Ok(v) => v,
        Err(e) => return Err(e),
    };
    let originator_reference = match take_first_number_of_bytes_as_string(
        &mut chunk_data,
        ORIGINATOR_REFERENCE_LENGTH_IN_BYTES,
    ) {
        Ok(v) => v,
        Err(e) => return Err(e),
    };
    let originator_date = match take_first_number_of_bytes_as_string(&mut chunk_data, ORIGINATOR_DATA_LENGTH_IN_BYTES) {
        Ok(v) => v,
        Err(e) => return Err(e),
    };
    let originator_time = match take_first_number_of_bytes_as_string(&mut chunk_data, ORIGINATOR_TIME_LENGTH_IN_BYTES) {
        Ok(v) => v,
        Err(e) => return Err(e),
    };
    let time_reference = match take_first_eight_bytes_as_unsigned_integer(&mut chunk_data, Endian::Little) {
        Ok(v) => v,
        Err(e) => return Err(e),
    };
    let version = match take_first_two_bytes_as_unsigned_integer(&mut chunk_data, Endian::Little) {
        Ok(v) => v,
        Err(e) => return Err(e),
    };
    let umid = match get_umid_from_bytes(&mut chunk_data) {
        Ok(v) => v,
        Err(e) => return Err(e),
    };
    let loudness_value = match take_first_two_bytes_as_signed_integer(&mut chunk_data, Endian::Little) {
        Ok(v) => v,
        Err(e) => return Err(e),
    };
    let loudness_range = match take_first_two_bytes_as_signed_integer(&mut chunk_data, Endian::Little) {
        Ok(v) => v,
        Err(e) => return Err(e),
    };
    let max_true_peak_level = match take_first_two_bytes_as_signed_integer(&mut chunk_data, Endian::Little) {
        Ok(v) => v,
        Err(e) => return Err(e),
    };
    let max_momentary_loudness = match take_first_two_bytes_as_signed_integer(&mut chunk_data, Endian::Little) {
        Ok(v) => v,
        Err(e) => return Err(e),
    };
    let max_short_term_loudness = match take_first_two_bytes_as_signed_integer(&mut chunk_data, Endian::Little) {
        Ok(v) => v,
        Err(e) => return Err(e),
    };
    let reserved = match take_first_number_of_bytes_as_string(&mut chunk_data, RESERVED_FIELD_LENGTH_IN_BYTES) {
        Ok(v) => v,
        Err(e) => return Err(e),
    };
    let coding_history = match get_coding_history_from_bytes(chunk_data) {
        Ok(v) => v,
        Err(e) => return Err(e),
    };
    let universal_label = format_bytes_as_string_of_bytes(umid.universal_label.as_slice());
    let instance_number = format_bytes_as_string_of_bytes(umid.instance_number.as_slice());
    let material_number = format_bytes_as_string_of_bytes(umid.material_number.as_slice());
    let time_and_date = format_bytes_as_string_of_bytes(umid.time_and_date.as_slice());
    let spatial_coordinates = format_bytes_as_string_of_bytes(umid.spatial_coordinates.as_slice());
    let country = format_bytes_as_string_of_bytes(umid.country.as_slice());
    let organization = format_bytes_as_string_of_bytes(umid.organization.as_slice());
    let user = format_bytes_as_string_of_bytes(umid.user.as_slice());
    Ok(BextMetadata {
        description,
        originator,
        originator_reference,
        originator_date,
        originator_time,
        time_reference,
        version,
        loudness_value: divide_by_one_hundred(loudness_value),
        loudness_range: divide_by_one_hundred(loudness_range),
        max_true_peak_level: divide_by_one_hundred(max_true_peak_level),
        max_momentary_loudness: divide_by_one_hundred(max_momentary_loudness),
        max_short_term_loudness: divide_by_one_hundred(max_short_term_loudness),
        reserved,
        coding_history,
        umid,
        universal_label,
        instance_number,
        material_number,
        time_and_date,
        spatial_coordinates,
        country,
        organization,
        user,
    })
}

/// The template of a broadcast extension chunk's report entry.
pub const BEXT_TEMPLATE: &'static str = "\n-------------\nBroadcast Wave Format (bext) Chunk Details:\n-------------\nDescription: {{ description }}\nOriginator: {{ originator }}\nOriginator Reference: {{ originator_reference }}\nOriginator Date: {{ originator_date }}\nOriginator Time: {{ originator_time }}\nTime Reference: {{ time_reference }}\nBWF Version: {{ version }}\nUMID Universal Label: {{ universal_label }}\nUMID Instance Number: {{ instance_number }}\nUMID Material Number: {{ material_number }}\nUMID Time and Date: {{ time_and_date }}\nUMID Spatial Coordinates: {{ spatial_coordinates }}\nUMID Country: {{ country }}\nUMID Organization: {{ organization }}\nUMID User: {{ user }}\nLoudness Value: {{ loudness_value }}\nLoudness Range: {{ loudness_range }}\nMaximum True Peak Level: {{ max_true_peak_level }}\nMaximum Momentary Loudness: {{ max_momentary_loudness }}\nMaximum Short Term Loudness: {{ max_short_term_loudness }}\nCoding History: {{ coding_history }}";

/// The values a bext entry is rendered from.
pub open spec fn bext_output_values(m: BextMetadata) -> Seq<(Seq<char>, Seq<char>)> {
    seq![
        ("description"@, m.description@),
        ("originator"@, m.originator@),
        ("originator_reference"@, m.originator_reference@),
        ("originator_date"@, m.originator_date@),
        ("originator_time"@, m.originator_time@),
        ("time_reference"@, decimal_text(m.time_reference as nat)),
        ("version"@, decimal_text(m.version as nat)),
        ("universal_label"@, m.universal_label@),
        ("instance_number"@, m.instance_number@),
        ("material_number"@, m.material_number@),
        ("time_and_date"@, m.time_and_date@),
        ("spatial_coordinates"@, m.spatial_coordinates@),
        ("country"@, m.country@),
        ("organization"@, m.organization@),
        ("user"@, m.user@),
        ("loudness_value"@, signed_decimal_text(m.loudness_value as int)),
        ("loudness_range"@, signed_decimal_text(m.loudness_range as int)),
        ("max_true_peak_level"@, signed_decimal_text(m.max_true_peak_level as int)),
        ("max_momentary_loudness"@, signed_decimal_text(m.max_momentary_loudness as int)),
        ("max_short_term_loudness"@, signed_decimal_text(m.max_short_term_loudness as int)),
        ("coding_history"@, m.coding_history@),
    ]
}

fn bext_values(m: &BextMetadata) -> (values: Vec<(String, String)>)
    ensures
        values_view(values@) == bext_output_values(*m),
{
    let values = vec![
        named("description", m.description.clone()),
        named("originator", m.originator.clone()),
        named("originator_reference", m.originator_reference.clone()),
        named("originator_date", m.originator_date.clone()),
        named("originator_time", m.originator_time.clone()),
        named("time_reference", decimal_string(m.time_reference as u64)),
        named("version", decimal_string(m.version as u64)),
        named("universal_label", m.universal_label.clone()),
        named("instance_number", m.instance_number.clone()),
        named("material_number", m.material_number.clone()),
        named("time_and_date", m.time_and_date.clone()),
        named("spatial_coordinates", m.spatial_coordinates.clone()),
        named("country", m.country.clone()),
        named("organization", m.organization.clone()),
        named("user", m.user.clone()),
        named("loudness_value", signed_decimal_string(m.loudness_value as i64)),
        named("loudness_range", signed_decimal_string(m.loudness_range as i64)),
        named("max_true_peak_level", signed_decimal_string(m.max_true_peak_level as i64)),
        named("max_momentary_loudness", signed_decimal_string(m.max_momentary_loudness as i64)),
        named("max_short_term_loudness", signed_decimal_string(m.max_short_term_loudness as i64)),
        named("coding_history", m.coding_history.clone()),
    ];
    assert(values_view(values@) =~= bext_output_values(*m));
    values
}

/// The report entry of a chunk's bytes: the decoding error, or the
/// decoded fields rendered under `Optional`.
pub open spec fn bext_entry_is(data: Seq<u8>, result: Result<OutputEntry, LocalError>) -> bool {
    match bext_fields(data) {
        Ok(v) => exists|m: BextMetadata| #[trigger] bext_metadata_matches(m, v) && entry_of(
            Section::Optional,
            upon_rendered_text(BEXT_TEMPLATE@, bext_output_values(m)),
            result,
        ),
        Err(e) => result == Err::<OutputEntry, LocalError>(e),
    }
}

/// Decodes a chunk and renders it as its report entry.
pub fn bext_entry(chunk_data: Vec<u8>) -> (result: Result<OutputEntry, LocalError>)
    ensures
        bext_entry_is(chunk_data@, result),
{
    match get_metadata(chunk_data) {
        Ok(m) => {
            let values = bext_values(&m);
            render_entry(Section::Optional, BEXT_TEMPLATE, &values)
        },
        Err(e) => Err(e),
    }
}

/// The layout of a broadcast extension chunk: 256 bytes of description, 32
/// of originator, 32 of originator reference, 10 of date and 8 of time, the
/// time reference (bytes 338 to 345, least significant first), the version
/// (bytes 346 and 347, least significant first), the 64 byte UMID, five
/// loudness values of two bytes each (least significant first, two's
/// complement) from byte 412, 180 reserved bytes and the coding history
/// from byte 602 on.
pub proof fn bext_layout(s: Seq<u8>)
    requires
        bext_fields(s) is Ok,
    ensures
        s.len() >= 602,
        ({
            let v = bext_fields(s)->Ok_0;
            &&& v.description == printable_text(s.subrange(0, 256))
            &&& v.originator == printable_text(s.subrange(256, 288))
            &&& v.time_reference == le32(s, 338) + 4294967296 * le32(s, 342)
            &&& v.version == le16(s, 346)
            &&& v.umid.universal_label == s.subrange(348, 360)
            &&& v.umid.user == s.subrange(408, 412)
            &&& v.loudness_value as int == if le16(s, 412) >= 32768 { le16(s, 412) - 65536 } else { le16(s, 412) }
            &&& v.max_short_term_loudness as int == if le16(s, 420) >= 32768 { le16(s, 420) - 65536 } else { le16(s, 420) }
            &&& v.coding_history == printable_text(s.skip(602))
        }),
{
    assert(s.take(256) =~= s.subrange(0, 256));
    assert(s.skip(256) =~= s.skip(256));
    assert(s.skip(256).take(32) =~= s.subrange(256, 288));
    assert(s.skip(256).skip(32) =~= s.skip(288));
    assert(s.skip(288).take(32) =~= s.subrange(288, 320));
    assert(s.skip(288).skip(32) =~= s.skip(320));
    assert(s.skip(320).take(10) =~= s.subrange(320, 330));
    assert(s.skip(320).skip(10) =~= s.skip(330));
    assert(s.skip(330).take(8) =~= s.subrange(330, 338));
    assert(s.skip(330).skip(8) =~= s.skip(338));
    assert(s.skip(338).take(8) =~= s.subrange(338, 346));
    assert(s.skip(338).skip(8) =~= s.skip(346));
    assert(s.skip(346).take(2) =~= s.subrange(346, 348));
    assert(s.skip(346).skip(2) =~= s.skip(348));
    assert(s.skip(348).take(12) =~= s.subrange(348, 360));
    assert(s.skip(348).skip(12) =~= s.skip(360));
    assert(s.skip(360).take(1) =~= s.subrange(360, 361));
    assert(s.skip(360).skip(1) =~= s.skip(361));
    assert(s.skip(361).take(3) =~= s.subrange(361, 364));
    assert(s.skip(361).skip(3) =~= s.skip(364));
    assert(s.skip(364).take(16) =~= s.subrange(364, 380));
    assert(s.skip(364).skip(16) =~= s.skip(380));
    assert(s.skip(380).take(8) =~= s.subrange(380, 388));
    assert(s.skip(380).skip(8) =~= s.skip(388));
    assert(s.skip(388).take(12) =~= s.subrange(388, 400));
    assert(s.skip(388).skip(12) =~= s.skip(400));
    assert(s.skip(400).take(4) =~= s.subrange(400, 404));
    assert(s.skip(400).skip(4) =~= s.skip(404));
    assert(s.skip(404).take(4) =~= s.subrange(404, 408));
    assert(s.skip(404).skip(4) =~= s.skip(408));
    assert(s.skip(408).take(4) =~= s.subrange(408, 412));
    assert(s.skip(408).skip(4) =~= s.skip(412));
    assert(s.skip(412).take(2) =~= s.subrange(412, 414));
    assert(s.skip(412).skip(2) =~= s.skip(414));
    assert(s.skip(414).take(2) =~= s.subrange(414, 416));
    assert(s.skip(414).skip(2) =~= s.skip(416));
    assert(s.skip(416).take(2) =~= s.subrange(416, 418));
    assert(s.skip(416).skip(2) =~= s.skip(418));
    assert(s.skip(418).take(2) =~= s.subrange(418, 420));
    assert(s.skip(418).skip(2) =~= s.skip(420));
    assert(s.skip(420).take(2) =~= s.subrange(420, 422));
    assert(s.skip(420).skip(2) =~= s.skip(422));
    assert(s.skip(422).take(180) =~= s.subrange(422, 602));
    assert(s.skip(422).skip(180) =~= s.skip(602));
    assert(s.subrange(338, 346).take(4) =~= s.subrange(338, 342));
    assert(s.subrange(338, 346).skip(4) =~= s.subrange(342, 346));
}

} // verus!
