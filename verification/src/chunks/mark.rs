use crate::byte_arrays::{
    i16_field, take_first_byte_as_unsigned_integer, take_first_four_bytes_as_unsigned_integer,
    take_first_number_of_bytes_as_string, take_first_two_bytes_as_signed_integer,
    take_first_two_bytes_as_unsigned_integer, text_field, u16_field, u32_field, u8_field, Endian,
};
use crate::errors::LocalError;
use crate::formating::add_one_if_byte_size_is_odd;
use crate::wave::cue::prefixed_records;
use crate::template::{entry_of, named, own_lines, render_entry, upon_rendered_text, values_view, join_on_own_lines};
use crate::output::{OutputEntry, Section};
use crate::strings::{decimal_text, lines_view, push_decimal, push_signed_decimal, signed_decimal_text};
use crate::byte_arrays::be16;
use vstd::prelude::*;

verus! {

/// Length of the terminator of a marker name.
pub const PSTRING_TERMINATOR_BYTE_LENGTH: u32 = 1;

/// A marker of an AIFF MARK chunk.
#[derive(Debug, Clone, PartialEq, Eq)]
pub struct Marker {
    pub marker_id: i16,
    pub name: String,
    pub position: u32,
}

/// The view of a marker.
pub open spec fn marker_view(m: Marker) -> (i16, Seq<char>, u32) {
    (m.marker_id, m.name@, m.position)
}

/// The views of a list of markers.
pub open spec fn markers_view(markers: Seq<Marker>) -> Seq<(i16, Seq<char>, u32)> {
    markers.map_values(|m: Marker| marker_view(m))
}

/// The number of bytes a marker name takes: its length padded to even,
/// plus one.
pub open spec fn marker_name_size(n: u8) -> int {
    if n % 2 == 1 {
        n + 2
    } else {
        n + 1
    }
}

/// `remaining` marker records from the front of `s`: ID, position, name
/// length and name, big-endian.
pub open spec fn marker_records(s: Seq<u8>, remaining: nat) -> Result<
    Seq<(i16, Seq<char>, u32)>,
    LocalError,
>
    decreases remaining,
{
    if remaining == 0 {
        Ok(Seq::empty())
    } else {
        match i16_field(s, Endian::Big) {
            Err(e) => Err(e),
            Ok((marker_id, s)) => match u32_field(s, Endian::Big) {
                Err(e) => Err(e),
                Ok((position, s)) => match u8_field(s) {
                    Err(e) => Err(e),
                    Ok((n, s)) => match text_field(s, marker_name_size(n)) {
                        Err(e) => Err(e),
                        Ok((name, s)) => match marker_records(s, (remaining - 1) as nat) {
                            Err(e) => Err(e),
                            Ok(rest) => Ok(seq![(marker_id, name, position)] + rest),
                        },
                    },
                },
            },
        }
    }
}

/// A MARK chunk: the number of markers, then that many records.
pub open spec fn mark_chunk(s: Seq<u8>) -> Result<Seq<(i16, Seq<char>, u32)>, LocalError> {
    match u16_field(s, Endian::Big) {
        Err(e) => Err(e),
        Ok((n, s)) => marker_records(s, n as nat),
    }
}

/// Decodes an AIFF MARK chunk into its markers.
pub fn get_metadata(chunk_data: Vec<u8>) -> (result: Result<Vec<Marker>, LocalError>)
    ensures
        match mark_chunk(chunk_data@) {
            Ok(v) => result matches Ok(m) && markers_view(m@) == v,
            Err(e) => result == Err::<Vec<Marker>, LocalError>(e),
        },
{
    let mut data = chunk_data;
    let number_of_markers = match take_first_two_bytes_as_unsigned_integer(&mut data, Endian::Big) {
        Ok(v) => v,
        Err(e) => return Err(e),
    };
    let ghost after_count = data@;
    let mut markers: Vec<Marker> = Vec::new();
    let mut i: u16 = 0;
    assert(markers_view(markers@) + Seq::empty() =~= markers_view(markers@));
    while i < number_of_markers
        invariant
            i <= number_of_markers,
            u16_field(chunk_data@, Endian::Big) == Ok::<(u16, Seq<u8>), LocalError>(
                (number_of_markers, after_count),
            ),
            marker_records(after_count, number_of_markers as nat) == prefixed_records(
                markers_view(markers@),
                marker_records(data@, (number_of_markers - i) as nat),
            ),
        decreases number_of_markers - i,
    {
        let marker_id = match take_first_two_bytes_as_signed_integer(&mut data, Endian::Big) {
            Ok(v) => v,
            Err(e) => return Err(e),
        };
        let position = match take_first_four_bytes_as_unsigned_integer(&mut data, Endian::Big) {
            Ok(v) => v,
            Err(e) => return Err(e),
        };
        let name_size_unpadded = match take_first_byte_as_unsigned_integer(&mut data, Endian::Big) {
            Ok(v) => v as u32,
            Err(e) => return Err(e),
        };
        let name_size = add_one_if_byte_size_is_odd(name_size_unpadded) + PSTRING_TERMINATOR_BYTE_LENGTH;
        let name = match take_first_number_of_bytes_as_string(&mut data, name_size as usize) {
            Ok(v) => v,
            Err(e) => return Err(e),
        };
        let ghost before = markers_view(markers@);
        let m = Marker { marker_id, name, position };
        let ghost mv = marker_view(m);
        markers.push(m);
        assert(markers_view(markers@) =~= before.push(mv));
        proof {
            match marker_records(data@, (number_of_markers - i - 1) as nat) {
                Ok(v) => {
                    assert(before + (seq![mv] + v) =~= before.push(mv) + v);
                },
                Err(_) => {},
            }
        }
        i = i + 1;
    }
    assert(markers_view(markers@) + Seq::empty() =~= markers_view(markers@));
    Ok(markers)
}

/// A MARK chunk that can be read yields exactly as many markers as its
/// count field declares.
pub proof fn markers_match_their_count(s: Seq<u8>, remaining: nat)
    ensures
        marker_records(s, remaining) matches Ok(markers) ==> markers.len() == remaining,
    decreases remaining,
{
    if remaining > 0 {
        match i16_field(s, Endian::Big) {
            Err(_) => {},
            Ok((_, s1)) => match u32_field(s1, Endian::Big) {
                Err(_) => {},
                Ok((_, s2)) => match u8_field(s2) {
                    Err(_) => {},
                    Ok((n, s3)) => match text_field(s3, marker_name_size(n)) {
                        Err(_) => {},
                        Ok((_, s4)) => markers_match_their_count(s4, (remaining - 1) as nat),
                    },
                },
            },
        }
    }
}

/// The template of a marker chunk's report entry.
pub const MARK_TEMPLATE: &'static str = "\n-------------\nMarker (MARK) Chunk Details:\n-------------{{ markers }}";

/// The line of a marker: `Marker {id}: {name} at {position}`.
pub open spec fn marker_line(m: Marker) -> Seq<char> {
    "Marker "@ + signed_decimal_text(m.marker_id as int) + ": "@ + m.name@ + " at "@ + decimal_text(m.position as nat)
}

/// The lines of a list of items, in order.
fn marker_lines(items: &Vec<Marker>) -> (text: String)
    ensures
        text@ == own_lines(items@.map_values(|x: Marker| marker_line(x))),
{
    let mut lines: Vec<String> = Vec::new();
    let mut i: usize = 0;
    while i < items.len()
        invariant
            i <= items@.len(),
            lines_view(lines@) =~= items@.take(i as int).map_values(|x: Marker| marker_line(x)),
        decreases items@.len() - i,
    {
        let ghost before = lines_view(lines@);
        let item = &items[i];
        let mut line = String::from_str("Marker ");
        push_signed_decimal(&mut line, item.marker_id as i64);
        line.append(": ");
        line.append(item.name.as_str());
        line.append(" at ");
        push_decimal(&mut line, item.position as u64);
        lines.push(line);
        assert(lines_view(lines@) =~= before.push(marker_line(items@[i as int])));
        assert(items@.take(i + 1) =~= items@.take(i as int).push(items@[i as int]));
        i = i + 1;
    }
    assert(items@.take(i as int) =~= items@);
    join_on_own_lines(&lines)
}

/// The values a mark entry is rendered from.
pub open spec fn mark_output_values(m: Vec<Marker>) -> Seq<(Seq<char>, Seq<char>)> {
    seq![
        ("markers"@, own_lines(m@.map_values(|x: Marker| marker_line(x)))),
    ]
}

fn mark_values(m: &Vec<Marker>) -> (values: Vec<(String, String)>)
    ensures
        values_view(values@) == mark_output_values(*m),
{
    let values = vec![
        named("markers", marker_lines(m)),
    ];
    assert(values_view(values@) =~= mark_output_values(*m));
    values
}

/// The report entry of a chunk's bytes: the decoding error, or the
/// decoded fields rendered under `Optional`.
pub open spec fn mark_entry_is(data: Seq<u8>, result: Result<OutputEntry, LocalError>) -> bool {
    match mark_chunk(data) {
        Ok(v) => exists|m: Vec<Marker>| #[trigger] markers_view(m@) == v && entry_of(
            Section::Optional,
            upon_rendered_text(MARK_TEMPLATE@, mark_output_values(m)),
            result,
        ),
        Err(e) => result == Err::<OutputEntry, LocalError>(e),
    }
}

/// Decodes a chunk and renders it as its report entry.
pub fn mark_entry(chunk_data: Vec<u8>) -> (result: Result<OutputEntry, LocalError>)
    ensures
        mark_entry_is(chunk_data@, result),
{
    match get_metadata(chunk_data) {
        Ok(m) => {
            let values = mark_values(&m);
            render_entry(Section::Optional, MARK_TEMPLATE, &values)
        },
        Err(e) => Err(e),
    }
}

/// The number of markers of a MARK chunk is its first two bytes, most
/// significant first.
pub proof fn marker_count_is_big_endian(s: Seq<u8>)
    requires
        mark_chunk(s) is Ok,
    ensures
        s.len() >= 2,
        mark_chunk(s)->Ok_0.len() == be16(s, 0),
{
    assert(s.take(2) =~= s.subrange(0, 2));
    markers_match_their_count(s.skip(2), be16(s, 0) as nat);
}

} // verus!
