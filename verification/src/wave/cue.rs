use crate::byte_arrays::{
    take_first_four_bytes_as_unsigned_integer, take_first_number_of_bytes_as_string, text_field,
    u32_field, Endian,
};
use crate::errors::LocalError;
use crate::template::{get_file_chunk_output, join_on_own_lines, named, own_lines, rendered_as, upon_rendered_text, values_view};
use crate::strings::{decimal_string, decimal_text, lines_view, push_decimal};
use crate::byte_arrays::{le32, printable_text};
use vstd::prelude::*;

verus! {

pub const DATA_CHUNK_ID_LENGTH_IN_BYTES: usize = 4;

/// A cue point of a CUE chunk.
#[derive(Debug, Clone, PartialEq)]
pub struct CuePoint {
    pub id: u32,
    pub position: u32,
    pub data_chunk_id: String,
    pub chunk_start: u32,
    pub block_start: u32,
    pub sample_start: u32,
}

/// The cue points of a CUE chunk and their declared number.
#[derive(Debug, Clone, PartialEq)]
pub struct CueFields {
    pub number_of_cue_points: u32,
    pub cue_points: Vec<CuePoint>,
}

/// The view of a cue point.
pub open spec fn cue_point_view(p: CuePoint) -> (u32, u32, Seq<char>, u32, u32, u32) {
    (p.id, p.position, p.data_chunk_id@, p.chunk_start, p.block_start, p.sample_start)
}

/// The views of a list of cue points.
pub open spec fn cue_points_view(points: Seq<CuePoint>) -> Seq<(u32, u32, Seq<char>, u32, u32, u32)> {
    points.map_values(|p: CuePoint| cue_point_view(p))
}

/// `remaining` cue point records from the front of `s`: ID, position, a
/// four byte data chunk ID, chunk start, block start and sample start,
/// little-endian.
pub open spec fn cue_records(s: Seq<u8>, remaining: nat) -> Result<
    Seq<(u32, u32, Seq<char>, u32, u32, u32)>,
    LocalError,
>
    decreases remaining,
{
    if remaining == 0 {
        Ok(Seq::empty())
    } else {
        match u32_field(s, Endian::Little) {
            Err(e) => Err(e),
            Ok((id, s)) => match u32_field(s, Endian::Little) {
                Err(e) => Err(e),
                Ok((position, s)) => match text_field(s, 4) {
                    Err(e) => Err(e),
                    Ok((data_chunk_id, s)) => match u32_field(s, Endian::Little) {
                        Err(e) => Err(e),
                        Ok((chunk_start, s)) => match u32_field(s, Endian::Little) {
                            Err(e) => Err(e),
                            Ok((block_start, s)) => match u32_field(s, Endian::Little) {
                                Err(e) => Err(e),
                                Ok((sample_start, s)) => match cue_records(
                                    s,
                                    (remaining - 1) as nat,
                                ) {
                                    Err(e) => Err(e),
                                    Ok(rest) => Ok(
                                        seq![
                                            (
                                                id,
                                                position,
                                                data_chunk_id,
                                                chunk_start,
                                                block_start,
                                                sample_start,
                                            ),
                                        ] + rest,
                                    ),
                                },
                            },
                        },
                    },
                },
            },
        }
    }
}

/// A CUE chunk: the number of cue points, then that many records.
pub open spec fn cue_chunk(s: Seq<u8>) -> Result<
    (u32, Seq<(u32, u32, Seq<char>, u32, u32, u32)>),
    LocalError,
> {
    match u32_field(s, Endian::Little) {
        Err(e) => Err(e),
        Ok((n, s)) => match cue_records(s, n as nat) {
            Err(e) => Err(e),
            Ok(points) => Ok((n, points)),
        },
    }
}

/// A result with `prefix` in front of its records.
pub open spec fn prefixed_records<T>(prefix: Seq<T>, result: Result<Seq<T>, LocalError>) -> Result<
    Seq<T>,
    LocalError,
> {
    match result {
        Ok(v) => Ok(prefix + v),
        Err(e) => Err(e),
    }
}

impl CueFields {
    /// Decodes a CUE chunk.
    pub fn new(chunk_data: Vec<u8>) -> (result: Result<Self, LocalError>)
        ensures
            match cue_chunk(chunk_data@) {
                Ok((n, points)) => result matches Ok(f) && f.number_of_cue_points == n
                    && cue_points_view(f.cue_points@) == points,
                Err(e) => result == Err::<CueFields, LocalError>(e),
            },
    {
        let mut data = chunk_data;
        let number_of_cue_points = match take_first_four_bytes_as_unsigned_integer(
            &mut data,
            Endian::Little,
        ) {
            Ok(v) => v,
            Err(e) => return Err(e),
        };
        let ghost after_count = data@;
        let mut cue_points: Vec<CuePoint> = Vec::new();
        let mut i: u32 = 0;
        assert(cue_points_view(cue_points@) + Seq::empty() =~= cue_points_view(cue_points@));
        while i < number_of_cue_points
            invariant
                i <= number_of_cue_points,
                u32_field(chunk_data@, Endian::Little) == Ok::<(u32, Seq<u8>), LocalError>(
                    (number_of_cue_points, after_count),
                ),
                cue_records(after_count, number_of_cue_points as nat) == prefixed_records(
                    cue_points_view(cue_points@),
                    cue_records(data@, (number_of_cue_points - i) as nat),
                ),
            decreases number_of_cue_points - i,
        {
            let id = match take_first_four_bytes_as_unsigned_integer(&mut data, Endian::Little) {
                Ok(v) => v,
                Err(e) => return Err(e),
            };
            let position = match take_first_four_bytes_as_unsigned_integer(&mut data, Endian::Little) {
                Ok(v) => v,
                Err(e) => return Err(e),
            };
            let data_chunk_id = match take_first_number_of_bytes_as_string(
                &mut data,
                DATA_CHUNK_ID_LENGTH_IN_BYTES,
            ) {
                Ok(v) => v,
                Err(e) => return Err(e),
            };
            let chunk_start = match take_first_four_bytes_as_unsigned_integer(&mut data, Endian::Little) {
                Ok(v) => v,
                Err(e) => return Err(e),
            };
            let block_start = match take_first_four_bytes_as_unsigned_integer(&mut data, Endian::Little) {
                Ok(v) => v,
                Err(e) => return Err(e),
            };
            let sample_start = match take_first_four_bytes_as_unsigned_integer(&mut data, Endian::Little) {
                Ok(v) => v,
                Err(e) => return Err(e),
            };
            let ghost before = cue_points_view(cue_points@);
            let point = CuePoint { id, position, data_chunk_id, chunk_start, block_start, sample_start };
            let ghost pv = cue_point_view(point);
            cue_points.push(point);
            assert(cue_points_view(cue_points@) =~= before.push(pv));
            proof {
                match cue_records(data@, (number_of_cue_points - i - 1) as nat) {
                    Ok(v) => {
                        assert(before + (seq![pv] + v) =~= before.push(pv) + v);
                    },
                    Err(_) => {},
                }
            }
            i = i + 1;
        }
        assert(cue_points_view(cue_points@) + Seq::empty() =~= cue_points_view(cue_points@));
        Ok(CueFields { number_of_cue_points, cue_points })
    }
}

/// A CUE chunk that can be read yields exactly as many cue points as its
/// count field declares.
pub proof fn cue_points_match_their_count(s: Seq<u8>, remaining: nat)
    ensures
        cue_records(s, remaining) matches Ok(points) ==> points.len() == remaining,
    decreases remaining,
{
    if remaining > 0 {
        match u32_field(s, Endian::Little) {
            Err(_) => {},
            Ok((_, s1)) => match u32_field(s1, Endian::Little) {
                Err(_) => {},
                Ok((_, s2)) => match text_field(s2, 4) {
                    Err(_) => {},
                    Ok((_, s3)) => match u32_field(s3, Endian::Little) {
                        Err(_) => {},
                        Ok((_, s4)) => match u32_field(s4, Endian::Little) {
                            Err(_) => {},
                            Ok((_, s5)) => match u32_field(s5, Endian::Little) {
                                Err(_) => {},
                                Ok((_, s6)) => cue_points_match_their_count(
                                    s6,
                                    (remaining - 1) as nat,
                                ),
                            },
                        },
                    },
                },
            },
        }
    }
}

/// The template of a CUE chunk: the declared number of cue points, then a
/// line for each cue point.
pub const CUE_TEMPLATE: &'static str = "\n-------------\nCue Chunk Details:\n-------------\nNumber of Cue Points: {{ number_of_cue_points }}{{ cue_points }}";

/// The line of a cue point.
pub open spec fn cue_point_text(p: CuePoint) -> Seq<char> {
    "Cue Point "@ + decimal_text(p.id as nat) + ": position "@ + decimal_text(p.position as nat)
        + ", data chunk "@ + p.data_chunk_id@ + ", chunk start "@ + decimal_text(p.chunk_start as nat)
        + ", block start "@ + decimal_text(p.block_start as nat) + ", sample start "@ + decimal_text(
        p.sample_start as nat,
    )
}

/// The values a CUE chunk is rendered from.
pub open spec fn cue_output_values(c: CueFields) -> Seq<(Seq<char>, Seq<char>)> {
    seq![
        ("number_of_cue_points"@, decimal_text(c.number_of_cue_points as nat)),
        ("cue_points"@, own_lines(c.cue_points@.map_values(|p: CuePoint| cue_point_text(p)))),
    ]
}

/// Writes the line of a cue point.
pub fn cue_point_string(p: &CuePoint) -> (text: String)
    ensures
        text@ == cue_point_text(*p),
{
    let mut text = String::from_str("Cue Point ");
    push_decimal(&mut text, p.id as u64);
    text.append(": position ");
    push_decimal(&mut text, p.position as u64);
    text.append(", data chunk ");
    text.append(p.data_chunk_id.as_str());
    text.append(", chunk start ");
    push_decimal(&mut text, p.chunk_start as u64);
    text.append(", block start ");
    push_decimal(&mut text, p.block_start as u64);
    text.append(", sample start ");
    push_decimal(&mut text, p.sample_start as u64);
    text
}

impl CueFields {
    /// Renders the number of cue points and a line for each cue point.
    pub fn format_data_for_output(&self) -> (result: Result<String, String>)
        ensures
            rendered_as(result, upon_rendered_text(CUE_TEMPLATE@, cue_output_values(*self))),
    {
        let mut lines: Vec<String> = Vec::new();
        let mut i: usize = 0;
        while i < self.cue_points.len()
            invariant
                i <= self.cue_points@.len(),
                lines_view(lines@) =~= self.cue_points@.take(i as int).map_values(
                    |p: CuePoint| cue_point_text(p),
                ),
            decreases self.cue_points@.len() - i,
        {
            let ghost before = lines_view(lines@);
            let line = cue_point_string(&self.cue_points[i]);
            lines.push(line);
            assert(lines_view(lines@) =~= before.push(cue_point_text(self.cue_points@[i as int])));
            assert(self.cue_points@.take(i + 1) =~= self.cue_points@.take(i as int).push(
                self.cue_points@[i as int],
            ));
            i = i + 1;
        }
        assert(self.cue_points@.take(i as int) =~= self.cue_points@);
        let values = vec![
            named("number_of_cue_points", decimal_string(self.number_of_cue_points as u64)),
            named("cue_points", join_on_own_lines(&lines)),
        ];
        assert(values_view(values@) =~= cue_output_values(*self));
        get_file_chunk_output(CUE_TEMPLATE, &values)
    }
}

/// A CUE chunk is little-endian, least significant byte first: the number
/// of cue points is bytes 0 to 3, and as many 24 byte records follow, the
/// first giving its ID (bytes 4 to 7), position (8 to 11), data chunk ID (12
/// to 15), chunk start (16 to 19), block start (20 to 23) and sample start
/// (24 to 27).
pub proof fn cue_fields_are_little_endian(s: Seq<u8>)
    requires
        cue_chunk(s) is Ok,
    ensures
        s.len() >= 4,
        ({
            let (n, points) = cue_chunk(s)->Ok_0;
            &&& n == le32(s, 0)
            &&& points.len() == n
            &&& n > 0 ==> s.len() >= 28 && points[0] == (
                le32(s, 4) as u32,
                le32(s, 8) as u32,
                printable_text(s.subrange(12, 16)),
                le32(s, 16) as u32,
                le32(s, 20) as u32,
                le32(s, 24) as u32,
            )
        }),
{
    assert(s.take(4) =~= s.subrange(0, 4));
    let n = cue_chunk(s)->Ok_0.0;
    cue_points_match_their_count(s.skip(4), n as nat);
    if n > 0 {
        assert(s.take(4) =~= s.subrange(0, 4));
        assert(s.skip(4) =~= s.skip(4));
        assert(s.skip(4).take(4) =~= s.subrange(4, 8));
        assert(s.skip(4).skip(4) =~= s.skip(8));
        assert(s.skip(8).take(4) =~= s.subrange(8, 12));
        assert(s.skip(8).skip(4) =~= s.skip(12));
        assert(s.skip(12).take(4) =~= s.subrange(12, 16));
        assert(s.skip(12).skip(4) =~= s.skip(16));
        assert(s.skip(16).take(4) =~= s.subrange(16, 20));
        assert(s.skip(16).skip(4) =~= s.skip(20));
        assert(s.skip(20).take(4) =~= s.subrange(20, 24));
        assert(s.skip(20).skip(4) =~= s.skip(24));
        assert(s.skip(24).take(4) =~= s.subrange(24, 28));
        assert(s.skip(24).skip(4) =~= s.skip(28));
    }
}

} // verus!
