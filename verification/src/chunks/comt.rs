use crate::byte_arrays::{
    i16_field, take_first_four_bytes_as_unsigned_integer, take_first_number_of_bytes_as_string,
    take_first_two_bytes_as_signed_integer, take_first_two_bytes_as_unsigned_integer, text_field,
    u16_field, u32_field, Endian,
};
use crate::errors::LocalError;
use crate::formating::{
    format_mac_hfs_timestamp_as_date_time_string, utc_date_time_text, BAD_TIMESTAMP_MESSAGE,
    MAC_HFS_FORMAT_TIMESTAMP_OFFSET,
};
use crate::strings::{trim_white_space, trim_white_space_string};
use crate::wave::cue::prefixed_records;
use crate::template::{entry_of, named, own_lines, render_entry, upon_rendered_text, values_view, join_on_own_lines};
use crate::output::{OutputEntry, Section};
use crate::strings::{lines_view, push_signed_decimal, signed_decimal_text};
use crate::byte_arrays::be16;
use vstd::prelude::*;

verus! {

/// Text shown for a comment without a timestamp.
pub const EMPTY_COMMENT_MESSAGE: &'static str = "[No Timestamp]";

/// A comment of an AIFF COMT chunk.
#[derive(Debug, Clone, PartialEq, Eq)]
pub struct Comment {
    pub timestamp: String,
    pub marker_id: i16,
    pub length: u16,
    pub comment: String,
}

/// The view of a comment.
pub open spec fn comment_view(c: Comment) -> (Seq<char>, i16, u16, Seq<char>) {
    (c.timestamp@, c.marker_id, c.length, c.comment@)
}

/// The views of a list of comments.
pub open spec fn comments_view(comments: Seq<Comment>) -> Seq<(Seq<char>, i16, u16, Seq<char>)> {
    comments.map_values(|c: Comment| comment_view(c))
}

/// The text of a comment timestamp: none for zero, otherwise the UTC date
/// of the Mac HFS timestamp; timestamps before the Unix epoch are refused.
pub open spec fn comment_timestamp_text(timestamp: u32) -> Result<Seq<char>, LocalError> {
    if timestamp == 0 {
        Ok(EMPTY_COMMENT_MESSAGE@)
    } else if timestamp < MAC_HFS_FORMAT_TIMESTAMP_OFFSET {
        Err(LocalError::HFSTimestampTooSmall)
    } else {
        match utc_date_time_text(timestamp - MAC_HFS_FORMAT_TIMESTAMP_OFFSET) {
            Some(t) => Ok(t),
            None => Ok(BAD_TIMESTAMP_MESSAGE@),
        }
    }
}

/// `remaining` comment records from the front of `s`: timestamp, marker
/// ID, text length and the text (trimmed), big-endian.
pub open spec fn comment_records(s: Seq<u8>, remaining: nat) -> Result<
    Seq<(Seq<char>, i16, u16, Seq<char>)>,
    LocalError,
>
    decreases remaining,
{
    if remaining == 0 {
        Ok(Seq::empty())
    } else {
        match u32_field(s, Endian::Big) {
            Err(e) => Err(e),
            Ok((timestamp, s)) => match comment_timestamp_text(timestamp) {
                Err(e) => Err(e),
                Ok(t) => match i16_field(s, Endian::Big) {
                    Err(e) => Err(e),
                    Ok((marker_id, s)) => match u16_field(s, Endian::Big) {
                        Err(e) => Err(e),
                        Ok((length, s)) => match text_field(s, length as int) {
                            Err(e) => Err(e),
                            Ok((comment, s)) => match comment_records(s, (remaining - 1) as nat) {
                                Err(e) => Err(e),
                                Ok(rest) => Ok(
                                    seq![(t, marker_id, length, trim_white_space(comment))] + rest,
                                ),
                            },
                        },
                    },
                },
            },
        }
    }
}

/// A COMT chunk: the number of comments, then that many records.
pub open spec fn comt_chunk(s: Seq<u8>) -> Result<Seq<(Seq<char>, i16, u16, Seq<char>)>, LocalError> {
    match u16_field(s, Endian::Big) {
        Err(e) => Err(e),
        Ok((n, s)) => comment_records(s, n as nat),
    }
}

/// Decodes an AIFF COMT chunk into its comments.
pub fn get_metadata(chunk_data: Vec<u8>) -> (result: Result<Vec<Comment>, LocalError>)
    ensures
        match comt_chunk(chunk_data@) {
            Ok(v) => result matches Ok(c) && comments_view(c@) == v,
            Err(e) => result == Err::<Vec<Comment>, LocalError>(e),
        },
{
    let mut data = chunk_data;
    let number_of_comments = match take_first_two_bytes_as_unsigned_integer(&mut data, Endian::Big) {
        Ok(v) => v,
        Err(e) => return Err(e),
    };
    let ghost after_count = data@;
    let mut comments: Vec<Comment> = Vec::new();
    let mut i: u16 = 0;
    assert(comments_view(comments@) + Seq::empty() =~= comments_view(comments@));
    while i < number_of_comments
        invariant
            i <= number_of_comments,
            u16_field(chunk_data@, Endian::Big) == Ok::<(u16, Seq<u8>), LocalError>(
                (number_of_comments, after_count),
            ),
            comment_records(after_count, number_of_comments as nat) == prefixed_records(
                comments_view(comments@),
                comment_records(data@, (number_of_comments - i) as nat),
            ),
        decreases number_of_comments - i,
    {
        let mac_hfs_format_timestamp = match take_first_four_bytes_as_unsigned_integer(
            &mut data,
            Endian::Big,
        ) {
            Ok(v) => v,
            Err(e) => return Err(e),
        };
        let timestamp = if mac_hfs_format_timestamp != 0 {
            match format_mac_hfs_timestamp_as_date_time_string(mac_hfs_format_timestamp) {
                Ok(t) => t,
                Err(e) => return Err(e),
            }
        } else {
            String::from_str(EMPTY_COMMENT_MESSAGE)
        };
        let marker_id = match take_first_two_bytes_as_signed_integer(&mut data, Endian::Big) {
            Ok(v) => v,
            Err(e) => return Err(e),
        };
        let length = match take_first_two_bytes_as_unsigned_integer(&mut data, Endian::Big) {
            Ok(v) => v,
            Err(e) => return Err(e),
        };
        let raw_comment = match take_first_number_of_bytes_as_string(&mut data, length as usize) {
            Ok(v) => v,
            Err(e) => return Err(e),
        };
        let comment = trim_white_space_string(raw_comment.as_str());
        let ghost before = comments_view(comments@);
        let c = Comment { timestamp, marker_id, length, comment };
        let ghost cv = comment_view(c);
        comments.push(c);
        assert(comments_view(comments@) =~= before.push(cv));
        proof {
            match comment_records(data@, (number_of_comments - i - 1) as nat) {
                Ok(v) => {
                    assert(before + (seq![cv] + v) =~= before.push(cv) + v);
                },
                Err(_) => {},
            }
        }
        i = i + 1;
    }
    assert(comments_view(comments@) + Seq::empty() =~= comments_view(comments@));
    Ok(comments)
}

/// A COMT chunk that can be read yields exactly as many comments as its
/// count field declares.
pub proof fn comments_match_their_count(s: Seq<u8>, remaining: nat)
    ensures
        comment_records(s, remaining) matches Ok(comments) ==> comments.len() == remaining,
    decreases remaining,
{
    if remaining > 0 {
        match u32_field(s, Endian::Big) {
            Err(_) => {},
            Ok((timestamp, s1)) => match comment_timestamp_text(timestamp) {
                Err(_) => {},
                Ok(_) => match i16_field(s1, Endian::Big) {
                    Err(_) => {},
                    Ok((_, s2)) => match u16_field(s2, Endian::Big) {
                        Err(_) => {},
                        Ok((length, s3)) => match text_field(s3, length as int) {
                            Err(_) => {},
                            Ok((_, s4)) => comments_match_their_count(s4, (remaining - 1) as nat),
                        },
                    },
                },
            },
        }
    }
}

/// The template of a comments chunk's report entry.
pub const COMT_TEMPLATE: &'static str = "\n-------------\nComments (COMT) Chunk Details:\n-------------{{ comments }}";

/// The line of a comment: `Marker {id} | {timestamp} | {comment}`.
pub open spec fn comment_line(c: Comment) -> Seq<char> {
    "Marker "@ + signed_decimal_text(c.marker_id as int) + " | "@ + c.timestamp@ + " | "@ + c.comment@
}

/// The lines of a list of items, in order.
fn comment_lines(items: &Vec<Comment>) -> (text: String)
    ensures
        text@ == own_lines(items@.map_values(|x: Comment| comment_line(x))),
{
    let mut lines: Vec<String> = Vec::new();
    let mut i: usize = 0;
    while i < items.len()
        invariant
            i <= items@.len(),
            lines_view(lines@) =~= items@.take(i as int).map_values(|x: Comment| comment_line(x)),
        decreases items@.len() - i,
    {
        let ghost before = lines_view(lines@);
        let item = &items[i];
        let mut line = String::from_str("Marker ");
        push_signed_decimal(&mut line, item.marker_id as i64);
        line.append(" | ");
        line.append(item.timestamp.as_str());
        line.append(" | ");
        line.append(item.comment.as_str());
        lines.push(line);
        assert(lines_view(lines@) =~= before.push(comment_line(items@[i as int])));
        assert(items@.take(i + 1) =~= items@.take(i as int).push(items@[i as int]));
        i = i + 1;
    }
    assert(items@.take(i as int) =~= items@);
    join_on_own_lines(&lines)
}

/// The values a comt entry is rendered from.
pub open spec fn comt_output_values(m: Vec<Comment>) -> Seq<(Seq<char>, Seq<char>)> {
    seq![
        ("comments"@, own_lines(m@.map_values(|c: Comment| comment_line(c)))),
    ]
}

fn comt_values(m: &Vec<Comment>) -> (values: Vec<(String, String)>)
    ensures
        values_view(values@) == comt_output_values(*m),
{
    let values = vec![
        named("comments", comment_lines(m)),
    ];
    assert(values_view(values@) =~= comt_output_values(*m));
    values
}

/// The report entry of a chunk's bytes: the decoding error, or the
/// decoded fields rendered under `Optional`.
pub open spec fn comt_entry_is(data: Seq<u8>, result: Result<OutputEntry, LocalError>) -> bool {
    match comt_chunk(data) {
        Ok(v) => exists|m: Vec<Comment>| #[trigger] comments_view(m@) == v && entry_of(
            Section::Optional,
            upon_rendered_text(COMT_TEMPLATE@, comt_output_values(m)),
            result,
        ),
        Err(e) => result == Err::<OutputEntry, LocalError>(e),
    }
}

/// Decodes a chunk and renders it as its report entry.
pub fn comt_entry(chunk_data: Vec<u8>) -> (result: Result<OutputEntry, LocalError>)
    ensures
        comt_entry_is(chunk_data@, result),
{
    match get_metadata(chunk_data) {
        Ok(m) => {
            let values = comt_values(&m);
            render_entry(Section::Optional, COMT_TEMPLATE, &values)
        },
        Err(e) => Err(e),
    }
}

/// The number of comments of a COMT chunk is its first two bytes, most
/// significant first.
pub proof fn comment_count_is_big_endian(s: Seq<u8>)
    requires
        comt_chunk(s) is Ok,
    ensures
        s.len() >= 2,
        comt_chunk(s)->Ok_0.len() == be16(s, 0),
{
    assert(s.take(2) =~= s.subrange(0, 2));
    comments_match_their_count(s.skip(2), be16(s, 0) as nat);
}

} // verus!
