use crate::byte_arrays::{u32_value, Endian};
use crate::errors::LocalError;
use crate::formating::{set_key_value_pair_spacers, spaced_pairs, KeyValuePair};
use crate::strings::{find_char, index_of_char, utf8_string};
use crate::template::{entry_of, join_on_own_lines, named, own_lines, render_entry, upon_rendered_text, values_view};
use crate::output::{OutputEntry, Section};
use crate::strings::{decimal_string, decimal_text, lines_view};
use crate::wave::fmt::{push_thousandths, thousandths_text};
use crate::byte_arrays::le32;
use vstd::prelude::*;
use vstd::utf8::{decode_utf8, valid_utf8};

verus! {

/// Length of an Ogg page header up to its segment count.
pub const OGG_CONTAINER_HEADER_LENGTH_IN_BYTES: usize = 26;

/// Length of the packet type and `vorbis` signature of a Vorbis header.
pub const VORBIS_COMMON_HEADER_LENGTH_IN_BYTES: usize = 7;

/// Length of the framing flag that ends an identification header.
pub const FRAMING_FLAG_LENGTH_IN_BYTES: usize = 1;

/// Length of the fields of an identification header before its framing flag:
/// version, channels, sample rate, three bitrates and the blocksize byte.
pub const IDENTIFICATION_FIELDS_LENGTH_IN_BYTES: usize = 22;

/// Bitrate type of a stream whose three bitrates are equal.
pub const FIXED_BIT_RATE_OUTPUT_STRING: &'static str = "Fixed";

/// Bitrate type of a stream with only a nominal bitrate.
pub const VBR_ABR_BIT_RATE_OUTPUT_STRING: &'static str = "VBR or ABR";

/// Bitrate type of a stream with only a maximum bitrate.
pub const MAX_LIMITED_BIT_RATE_OUTPUT_STRING: &'static str = "Maximum Limited";

/// Bitrate type of a stream with only a minimum bitrate.
pub const MIN_LIMITED_BIT_RATE_OUTPUT_STRING: &'static str = "Minimum Limited";

/// Bitrate type of any other stream.
pub const UNKNOWN_BIT_RATE_OUTPUT_STRING: &'static str = "Unknown";

/// Key shown for a user comment that cannot be read.
pub const BAD_USER_COMMENT_KEY: &'static str = "XXXX";

/// Value shown for a user comment that cannot be read.
pub const BAD_USER_COMMENT_VALUE: &'static str =
    "[Corrupt or Non-Standard Format User Comment. Halting processing comments.]";

/// The fields of the Vorbis identification and comment headers.
#[derive(Debug, Clone, PartialEq)]
pub struct HeaderMetadata {
    pub vorbis_version: u32,
    pub audio_channels: u8,
    pub audio_sample_rate: u32,
    pub bitrate_maximum: u32,
    pub bitrate_nominal: u32,
    pub bitrate_minimum: u32,
    pub blocksize_0: u8,
    pub blocksize_1: u8,
    pub bitrate_type: String,
    pub vendor_comment: String,
    pub user_comments: Vec<KeyValuePair>,
}

/// Splits the blocksize byte into its two exponents, the high nibble first.
pub fn get_blocksizes_from_byte(blocksize_byte: u8) -> (blocksizes: (u8, u8))
    ensures
        blocksizes == (blocksize_byte / 16, blocksize_byte % 16),
{
    (blocksize_byte / 16, blocksize_byte % 16)
}

/// How a stream's minimum, nominal and maximum bitrates classify it.
pub open spec fn bitrate_type_text(minimum: u32, nominal: u32, maximum: u32) -> Seq<char> {
    if maximum == nominal && nominal == minimum {
        FIXED_BIT_RATE_OUTPUT_STRING@
    } else if nominal != 0 && maximum == 0 && minimum == 0 {
        VBR_ABR_BIT_RATE_OUTPUT_STRING@
    } else if maximum != 0 && nominal == 0 && minimum == 0 {
        MAX_LIMITED_BIT_RATE_OUTPUT_STRING@
    } else if minimum != 0 && nominal == 0 && maximum == 0 {
        MIN_LIMITED_BIT_RATE_OUTPUT_STRING@
    } else {
        UNKNOWN_BIT_RATE_OUTPUT_STRING@
    }
}

/// Names the bitrate type of a stream from its three bitrates.
pub fn get_bitrate_type_from_bitrate_values(minimum: u32, nominal: u32, maximum: u32) -> (text:
    String)
    ensures
        text@ == bitrate_type_text(minimum, nominal, maximum),
{
    if maximum == nominal && nominal == minimum {
        return String::from_str(FIXED_BIT_RATE_OUTPUT_STRING);
    }
    if nominal != 0 && maximum == 0 && minimum == 0 {
        return String::from_str(VBR_ABR_BIT_RATE_OUTPUT_STRING);
    }
    if maximum != 0 && nominal == 0 && minimum == 0 {
        return String::from_str(MAX_LIMITED_BIT_RATE_OUTPUT_STRING);
    }
    if minimum != 0 && nominal == 0 && maximum == 0 {
        return String::from_str(MIN_LIMITED_BIT_RATE_OUTPUT_STRING);
    }
    String::from_str(UNKNOWN_BIT_RATE_OUTPUT_STRING)
}

/// The position after skipping `n` bytes from `pos`; skipping past the end
/// leaves nothing more to read.
pub open spec fn skip_to(len: int, pos: int, n: int) -> int {
    if pos + n <= len {
        pos + n
    } else {
        len
    }
}

/// Where the Vorbis fields of the header packet in the Ogg page at `pos`
/// start: after the page header, its segment table and the common Vorbis
/// header. `None` when the segment count cannot be read.
pub open spec fn packet_start(d: Seq<u8>, pos: int) -> Option<int> {
    let len = d.len() as int;
    let p = skip_to(len, pos, OGG_CONTAINER_HEADER_LENGTH_IN_BYTES as int);
    if p + 1 <= len {
        Some(
            skip_to(
                len,
                skip_to(len, p + 1, d[p] as int),
                VORBIS_COMMON_HEADER_LENGTH_IN_BYTES as int,
            ),
        )
    } else {
        None
    }
}

/// The little-endian 32-bit integer at `pos`.
pub open spec fn le_u32_at(d: Seq<u8>, pos: int) -> u32 {
    u32_value(d.subrange(pos, pos + 4), Endian::Little) as u32
}

/// A user comment split at its first `=` into key and value.
pub open spec fn comment_text(s: Seq<char>) -> Option<(Seq<char>, Seq<char>)> {
    let i = index_of_char(s, '=');
    if i < s.len() {
        Some((s.take(i), s.skip(i + 1)))
    } else {
        None
    }
}

/// The user comment at `pos` (a little-endian length, then that many bytes of
/// UTF-8 `key=value`) and where reading goes on. A comment that cannot be read
/// gives `None`; one cut short by the end of the data leaves nothing more to
/// read.
pub open spec fn comment_at(d: Seq<u8>, pos: int) -> (Option<(Seq<char>, Seq<char>)>, int) {
    let len = d.len() as int;
    if pos + 4 > len {
        (None, len)
    } else {
        let start = pos + 4;
        let end = start + le_u32_at(d, pos) as int;
        if end > len {
            (None, len)
        } else {
            let b = d.subrange(start, end);
            if valid_utf8(b) {
                (comment_text(decode_utf8(b)), end)
            } else {
                (None, end)
            }
        }
    }
}

/// The first `count` user comments from `pos`, and where reading ends.
pub open spec fn comment_walk(d: Seq<u8>, pos: int, count: nat) -> (
    Seq<Option<(Seq<char>, Seq<char>)>>,
    int,
)
    decreases count,
{
    if count == 0 {
        (Seq::empty(), pos)
    } else {
        let (previous, p) = comment_walk(d, pos, (count - 1) as nat);
        let (c, next) = comment_at(d, p);
        (previous.push(c), next)
    }
}

/// The key and value shown for a comment, the bad-comment texts for one that
/// could not be read.
pub open spec fn comment_pair_text(c: Option<(Seq<char>, Seq<char>)>) -> (Seq<char>, Seq<char>) {
    match c {
        Some(pair) => pair,
        None => (BAD_USER_COMMENT_KEY@, BAD_USER_COMMENT_VALUE@),
    }
}

/// Where the parts of the two Vorbis headers lie in a file's bytes.
pub ghost struct VorbisLayout {
    pub identification: int,
    pub vendor: Seq<char>,
    pub comments_start: int,
    pub comment_count: nat,
}

/// The layout of the identification and comment headers at the start of an
/// Ogg Vorbis file, or the error that reading them meets.
pub open spec fn vorbis_layout(d: Seq<u8>) -> Result<VorbisLayout, LocalError> {
    let len = d.len() as int;
    match packet_start(d, 0) {
        None => Err(LocalError::InsufficientBytesToRead(1)),
        Some(q) => if q + IDENTIFICATION_FIELDS_LENGTH_IN_BYTES > len {
            Err(LocalError::InsufficientBytesToRead(IDENTIFICATION_FIELDS_LENGTH_IN_BYTES))
        } else {
            let e = skip_to(
                len,
                q + IDENTIFICATION_FIELDS_LENGTH_IN_BYTES,
                FRAMING_FLAG_LENGTH_IN_BYTES as int,
            );
            match packet_start(d, e) {
                None => Err(LocalError::InsufficientBytesToRead(1)),
                Some(r) => if r + 4 > len {
                    Err(LocalError::InsufficientBytesToRead(4))
                } else {
                    let vendor_length = le_u32_at(d, r) as int;
                    let vendor_end = r + 4 + vendor_length;
                    if vendor_end > len {
                        Err(LocalError::InsufficientBytesToRead(vendor_length as usize))
                    } else if !valid_utf8(d.subrange(r + 4, vendor_end)) {
                        Err(LocalError::ErrorParsingVorbisTags)
                    } else if vendor_end + 4 > len {
                        Err(LocalError::InsufficientBytesToRead(4))
                    } else {
                        Ok(
                            VorbisLayout {
                                identification: q,
                                vendor: decode_utf8(d.subrange(r + 4, vendor_end)),
                                comments_start: vendor_end + 4,
                                comment_count: le_u32_at(d, vendor_end) as nat,
                            },
                        )
                    }
                },
            }
        },
    }
}

/// Whether `user_comments` are the comments of the layout, in order, spaced.
pub open spec fn user_comments_match(
    d: Seq<u8>,
    layout: VorbisLayout,
    user_comments: Seq<KeyValuePair>,
) -> bool {
    let comments = comment_walk(d, layout.comments_start, layout.comment_count).0;
    exists|raw: Seq<KeyValuePair>|
        {
            &&& raw.len() == comments.len()
            &&& forall|i: int|
                0 <= i < raw.len() ==> {
                    &&& (#[trigger] raw[i]).key@ == comment_pair_text(comments[i]).0
                    &&& raw[i].value@ == comment_pair_text(comments[i]).1
                }
            &&& spaced_pairs(raw, user_comments)
        }
}

/// Whether `header` holds what the headers of the layout say.
pub open spec fn header_matches(d: Seq<u8>, layout: VorbisLayout, header: HeaderMetadata) -> bool {
    let q = layout.identification;
    &&& header.vorbis_version == le_u32_at(d, q)
    &&& header.audio_channels == d[q + 4]
    &&& header.audio_sample_rate == le_u32_at(d, q + 5)
    &&& header.bitrate_maximum == le_u32_at(d, q + 9)
    &&& header.bitrate_nominal == le_u32_at(d, q + 13)
    &&& header.bitrate_minimum == le_u32_at(d, q + 17)
    &&& header.blocksize_0 == d[q + 21] / 16
    &&& header.blocksize_1 == d[q + 21] % 16
    &&& header.bitrate_type@ == bitrate_type_text(
        header.bitrate_minimum,
        header.bitrate_nominal,
        header.bitrate_maximum,
    )
    &&& header.vendor_comment@ == layout.vendor
    &&& user_comments_match(d, layout, header.user_comments@)
}

fn skip_exec(len: usize, pos: usize, n: usize) -> (p: usize)
    requires
        pos <= len,
    ensures
        p == skip_to(len as int, pos as int, n as int),
        p <= len,
{
    if n <= len - pos {
        pos + n
    } else {
        len
    }
}

fn packet_start_exec(data: &[u8], pos: usize) -> (start: Option<usize>)
    requires
        pos <= data@.len(),
    ensures
        match start {
            Some(p) => packet_start(data@, pos as int) == Some(p as int) && p <= data@.len(),
            None => packet_start(data@, pos as int) is None,
        },
{
    let len = data.len();
    let p = skip_exec(len, pos, OGG_CONTAINER_HEADER_LENGTH_IN_BYTES);
    if p < len {
        let segments = data[p] as usize;
        let q = skip_exec(len, p + 1, segments);
        Some(skip_exec(len, q, VORBIS_COMMON_HEADER_LENGTH_IN_BYTES))
    } else {
        None
    }
}

fn le_u32_exec(data: &[u8], pos: usize) -> (value: u32)
    requires
        pos + 4 <= data@.len(),
    ensures
        value == le_u32_at(data@, pos as int),
{
    data[pos] as u32 + 256 * (data[pos + 1] as u32) + 65536 * (data[pos + 2] as u32) + 16777216 * (
    data[pos + 3] as u32)
}

/// Splits a comment text at its first `=`.
fn split_comment(text: String) -> (pair: Option<(String, String)>)
    ensures
        match pair {
            Some((key, value)) => comment_text(text@) == Some((key@, value@)),
            None => comment_text(text@) is None,
        },
{
    let n = text.as_str().unicode_len();
    let i = find_char(text.as_str(), '=', 0);
    assert(text@.skip(0) =~= text@);
    if i < n {
        let key = text.as_str().substring_char(0, i).to_owned();
        let value = text.as_str().substring_char(i + 1, n).to_owned();
        assert(key@ =~= text@.take(i as int));
        assert(value@ =~= text@.skip(i + 1));
        Some((key, value))
    } else {
        None
    }
}

/// Reads the user comment at `pos`: its key and value, or `None` where it
/// cannot be read, and where reading goes on.
pub fn get_user_comment_from_bytes(data: &[u8], pos: usize) -> (result: (
    Option<KeyValuePair>,
    usize,
))
    requires
        pos <= data@.len(),
    ensures
        result.1 == comment_at(data@, pos as int).1,
        result.1 <= data@.len(),
        match result.0 {
            Some(pair) => {
                &&& comment_at(data@, pos as int).0 == Some((pair.key@, pair.value@))
                &&& pair.spacer@ == seq![' ']
            },
            None => comment_at(data@, pos as int).0 is None,
        },
{
    let len = data.len();
    if len - pos < 4 {
        return (None, len);
    }
    let length = le_u32_exec(data, pos) as usize;
    let start = pos + 4;
    if length > len - start {
        return (None, len);
    }
    let end = start + length;
    let comment_bytes = vstd::slice::slice_to_vec(vstd::slice::slice_subrange(data, start, end));
    match utf8_string(comment_bytes) {
        None => (None, end),
        Some(text) => match split_comment(text) {
            None => (None, end),
            Some((key, value)) => {
                let spacer = String::from_str(" ");
                proof {
                    reveal_strlit(" ");
                }
                (Some(KeyValuePair { key, spacer, value }), end)
            },
        },
    }
}

/// The key and value shown for a comment that cannot be read.
fn bad_user_comment() -> (pair: KeyValuePair)
    ensures
        pair.key@ == BAD_USER_COMMENT_KEY@,
        pair.value@ == BAD_USER_COMMENT_VALUE@,
{
    KeyValuePair {
        key: String::from_str(BAD_USER_COMMENT_KEY),
        spacer: String::from_str(" "),
        value: String::from_str(BAD_USER_COMMENT_VALUE),
    }
}

/// Reads `count` user comments from `pos`, a bad-comment entry standing for
/// each that cannot be read, and spaces them.
pub fn get_user_comments_from_bytes(data: &[u8], pos: usize, count: u32) -> (comments: Vec<
    KeyValuePair,
>)
    requires
        pos <= data@.len(),
    ensures
        comment_walk(data@, pos as int, count as nat).0.len() == count,
        exists|raw: Seq<KeyValuePair>|
            {
                &&& raw.len() == count
                &&& forall|i: int|
                    0 <= i < raw.len() ==> {
                        &&& (#[trigger] raw[i]).key@ == comment_pair_text(
                            comment_walk(data@, pos as int, count as nat).0[i],
                        ).0
                        &&& raw[i].value@ == comment_pair_text(
                            comment_walk(data@, pos as int, count as nat).0[i],
                        ).1
                    }
                &&& spaced_pairs(raw, comments@)
            },
{
    let mut comments: Vec<KeyValuePair> = Vec::new();
    let mut p = pos;
    let mut k: u32 = 0;
    while k < count
        invariant
            k <= count,
            p <= data@.len(),
            comment_walk(data@, pos as int, k as nat).1 == p,
            comment_walk(data@, pos as int, k as nat).0.len() == k,
            comments@.len() == k,
            forall|i: int|
                0 <= i < k ==> {
                    &&& (#[trigger] comments@[i]).key@ == comment_pair_text(
                        comment_walk(data@, pos as int, k as nat).0[i],
                    ).0
                    &&& comments@[i].value@ == comment_pair_text(
                        comment_walk(data@, pos as int, k as nat).0[i],
                    ).1
                },
        decreases count - k,
    {
        let ghost before = comment_walk(data@, pos as int, k as nat);
        let (comment, next) = get_user_comment_from_bytes(data, p);
        match comment {
            Some(pair) => comments.push(pair),
            None => comments.push(bad_user_comment()),
        }
        p = next;
        k = k + 1;
        assert(comment_walk(data@, pos as int, k as nat).0 == before.0.push(
            comment_at(data@, before.1).0,
        ));
        assert forall|i: int| 0 <= i < k implies {
            &&& (#[trigger] comments@[i]).key@ == comment_pair_text(
                comment_walk(data@, pos as int, k as nat).0[i],
            ).0
            &&& comments@[i].value@ == comment_pair_text(
                comment_walk(data@, pos as int, k as nat).0[i],
            ).1
        } by {
            if i < k - 1 {
                assert(comment_walk(data@, pos as int, k as nat).0[i] == before.0[i]);
            }
        }
    }
    let ghost raw = comments@;
    set_key_value_pair_spacers(&mut comments);
    assert(raw.len() == count);
    comments
}

/// Reads the Vorbis identification and comment headers from the bytes of an
/// Ogg Vorbis file, which start with the two header pages.
pub fn get_metadata_from_headers(data: &[u8]) -> (result: Result<HeaderMetadata, LocalError>)
    ensures
        match result {
            Ok(header) => vorbis_layout(data@) matches Ok(layout) && header_matches(
                data@,
                layout,
                header,
            ),
            Err(e) => vorbis_layout(data@) == Err::<VorbisLayout, LocalError>(e),
        },
{
    let len = data.len();
    let q = match packet_start_exec(data, 0) {
        Some(q) => q,
        None => {
            return Err(LocalError::InsufficientBytesToRead(1));
        },
    };
    if len - q < IDENTIFICATION_FIELDS_LENGTH_IN_BYTES {
        return Err(LocalError::InsufficientBytesToRead(IDENTIFICATION_FIELDS_LENGTH_IN_BYTES));
    }
    let vorbis_version = le_u32_exec(data, q);
    let audio_channels = data[q + 4];
    let audio_sample_rate = le_u32_exec(data, q + 5);
    let bitrate_maximum = le_u32_exec(data, q + 9);
    let bitrate_nominal = le_u32_exec(data, q + 13);
    let bitrate_minimum = le_u32_exec(data, q + 17);
    let blocksizes = get_blocksizes_from_byte(data[q + 21]);
    let bitrate_type = get_bitrate_type_from_bitrate_values(
        bitrate_minimum,
        bitrate_nominal,
        bitrate_maximum,
    );
    let e = skip_exec(len, q + IDENTIFICATION_FIELDS_LENGTH_IN_BYTES, FRAMING_FLAG_LENGTH_IN_BYTES);

    let r = match packet_start_exec(data, e) {
        Some(r) => r,
        None => {
            return Err(LocalError::InsufficientBytesToRead(1));
        },
    };
    if len - r < 4 {
        return Err(LocalError::InsufficientBytesToRead(4));
    }
    let vendor_length = le_u32_exec(data, r) as usize;
    if vendor_length > len - (r + 4) {
        return Err(LocalError::InsufficientBytesToRead(vendor_length));
    }
    let vendor_end = r + 4 + vendor_length;
    let vendor_bytes = vstd::slice::slice_to_vec(
        vstd::slice::slice_subrange(data, r + 4, vendor_end),
    );
    let vendor_comment = match utf8_string(vendor_bytes) {
        Some(text) => text,
        None => {
            return Err(LocalError::ErrorParsingVorbisTags);
        },
    };
    if len - vendor_end < 4 {
        return Err(LocalError::InsufficientBytesToRead(4));
    }
    let comment_count = le_u32_exec(data, vendor_end);
    let user_comments = get_user_comments_from_bytes(data, vendor_end + 4, comment_count);
    let header = HeaderMetadata {
        vorbis_version,
        audio_channels,
        audio_sample_rate,
        bitrate_maximum,
        bitrate_nominal,
        bitrate_minimum,
        blocksize_0: blocksizes.0,
        blocksize_1: blocksizes.1,
        bitrate_type,
        vendor_comment,
        user_comments,
    };
    let ghost layout = VorbisLayout {
        identification: q as int,
        vendor: vendor_comment@,
        comments_start: vendor_end + 4,
        comment_count: comment_count as nat,
    };
    assert(vorbis_layout(data@) == Ok::<VorbisLayout, LocalError>(layout));
    assert(user_comments_match(data@, layout, header.user_comments@));
    assert(header_matches(data@, layout, header));
    Ok(header)
}

/// A comment header yields one entry for every comment it declares, however
/// damaged or short the data, and reading never goes past the end.
pub proof fn one_entry_per_declared_comment(d: Seq<u8>, pos: int, count: nat)
    requires
        0 <= pos <= d.len(),
    ensures
        comment_walk(d, pos, count).0.len() == count,
        pos <= comment_walk(d, pos, count).1 <= d.len(),
    decreases count,
{
    if count > 0 {
        one_entry_per_declared_comment(d, pos, (count - 1) as nat);
    }
}

/// The template of the report entry of the Vorbis headers.
pub const OGG_TEMPLATE: &'static str = "\n-------------\nVorbis Header Details:\n-------------\nVorbis Version: {{ vorbis_version }}\nAudio Channels: {{ audio_channels }}\nSample Rate: {{ audio_sample_rate }} kHz\nMaximum Bitrate: {{ bitrate_maximum }}\nNominal Bitrate: {{ bitrate_nominal }}\nMinimum Bitrate: {{ bitrate_minimum }}\nBlocksize 0: {{ blocksize_0 }}\nBlocksize 1: {{ blocksize_1 }}\nBitrate Type: {{ bitrate_type }}\nVendor: {{ vendor_comment }}{{ user_comments }}";

/// The line of a user comment: its key, its spacer, `: ` and its value.
pub open spec fn comment_line(c: KeyValuePair) -> Seq<char> {
    c.key@ + c.spacer@ + ": "@ + c.value@
}

/// The lines of a list of items, in order.
fn comment_lines(items: &Vec<KeyValuePair>) -> (text: String)
    ensures
        text@ == own_lines(items@.map_values(|x: KeyValuePair| comment_line(x))),
{
    let mut lines: Vec<String> = Vec::new();
    let mut i: usize = 0;
    while i < items.len()
        invariant
            i <= items@.len(),
            lines_view(lines@) =~= items@.take(i as int).map_values(|x: KeyValuePair| comment_line(x)),
        decreases items@.len() - i,
    {
        let ghost before = lines_view(lines@);
        let item = &items[i];
        let mut line = item.key.clone();
        line.append(item.spacer.as_str());
        line.append(": ");
        line.append(item.value.as_str());
        lines.push(line);
        assert(lines_view(lines@) =~= before.push(comment_line(items@[i as int])));
        assert(items@.take(i + 1) =~= items@.take(i as int).push(items@[i as int]));
        i = i + 1;
    }
    assert(items@.take(i as int) =~= items@);
    join_on_own_lines(&lines)
}

/// The values a ogg entry is rendered from.
pub open spec fn ogg_output_values(m: HeaderMetadata) -> Seq<(Seq<char>, Seq<char>)> {
    seq![
        ("vorbis_version"@, decimal_text(m.vorbis_version as nat)),
        ("audio_channels"@, decimal_text(m.audio_channels as nat)),
        ("audio_sample_rate"@, thousandths_text(m.audio_sample_rate as nat)),
        ("bitrate_maximum"@, decimal_text(m.bitrate_maximum as nat)),
        ("bitrate_nominal"@, decimal_text(m.bitrate_nominal as nat)),
        ("bitrate_minimum"@, decimal_text(m.bitrate_minimum as nat)),
        ("blocksize_0"@, decimal_text(m.blocksize_0 as nat)),
        ("blocksize_1"@, decimal_text(m.blocksize_1 as nat)),
        ("bitrate_type"@, m.bitrate_type@),
        ("vendor_comment"@, m.vendor_comment@),
        ("user_comments"@, own_lines(m.user_comments@.map_values(|c: KeyValuePair| comment_line(c)))),
    ]
}

fn ogg_values(m: &HeaderMetadata) -> (values: Vec<(String, String)>)
    ensures
        values_view(values@) == ogg_output_values(*m),
{
    let mut rate = String::new();
    push_thousandths(&mut rate, m.audio_sample_rate);
    let values = vec![
        named("vorbis_version", decimal_string(m.vorbis_version as u64)),
        named("audio_channels", decimal_string(m.audio_channels as u64)),
        named("audio_sample_rate", rate),
        named("bitrate_maximum", decimal_string(m.bitrate_maximum as u64)),
        named("bitrate_nominal", decimal_string(m.bitrate_nominal as u64)),
        named("bitrate_minimum", decimal_string(m.bitrate_minimum as u64)),
        named("blocksize_0", decimal_string(m.blocksize_0 as u64)),
        named("blocksize_1", decimal_string(m.blocksize_1 as u64)),
        named("bitrate_type", m.bitrate_type.clone()),
        named("vendor_comment", m.vendor_comment.clone()),
        named("user_comments", comment_lines(&m.user_comments)),
    ];
    assert(values_view(values@) =~= ogg_output_values(*m));
    values
}

/// The report entry of the Vorbis headers of Ogg data: the decoding error,
/// or the decoded fields rendered under `Mandatory`.
pub open spec fn ogg_entry_is(data: Seq<u8>, result: Result<OutputEntry, LocalError>) -> bool {
    match vorbis_layout(data) {
        Ok(layout) => exists|m: HeaderMetadata| #[trigger] header_matches(data, layout, m) && entry_of(
            Section::Mandatory,
            upon_rendered_text(OGG_TEMPLATE@, ogg_output_values(m)),
            result,
        ),
        Err(e) => result == Err::<OutputEntry, LocalError>(e),
    }
}

/// Decodes the Vorbis headers of Ogg data and renders them as their report
/// entry.
pub fn ogg_entry(data: &[u8]) -> (result: Result<OutputEntry, LocalError>)
    ensures
        ogg_entry_is(data@, result),
{
    match get_metadata_from_headers(data) {
        Ok(m) => {
            let values = ogg_values(&m);
            render_entry(Section::Mandatory, OGG_TEMPLATE, &values)
        },
        Err(e) => Err(e),
    }
}

/// The 32-bit fields of the Vorbis headers are least significant byte
/// first.
pub proof fn vorbis_fields_are_little_endian(d: Seq<u8>, pos: int)
    requires
        0 <= pos,
        pos + 4 <= d.len(),
    ensures
        le_u32_at(d, pos) == le32(d, pos),
{
}

} // verus!
