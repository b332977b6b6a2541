use crate::errors::LocalError;
use crate::formating::byte_len;
use crate::strings::{
    decimal_text, hex_pair_lower, push_char, push_decimal, push_hex_pair_lower, push_spaces, spaces,
};
use crate::template::{entry_of, join_on_own_lines, named, own_lines, render_entry, upon_rendered_text, values_view};
use crate::output::{OutputEntry, Section};
use crate::strings::{decimal_string, lines_view};
use crate::wave::fmt::{push_thousandths, thousandths_text};
use vstd::prelude::*;

verus! {

/// Seconds in a minute.
pub const SECONDS_PER_MINUTE: u64 = 60;

/// A Vorbis comment of a FLAC file, with the spaces that align its value.
#[derive(Debug, Clone, PartialEq)]
pub struct VorbisTag {
    pub id: String,
    pub spacer: String,
    pub value: String,
}

/// Bytes as lower-case hexadecimal pairs with nothing between them.
pub open spec fn hex_run_text(s: Seq<u8>) -> Seq<char>
    decreases s.len(),
{
    if s.len() == 0 {
        Seq::empty()
    } else {
        hex_run_text(s.drop_last()) + hex_pair_lower(s.last())
    }
}

/// Formats an MD5 sum as 32 lower-case hexadecimal digits.
pub fn format_md5_sum_from_bytes(bytes: [u8; 16]) -> (text: String)
    ensures
        text@ == hex_run_text(bytes@),
{
    let mut text = String::new();
    let mut i: usize = 0;
    while i < 16
        invariant
            i <= 16,
            bytes@.len() == 16,
            text@ == hex_run_text(bytes@.take(i as int)),
        decreases 16 - i,
    {
        assert(bytes@.take(i + 1).drop_last() =~= bytes@.take(i as int));
        push_hex_pair_lower(&mut text, bytes[i]);
        i = i + 1;
    }
    assert(bytes@.take(16) =~= bytes@);
    text
}

/// The estimated duration `minutes:seconds` (seconds not padded) of
/// `total_samples` at `samples_per_second`; empty when either is zero.
pub open spec fn duration_text(total_samples: u64, samples_per_second: u32) -> Seq<char> {
    if total_samples == 0 || samples_per_second == 0 {
        Seq::empty()
    } else {
        let seconds: nat = (total_samples as nat) / (samples_per_second as nat);
        decimal_text(seconds / 60) + seq![':'] + decimal_text(seconds % 60)
    }
}

/// Formats the duration of a stream from its sample count and rate.
pub fn format_estimated_duration(total_sample: u64, samples_per_second: u32) -> (text: String)
    ensures
        text@ == duration_text(total_sample, samples_per_second),
{
    let mut duration = String::new();
    if total_sample != 0 && samples_per_second != 0 {
        let duration_seconds: u64 = total_sample / samples_per_second as u64;
        let whole_minutes = duration_seconds / SECONDS_PER_MINUTE;
        let remaining_seconds = duration_seconds % SECONDS_PER_MINUTE;
        push_decimal(&mut duration, whole_minutes);
        push_char(&mut duration, ':');
        push_decimal(&mut duration, remaining_seconds);
        assert(duration@ =~= duration_text(total_sample, samples_per_second));
    }
    duration
}

/// The longest byte length of the ids.
pub open spec fn longest_id(ids: Seq<Seq<char>>) -> nat
    decreases ids.len(),
{
    if ids.len() == 0 {
        0
    } else {
        let rest = longest_id(ids.drop_last());
        let last = byte_len(ids.last());
        if last > rest {
            last
        } else {
            rest
        }
    }
}

pub proof fn lemma_longest_id_bounds(ids: Seq<Seq<char>>, i: int)
    requires
        0 <= i < ids.len(),
    ensures
        byte_len(ids[i]) <= longest_id(ids),
    decreases ids.len(),
{
    if i < ids.len() - 1 {
        lemma_longest_id_bounds(ids.drop_last(), i);
    }
}

/// The byte length of the longest tag id; an empty list of tags is refused.
pub fn get_longest_tag(tag_ids: &Vec<String>) -> (result: Result<usize, LocalError>)
    ensures
        match result {
            Ok(n) => tag_ids@.len() > 0 && n == longest_id(tag_ids@.map_values(|s: String| s@)),
            Err(e) => tag_ids@.len() == 0 && e == LocalError::ErrorParsingVorbisTags,
        },
{
    if tag_ids.len() == 0 {
        return Err(LocalError::ErrorParsingVorbisTags);
    }
    let ghost ids = tag_ids@.map_values(|s: String| s@);
    let mut longest: usize = 0;
    let mut i: usize = 0;
    while i < tag_ids.len()
        invariant
            i <= tag_ids@.len(),
            ids == tag_ids@.map_values(|s: String| s@),
            longest == longest_id(ids.take(i as int)),
        decreases tag_ids@.len() - i,
    {
        assert(ids.take(i + 1).drop_last() =~= ids.take(i as int));
        let length = tag_ids[i].as_str().as_bytes().len();
        assert(ids.take(i + 1).last() == tag_ids@[i as int]@);
        if length > longest {
            longest = length;
        }
        i = i + 1;
    }
    assert(ids.take(tag_ids@.len() as int) =~= ids);
    Ok(longest)
}

/// Whether `tags` are the comments `(id, value)`, in order, each with the
/// spaces that pad its id to the longest id.
pub open spec fn tags_match(comments: Seq<(Seq<char>, Seq<char>)>, tags: Seq<VorbisTag>) -> bool {
    let ids = comments.map_values(|c: (Seq<char>, Seq<char>)| c.0);
    &&& tags.len() == comments.len()
    &&& forall|i: int|
        0 <= i < comments.len() ==> {
            &&& (#[trigger] tags[i]).id@ == comments[i].0
            &&& tags[i].value@ == comments[i].1
            &&& tags[i].spacer@ == spaces((longest_id(ids) - byte_len(comments[i].0)) as nat)
        }
}

/// Lays out the Vorbis comments of a FLAC file: each id padded with spaces
/// to the longest id, in the order of the comments.
pub fn get_vorbis_comment_tags(comments: Vec<(String, String)>) -> (tags: Vec<VorbisTag>)
    ensures
        tags_match(comments@.map_values(|c: (String, String)| (c.0@, c.1@)), tags@),
{
    let ghost pairs = comments@.map_values(|c: (String, String)| (c.0@, c.1@));
    let ghost ids = pairs.map_values(|c: (Seq<char>, Seq<char>)| c.0);
    let mut id_list: Vec<String> = Vec::new();
    let mut i: usize = 0;
    while i < comments.len()
        invariant
            i <= comments@.len(),
            id_list@.len() == i,
            forall|j: int| 0 <= j < i ==> (#[trigger] id_list@[j])@ == comments@[j].0@,
        decreases comments@.len() - i,
    {
        id_list.push(comments[i].0.clone());
        i = i + 1;
    }
    assert(id_list@.map_values(|s: String| s@) =~= ids);
    let longest = match get_longest_tag(&id_list) {
        Ok(n) => n,
        Err(_) => 0,
    };
    assert(comments@.len() == 0 || longest == longest_id(ids));
    let mut tags: Vec<VorbisTag> = Vec::new();
    let mut k: usize = 0;
    while k < comments.len()
        invariant
            k <= comments@.len(),
            pairs == comments@.map_values(|c: (String, String)| (c.0@, c.1@)),
            ids == pairs.map_values(|c: (Seq<char>, Seq<char>)| c.0),
            comments@.len() > 0 ==> longest == longest_id(ids),
            tags@.len() == k,
            forall|j: int|
                0 <= j < k ==> {
                    &&& (#[trigger] tags@[j]).id@ == pairs[j].0
                    &&& tags@[j].value@ == pairs[j].1
                    &&& tags@[j].spacer@ == spaces((longest_id(ids) - byte_len(pairs[j].0)) as nat)
                },
        decreases comments@.len() - k,
    {
        let id = comments[k].0.clone();
        let value = comments[k].1.clone();
        let id_length = id.as_str().as_bytes().len();
        proof {
            lemma_longest_id_bounds(ids, k as int);
            assert(ids[k as int] == id@);
        }
        let mut spacer = String::new();
        if longest > id_length {
            push_spaces(&mut spacer, longest - id_length);
        }
        assert(spacer@ =~= spaces((longest_id(ids) - byte_len(pairs[k as int].0)) as nat));
        tags.push(VorbisTag { id, spacer, value });
        k = k + 1;
    }
    tags
}

/// The stream details of a FLAC file, as its STREAMINFO block gives them.
#[derive(Debug, Clone, PartialEq)]
pub struct FlacStreamInfo {
    pub min_block_size: u16,
    pub max_block_size: u16,
    pub min_frame_size: Option<u32>,
    pub max_frame_size: Option<u32>,
    pub sample_rate: u32,
    pub channels: u32,
    pub bits_per_sample: u32,
    pub samples: Option<u64>,
    pub md5sum: [u8; 16],
}

/// The template of a FLAC file's stream entry.
pub const FLAC_TEMPLATE: &'static str = "\n-------------\nFLAC Stream Details:\n-------------\nDuration: {{ duration }}\nMin Block Size: {{ min_block_size }}\nMax Block Size: {{ max_block_size }}\nMin Frame Size: {{ min_frame_size }}\nMax Frame Size: {{ max_frame_size }}\nSample Rate: {{ sample_rate }} kHz\nChannels: {{ channels }}\nBits per Sample: {{ bits_per_sample }}\nTotal Samples: {{ total_samples }}\nMD5: {{ md5_sum }}\nVendor: {{ vorbis_vendor }}{{ vorbis_tags }}";

/// A number that may be unknown, zero when it is.
pub open spec fn or_zero(n: Option<u64>) -> nat {
    match n {
        Some(v) => v as nat,
        None => 0,
    }
}

/// The views of comments given as ID and value.
pub open spec fn comment_pairs(comments: Seq<(String, String)>) -> Seq<(Seq<char>, Seq<char>)> {
    comments.map_values(|c: (String, String)| (c.0@, c.1@))
}

/// The line of a Vorbis comment: its ID, its spacer, `: ` and its value.
pub open spec fn vorbis_line(t: VorbisTag) -> Seq<char> {
    t.id@ + t.spacer@ + ": "@ + t.value@
}

/// The values a FLAC stream entry is rendered from: the stream details,
/// the vendor (nothing when unknown) and a line for each laid out comment.
pub open spec fn flac_output_values(info: FlacStreamInfo, vendor: Seq<char>, tags: Seq<VorbisTag>) -> Seq<(Seq<char>, Seq<char>)> {
    seq![
        ("duration"@, duration_text(or_zero(info.samples) as u64, info.sample_rate)),
        ("min_block_size"@, decimal_text(info.min_block_size as nat)),
        ("max_block_size"@, decimal_text(info.max_block_size as nat)),
        ("min_frame_size"@, decimal_text(match info.min_frame_size { Some(v) => v as nat, None => 0 })),
        ("max_frame_size"@, decimal_text(match info.max_frame_size { Some(v) => v as nat, None => 0 })),
        ("sample_rate"@, thousandths_text(info.sample_rate as nat)),
        ("channels"@, decimal_text(info.channels as nat)),
        ("bits_per_sample"@, decimal_text(info.bits_per_sample as nat)),
        ("total_samples"@, decimal_text(or_zero(info.samples))),
        ("md5_sum"@, hex_run_text(info.md5sum@)),
        ("vorbis_vendor"@, vendor),
        ("vorbis_tags"@, own_lines(tags.map_values(|t: VorbisTag| vorbis_line(t)))),
    ]
}

/// The lines of a list of items, in order.
fn vorbis_lines(items: &Vec<VorbisTag>) -> (text: String)
    ensures
        text@ == own_lines(items@.map_values(|x: VorbisTag| vorbis_line(x))),
{
    let mut lines: Vec<String> = Vec::new();
    let mut i: usize = 0;
    while i < items.len()
        invariant
            i <= items@.len(),
            lines_view(lines@) =~= items@.take(i as int).map_values(|x: VorbisTag| vorbis_line(x)),
        decreases items@.len() - i,
    {
        let ghost before = lines_view(lines@);
        let item = &items[i];
        let mut line = item.id.clone();
        line.append(item.spacer.as_str());
        line.append(": ");
        line.append(item.value.as_str());
        lines.push(line);
        assert(lines_view(lines@) =~= before.push(vorbis_line(items@[i as int])));
        assert(items@.take(i + 1) =~= items@.take(i as int).push(items@[i as int]));
        i = i + 1;
    }
    assert(items@.take(i as int) =~= items@);
    join_on_own_lines(&lines)
}

/// Renders the stream details, vendor and Vorbis comments of a FLAC file
/// as its `Mandatory` entry; the comments laid out as `get_vorbis_comment_tags`
/// does.
pub fn flac_entry(info: &FlacStreamInfo, vendor: &str, comments: Vec<(String, String)>) -> (result: Result<OutputEntry, LocalError>)
    ensures
        exists|tags: Seq<VorbisTag>| #[trigger] tags_match(comment_pairs(comments@), tags)
            && entry_of(
            Section::Mandatory,
            upon_rendered_text(FLAC_TEMPLATE@, flac_output_values(*info, vendor@, tags)),
            result,
        ),
{
    let ghost pairs = comment_pairs(comments@);
    let tags = get_vorbis_comment_tags(comments);
    assert(tags_match(pairs, tags@));
    let samples: u64 = match info.samples {
        Some(v) => v,
        None => 0,
    };
    let min_frame_size: u32 = match info.min_frame_size {
        Some(v) => v,
        None => 0,
    };
    let max_frame_size: u32 = match info.max_frame_size {
        Some(v) => v,
        None => 0,
    };
    let mut rate = String::new();
    push_thousandths(&mut rate, info.sample_rate);
    let values = vec![
        named("duration", format_estimated_duration(samples, info.sample_rate)),
        named("min_block_size", decimal_string(info.min_block_size as u64)),
        named("max_block_size", decimal_string(info.max_block_size as u64)),
        named("min_frame_size", decimal_string(min_frame_size as u64)),
        named("max_frame_size", decimal_string(max_frame_size as u64)),
        named("sample_rate", rate),
        named("channels", decimal_string(info.channels as u64)),
        named("bits_per_sample", decimal_string(info.bits_per_sample as u64)),
        named("total_samples", decimal_string(samples)),
        named("md5_sum", format_md5_sum_from_bytes(info.md5sum)),
        named("vorbis_vendor", String::from_str(vendor)),
        named("vorbis_tags", vorbis_lines(&tags)),
    ];
    assert(values_view(values@) =~= flac_output_values(*info, vendor@, tags@));
    render_entry(Section::Mandatory, FLAC_TEMPLATE, &values)
}

/// The duration shown is the whole number of seconds the samples last,
/// as minutes and the seconds left over: `m:s` where `60·m + s` seconds of
/// samples fit in the total and one more second does not.
pub proof fn durations_count_whole_seconds(total_samples: u64, samples_per_second: u32, m: nat, s: nat)
    requires
        total_samples > 0,
        samples_per_second > 0,
        s < 60,
        (60 * m + s) * samples_per_second <= total_samples < (60 * m + s + 1) * samples_per_second,
    ensures
        duration_text(total_samples, samples_per_second) == decimal_text(m) + seq![':'] + decimal_text(s),
{
    let seconds: nat = (total_samples as nat) / (samples_per_second as nat);
    let t = 60 * m + s;
    assert(seconds == t) by (nonlinear_arith)
        requires
            samples_per_second > 0,
            t * samples_per_second <= total_samples < (t + 1) * samples_per_second,
            seconds == (total_samples as nat) / (samples_per_second as nat),
    ;
    assert(t / 60 == m && t % 60 == s);
}

/// The hexadecimal text of bytes is two lower-case digits per byte, in
/// order.
pub proof fn hex_runs_hold_two_digits_per_byte(b: Seq<u8>, i: int)
    requires
        0 <= i < b.len(),
    ensures
        hex_run_text(b).len() == 2 * b.len(),
        hex_run_text(b).subrange(2 * i, 2 * i + 2) == hex_pair_lower(b[i]),
    decreases b.len(),
{
    if i < b.len() - 1 {
        hex_runs_hold_two_digits_per_byte(b.drop_last(), i);
        assert(hex_run_text(b).subrange(2 * i, 2 * i + 2) =~= hex_run_text(b.drop_last()).subrange(2 * i, 2 * i + 2));
    } else {
        if b.len() > 1 {
            hex_runs_hold_two_digits_per_byte(b.drop_last(), 0);
        }
        assert(hex_run_text(b).subrange(2 * i, 2 * i + 2) =~= hex_pair_lower(b[i]));
    }
}

} // verus!
