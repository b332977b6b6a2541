use crate::strings::{
    decimal_text, digit_char, digit_to_char, find_char, index_of_char, lemma_index_of_char_bounds,
    push_char, push_decimal,
    trim_white_space, trim_white_space_string,
};
use crate::template::{entry_of, join_on_own_lines, labelled, labelled_string, named, own_lines, render_entry, upon_rendered_text, values_view};
use crate::output::{OutputEntry, Section};
use crate::errors::LocalError;
use crate::strings::{decimal_string, lines_view};
use vstd::prelude::*;

verus! {

/// Start of the key of an iTunes free-form item (`----:{mean}:{name}`).
pub const ITUNES_KEY_PREFIX: &'static str = "----";

/// A user data item of an M4A file.
#[derive(Debug, Clone, PartialEq, Eq)]
pub struct UserdataTag {
    pub key: String,
    pub value: String,
}

/// The header values of an M4A file shown in the report, the sample rate
/// aside.
#[derive(Debug, Clone, PartialEq, Eq)]
pub struct M4aHeader {
    pub channel_count: u8,
    pub avg_bitrate: u32,
    pub max_bitrate: u32,
    pub duration: String,
}

/// A number of seconds as `{minutes}:{seconds}`, the seconds two digits.
pub open spec fn minutes_seconds_text(seconds: nat) -> Seq<char> {
    decimal_text(seconds / 60) + seq![
        ':',
        digit_char(seconds % 60 / 10),
        digit_char(seconds % 10),
    ]
}

/// Formats a number of seconds as minutes and two-digit seconds, e.g. `3:05`.
pub fn format_duration(seconds: u64) -> (text: String)
    ensures
        text@ == minutes_seconds_text(seconds as nat),
{
    let mut text = String::new();
    push_decimal(&mut text, seconds / 60);
    push_char(&mut text, ':');
    push_char(&mut text, digit_to_char(seconds % 60 / 10));
    push_char(&mut text, digit_to_char(seconds % 10));
    assert(text@ =~= minutes_seconds_text(seconds as nat));
    text
}

/// The header values: the channel count (0 when unknown), the average and
/// maximum bitrates in kbit/s (0 when unknown) and the duration.
pub fn get_mandatory_m4a_chunk_metdata(
    channel_count: Option<u8>,
    avg_bitrate: Option<u32>,
    max_bitrate: Option<u32>,
    duration_seconds: u64,
) -> (header: M4aHeader)
    ensures
        header.channel_count == match channel_count {
            Some(c) => c,
            None => 0u8,
        },
        header.avg_bitrate == match avg_bitrate {
            Some(b) => b / 1000,
            None => 0u32,
        },
        header.max_bitrate == match max_bitrate {
            Some(b) => b / 1000,
            None => 0u32,
        },
        header.duration@ == minutes_seconds_text(duration_seconds as nat),
{
    M4aHeader {
        channel_count: match channel_count {
            Some(c) => c,
            None => 0,
        },
        avg_bitrate: match avg_bitrate {
            Some(b) => b / 1000,
            None => 0,
        },
        max_bitrate: match max_bitrate {
            Some(b) => b / 1000,
            None => 0,
        },
        duration: format_duration(duration_seconds),
    }
}

/// Whether a key is that of an iTunes free-form item.
pub open spec fn is_itunes_key(key: Seq<char>) -> bool {
    key.len() >= 4 && key.take(4) == ITUNES_KEY_PREFIX@
}

/// The text after the first `:` of `s`.
pub open spec fn after_colon(s: Seq<char>) -> Seq<char> {
    s.skip(index_of_char(s, ':') + 1)
}

/// Whether a text has at least two `:`.
pub open spec fn has_two_colons(s: Seq<char>) -> bool {
    index_of_char(s, ':') < s.len() && index_of_char(after_colon(s), ':') < after_colon(s).len()
}

/// The third `:`-separated field of a text (the name of `----:{mean}:{name}`).
pub open spec fn third_field(s: Seq<char>) -> Seq<char> {
    let rest = after_colon(after_colon(s));
    rest.take(index_of_char(rest, ':'))
}

/// Whether every iTunes key of the items has a third field.
pub open spec fn itunes_keys_complete(items: Seq<(String, String)>) -> bool {
    forall|i: int|
        0 <= i < items.len() && is_itunes_key((#[trigger] items[i]).0@) ==> has_two_colons(
            items[i].0@,
        )
}

/// The user data items of the given kind (iTunes or not), in order, each
/// value trimmed of white space and each iTunes key shortened to its name.
pub open spec fn userdata_of_kind(items: Seq<(Seq<char>, Seq<char>)>, itunes: bool) -> Seq<
    (Seq<char>, Seq<char>),
>
    decreases items.len(),
{
    if items.len() == 0 {
        Seq::empty()
    } else {
        let rest = userdata_of_kind(items.drop_last(), itunes);
        let (key, value) = items.last();
        if is_itunes_key(key) == itunes {
            rest.push(
                (
                    if itunes {
                        third_field(key)
                    } else {
                        key
                    },
                    trim_white_space(value),
                ),
            )
        } else {
            rest
        }
    }
}

/// The views of user data items.
pub open spec fn tags_view(tags: Seq<UserdataTag>) -> Seq<(Seq<char>, Seq<char>)> {
    tags.map_values(|t: UserdataTag| (t.key@, t.value@))
}

/// The views of key-value items.
pub open spec fn items_view(items: Seq<(String, String)>) -> Seq<(Seq<char>, Seq<char>)> {
    items.map_values(|i: (String, String)| (i.0@, i.1@))
}

fn starts_with_itunes_prefix(key: &str) -> (itunes: bool)
    ensures
        itunes == is_itunes_key(key@),
{
    let n = key.unicode_len();
    if n < 4 {
        return false;
    }
    let mut i: usize = 0;
    while i < 4
        invariant
            n == key@.len(),
            4 <= n,
            i <= 4,
            forall|j: int| 0 <= j < i ==> key@[j] == '-',
        decreases 4 - i,
    {
        if key.get_char(i) != '-' {
            proof {
                reveal_strlit("----");
                assert(key@.take(4)[i as int] != ITUNES_KEY_PREFIX@[i as int]);
            }
            return false;
        }
        i = i + 1;
    }
    proof {
        reveal_strlit("----");
    }
    assert(key@.take(4) =~= ITUNES_KEY_PREFIX@);
    true
}

/// The name of an iTunes key `----:{mean}:{name}`: its third `:`-separated
/// field.
pub fn itunes_key_name(key: &str) -> (name: String)
    requires
        has_two_colons(key@),
    ensures
        name@ == third_field(key@),
{
    let n = key.unicode_len();
    let first = find_char(key, ':', 0);
    assert(key@.skip(0) =~= key@);
    assert(first == index_of_char(key@, ':'));
    let ghost once = after_colon(key@);
    proof {
        lemma_index_of_char_bounds(key@, ':');
        lemma_index_of_char_bounds(once, ':');
    }
    assert(key@.skip(first + 1) =~= once);
    let second = find_char(key, ':', first + 1);
    assert(second == first + 1 + index_of_char(once, ':'));
    assert(second < n);
    let ghost twice = once.skip(index_of_char(once, ':') + 1);
    assert(twice.len() == key@.len() - (second + 1));
    assert forall|j: int| 0 <= j < twice.len() implies twice[j] == key@.skip(second + 1)[j] by {
        assert(twice[j] == once[index_of_char(once, ':') + 1 + j]);
        assert(once[index_of_char(once, ':') + 1 + j] == key@[first + 1 + index_of_char(once, ':') + 1 + j]);
    }
    assert(key@.skip(second + 1) =~= twice);
    proof {
        lemma_index_of_char_bounds(twice, ':');
    }
    let third = find_char(key, ':', second + 1);
    assert(third == second + 1 + index_of_char(twice, ':'));
    assert(twice == after_colon(once));
    assert(key@.subrange(second + 1, third as int) =~= twice.take(index_of_char(twice, ':')));
    let name = key.substring_char(second + 1, third).to_owned();
    assert(name@ =~= third_field(key@));
    name
}

/// Sorts the user data items of an M4A file, given as key and value, into
/// plain items and iTunes free-form items (keys starting `----`), each in
/// order; values are trimmed of white space and iTunes keys shortened to
/// their name.
pub fn get_m4a_userdata_tags(items: &Vec<(String, String)>) -> (tags: (
    Vec<UserdataTag>,
    Vec<UserdataTag>,
))
    requires
        itunes_keys_complete(items@),
    ensures
        tags_view(tags.0@) == userdata_of_kind(items_view(items@), false),
        tags_view(tags.1@) == userdata_of_kind(items_view(items@), true),
{
    let mut userdata_tags: Vec<UserdataTag> = Vec::new();
    let mut itunes_tags: Vec<UserdataTag> = Vec::new();
    let mut i: usize = 0;
    while i < items.len()
        invariant
            i <= items@.len(),
            itunes_keys_complete(items@),
            tags_view(userdata_tags@) == userdata_of_kind(items_view(items@).take(i as int), false),
            tags_view(itunes_tags@) == userdata_of_kind(items_view(items@).take(i as int), true),
        decreases items@.len() - i,
    {
        let ghost view = items_view(items@);
        assert(view.take(i + 1).drop_last() =~= view.take(i as int));
        assert(view.take(i + 1).last() == (items@[i as int].0@, items@[i as int].1@));
        let key = &items[i].0;
        let value = trim_white_space_string(items[i].1.as_str());
        let ghost before_plain = tags_view(userdata_tags@);
        let ghost before_itunes = tags_view(itunes_tags@);
        if starts_with_itunes_prefix(key.as_str()) {
            let name = itunes_key_name(key.as_str());
            let tag = UserdataTag { key: name, value };
            itunes_tags.push(tag);
            assert(tags_view(itunes_tags@) =~= before_itunes.push((tag.key@, tag.value@)));
        } else {
            let tag = UserdataTag { key: key.clone(), value };
            userdata_tags.push(tag);
            assert(tags_view(userdata_tags@) =~= before_plain.push((tag.key@, tag.value@)));
        }
        i = i + 1;
    }
    assert(items_view(items@).take(items@.len() as int) =~= items_view(items@));
    (userdata_tags, itunes_tags)
}

/// 2 to the power `n`.
pub open spec fn pow2(n: nat) -> nat
    decreases n,
{
    if n == 0 {
        1
    } else {
        2 * pow2((n - 1) as nat)
    }
}

/// The least `k` from `from` on at which `rate * 2^k` reaches `1000 * 2^52`:
/// the scale at which `rate / 1000` has its 53 significant bits as a 64-bit
/// float.
pub open spec fn float_scale(rate: nat, from: nat) -> nat
    decreases 64 - from,
{
    if from >= 64 || rate * pow2(from) >= 1000 * pow2(52) {
        from
    } else {
        float_scale(rate, from + 1)
    }
}

/// Whether a rate ending in 50 Hz rounds up to the next tenth of a kHz when
/// its 64-bit float `rate / 1000` is printed with one decimal. With `k` its
/// scale, the bits dropped from `rate * 2^k / 1000` decide: more than half
/// puts the float above the half-way point, so it rounds up; none means the
/// float holds the rate exactly, and the half rounds to the even tenth.
pub open spec fn float_rounds_up(rate: nat) -> bool {
    let dropped = (rate * pow2(float_scale(rate, 0))) % 1000;
    dropped > 500 || (dropped == 0 && (rate / 100) % 2 == 1)
}

/// A sample rate in Hz shown in kHz as its 64-bit float `rate / 1000`
/// prints: whole kilohertz without a fraction, otherwise rounded to one
/// decimal. A rate ending in 50 Hz sits halfway between two tenths; how the
/// float holds it decides (see `float_rounds_up`).
pub open spec fn khz_one_decimal_text(rate: nat) -> Seq<char> {
    if rate % 1000 == 0 {
        decimal_text(rate / 1000)
    } else {
        let up = rate % 100 > 50 || (rate % 100 == 50 && float_rounds_up(rate));
        let tenths = rate / 100 + if up {
            1int
        } else {
            0int
        };
        decimal_text((tenths / 10) as nat) + seq!['.', digit_char((tenths % 10) as nat)]
    }
}

proof fn lemma_pow2_monotone(a: nat, b: nat)
    requires
        a <= b,
    ensures
        pow2(a) <= pow2(b),
    decreases b - a,
{
    if a < b {
        lemma_pow2_monotone(a, (b - 1) as nat);
        lemma_pow2_positive((b - 1) as nat);
    }
}

proof fn lemma_pow2_positive(n: nat)
    ensures
        pow2(n) >= 1,
    decreases n,
{
    if n > 0 {
        lemma_pow2_positive((n - 1) as nat);
    }
}

fn scaled_rate(rate: u32, p: u128) -> (product: u128)
    requires
        p <= 4611686018427387904,
    ensures
        product == rate * p,
{
    assert((rate as u128) * p <= 4294967295 * 4611686018427387904) by (nonlinear_arith)
        requires
            rate <= 4294967295,
            p <= 4611686018427387904,
    ;
    (rate as u128) * p
}

/// Whether a rate ending in 50 Hz rounds up (see `float_rounds_up`).
fn rounds_up(rate: u32) -> (up: bool)
    requires
        rate > 0,
    ensures
        up == float_rounds_up(rate as nat),
{
    let target: u128 = 1000 * 4503599627370496;
    assert(pow2(52) == 4503599627370496) by {
        reveal_with_fuel(pow2, 53);
    }
    assert(pow2(62) == 4611686018427387904) by {
        reveal_with_fuel(pow2, 63);
    }
    let mut k: u32 = 0;
    let mut p: u128 = 1;
    let mut product = scaled_rate(rate, p);
    while product < target
        invariant
            k <= 62,
            p == pow2(k as nat),
            pow2(62) == 4611686018427387904,
            pow2(52) == 4503599627370496,
            product == rate * p,
            rate > 0,
            target == 1000 * pow2(52),
            float_scale(rate as nat, 0) == float_scale(rate as nat, k as nat),
        decreases 62 - k,
    {
        if k == 62 {
            assert(rate as nat * pow2(62) >= 1000 * pow2(52)) by (nonlinear_arith)
                requires
                    rate >= 1,
                    pow2(62) == 4611686018427387904,
                    pow2(52) == 4503599627370496,
            ;
        }
        proof {
            lemma_pow2_monotone((k + 1) as nat, 62);
        }
        p = p * 2;
        k = k + 1;
        product = scaled_rate(rate, p);
    }
    assert(float_scale(rate as nat, k as nat) == k);
    let dropped = product % 1000;
    dropped > 500 || (dropped == 0 && (rate / 100) % 2 == 1)
}

/// Formats a sample rate in Hz as kHz, e.g. 44100 as `44.1` and 48000 as
/// `48`.
pub fn format_sample_rate(sample_rate: u32) -> (text: String)
    ensures
        text@ == khz_one_decimal_text(sample_rate as nat),
{
    let rate = sample_rate as u64;
    let mut text = String::new();
    if rate % 1000 == 0 {
        push_decimal(&mut text, rate / 1000);
        return text;
    }
    let up = rate % 100 > 50 || (rate % 100 == 50 && rounds_up(sample_rate));
    let tenths: u64 = rate / 100 + if up {
        1
    } else {
        0
    };
    push_decimal(&mut text, tenths / 10);
    push_char(&mut text, '.');
    push_char(&mut text, digit_to_char(tenths % 10));
    assert(text@ =~= khz_one_decimal_text(sample_rate as nat));
    text
}

/// The rate shown is within half a tenth of a kHz (50 Hz) of the rate: the
/// tenths it shows, times 100 Hz, differ from the rate by at most 50 Hz.
pub proof fn shown_rate_is_within_50_hz(rate: nat)
    ensures
        ({
            let up = rate % 100 > 50 || (rate % 100 == 50 && float_rounds_up(rate));
            let tenths = rate / 100 + if up {
                1int
            } else {
                0int
            };
            -50 <= tenths * 100 - rate <= 50
        }),
{
}

/// The template of an M4A file's header entry.
pub const M4A_HEADER_TEMPLATE: &'static str = "\n-------------\nM4A Header Details:\n-------------\nChannels: {{ channel_count }}\nAverage Bitrate: {{ avg_bitrate }} kbps\nMaximum Bitrate: {{ max_bitrate }} kbps\nDuration: {{ duration }}\nSample Rate: {{ sample_rate }} kHz";
/// The template of an M4A file's user data entry.
pub const M4A_USERDATA_TEMPLATE: &'static str = "\n-------------\nUser Data:\n-------------{{ userdata_tags }}\n-------------\niTunes Tags:\n-------------{{ itunes_tags }}";

/// The values an M4A header entry is rendered from: the header values, and
/// the sample rate in kHz (nothing when it is not known).
pub open spec fn m4a_header_values(
    channel_count: Option<u8>,
    avg_bitrate: Option<u32>,
    max_bitrate: Option<u32>,
    duration_seconds: u64,
    sample_rate: Option<u32>,
) -> Seq<(Seq<char>, Seq<char>)> {
    seq![
        ("channel_count"@, decimal_text((match channel_count { Some(c) => c, None => 0u8 }) as nat)),
        ("avg_bitrate"@, decimal_text((match avg_bitrate { Some(b) => b / 1000, None => 0u32 }) as nat)),
        ("max_bitrate"@, decimal_text((match max_bitrate { Some(b) => b / 1000, None => 0u32 }) as nat)),
        ("duration"@, minutes_seconds_text(duration_seconds as nat)),
        ("sample_rate"@, match sample_rate { Some(r) => khz_one_decimal_text(r as nat), None => Seq::empty() }),
    ]
}

/// Renders the header values of an M4A file as its `Mandatory` entry.
pub fn m4a_header_entry(
    channel_count: Option<u8>,
    avg_bitrate: Option<u32>,
    max_bitrate: Option<u32>,
    duration_seconds: u64,
    sample_rate: Option<u32>,
) -> (result: Result<OutputEntry, LocalError>)
    ensures
        entry_of(
            Section::Mandatory,
            upon_rendered_text(
                M4A_HEADER_TEMPLATE@,
                m4a_header_values(channel_count, avg_bitrate, max_bitrate, duration_seconds, sample_rate),
            ),
            result,
        ),
{
    let header = get_mandatory_m4a_chunk_metdata(channel_count, avg_bitrate, max_bitrate, duration_seconds);
    let rate = match sample_rate {
        Some(r) => format_sample_rate(r),
        None => String::new(),
    };
    let values = vec![
        named("channel_count", decimal_string(header.channel_count as u64)),
        named("avg_bitrate", decimal_string(header.avg_bitrate as u64)),
        named("max_bitrate", decimal_string(header.max_bitrate as u64)),
        named("duration", header.duration),
        named("sample_rate", rate),
    ];
    assert(values_view(values@) =~= m4a_header_values(channel_count, avg_bitrate, max_bitrate, duration_seconds, sample_rate));
    render_entry(Section::Mandatory, M4A_HEADER_TEMPLATE, &values)
}

/// The line of a user data item: `key: value`.
pub open spec fn userdata_line(t: UserdataTag) -> Seq<char> {
    labelled(t.key@, t.value@)
}

/// The lines of items given as key and value.
pub open spec fn pair_lines(items: Seq<(Seq<char>, Seq<char>)>) -> Seq<char> {
    own_lines(items.map_values(|p: (Seq<char>, Seq<char>)| labelled(p.0, p.1)))
}

/// The lines of a list of items, in order.
fn userdata_lines(items: &Vec<UserdataTag>) -> (text: String)
    ensures
        text@ == own_lines(items@.map_values(|x: UserdataTag| userdata_line(x))),
{
    let mut lines: Vec<String> = Vec::new();
    let mut i: usize = 0;
    while i < items.len()
        invariant
            i <= items@.len(),
            lines_view(lines@) =~= items@.take(i as int).map_values(|x: UserdataTag| userdata_line(x)),
        decreases items@.len() - i,
    {
        let ghost before = lines_view(lines@);
        let item = &items[i];
        let line = labelled_string(item.key.as_str(), item.value.as_str());
        lines.push(line);
        assert(lines_view(lines@) =~= before.push(userdata_line(items@[i as int])));
        assert(items@.take(i + 1) =~= items@.take(i as int).push(items@[i as int]));
        i = i + 1;
    }
    assert(items@.take(i as int) =~= items@);
    join_on_own_lines(&lines)
}

/// Renders the user data items of an M4A file as its `Optional` entry: the
/// items other than iTunes items, then the iTunes items by name, each value
/// trimmed of white space.
pub fn m4a_userdata_entry(items: &Vec<(String, String)>) -> (result: Result<OutputEntry, LocalError>)
    requires
        itunes_keys_complete(items@),
    ensures
        entry_of(
            Section::Optional,
            upon_rendered_text(
                M4A_USERDATA_TEMPLATE@,
                seq![
                    ("userdata_tags"@, pair_lines(userdata_of_kind(items_view(items@), false))),
                    ("itunes_tags"@, pair_lines(userdata_of_kind(items_view(items@), true))),
                ],
            ),
            result,
        ),
{
    let (userdata_tags, itunes_tags) = get_m4a_userdata_tags(items);
    assert(userdata_tags@.map_values(|t: UserdataTag| userdata_line(t)) =~= userdata_of_kind(items_view(items@), false).map_values(
        |p: (Seq<char>, Seq<char>)| labelled(p.0, p.1),
    ));
    assert(itunes_tags@.map_values(|t: UserdataTag| userdata_line(t)) =~= userdata_of_kind(items_view(items@), true).map_values(
        |p: (Seq<char>, Seq<char>)| labelled(p.0, p.1),
    ));
    let values = vec![
        named("userdata_tags", userdata_lines(&userdata_tags)),
        named("itunes_tags", userdata_lines(&itunes_tags)),
    ];
    assert(values_view(values@) =~= seq![
        ("userdata_tags"@, pair_lines(userdata_of_kind(items_view(items@), false))),
        ("itunes_tags"@, pair_lines(userdata_of_kind(items_view(items@), true))),
    ]);
    render_entry(Section::Optional, M4A_USERDATA_TEMPLATE, &values)
}

/// A duration is shown as whole minutes, a colon and the seconds left over
/// as two digits.
pub proof fn durations_show_minutes_and_two_digit_seconds(seconds: nat, m: nat, s: nat)
    requires
        seconds == 60 * m + s,
        s < 60,
    ensures
        minutes_seconds_text(seconds) == decimal_text(m) + seq![':'] + if s < 10 {
            seq!['0'] + decimal_text(s)
        } else {
            decimal_text(s)
        },
{
    assert(seconds / 60 == m && seconds % 60 == s);
    if s < 10 {
        assert(decimal_text(s) =~= seq![digit_char(s)]);
    } else {
        assert(decimal_text(s / 10) =~= seq![digit_char(s / 10)]);
        assert(decimal_text(s) =~= seq![digit_char(s / 10), digit_char(s % 10)]);
    }
    assert(minutes_seconds_text(seconds) =~= decimal_text(m) + seq![':'] + if s < 10 {
        seq!['0'] + decimal_text(s)
    } else {
        decimal_text(s)
    });
}

} // verus!
