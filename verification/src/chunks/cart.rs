use crate::byte_arrays::{
    is_printable, printable_text, take_field, take_first_four_bytes_as_unsigned_integer,
    take_first_number_of_bytes, take_first_number_of_bytes_as_string, text_field, u32_field,
    Endian,
};
use crate::errors::LocalError;
use crate::formating::byte_len;
use crate::strings::push_char;
use crate::template::{entry_of, labelled, named, own_lines, render_entry, upon_rendered_text, values_view, join_on_own_lines};
use crate::output::{OutputEntry, Section};
use crate::strings::{decimal_string, decimal_text, lines_view, push_decimal};
use crate::template::labelled_string;
use vstd::prelude::*;

verus! {

pub const VERSION_LENGTH_IN_BYTES: usize = 4;
pub const TITLE_LENGTH_IN_BYTES: usize = 64;
pub const ARTIST_LENGTH_IN_BYTES: usize = 64;
pub const CUE_ID_LENGTH_IN_BYTES: usize = 64;
pub const CLIENT_ID_LENGTH_IN_BYTES: usize = 64;
pub const CATEGORY_LENGTH_IN_BYTES: usize = 64;
pub const CLASSIFICATION_LENGTH_IN_BYTES: usize = 64;
pub const OUT_CUE_LENGTH_IN_BYTES: usize = 64;
pub const START_DATE_LENGTH_IN_BYTES: usize = 10;
pub const START_TIME_LENGTH_IN_BYTES: usize = 8;
pub const END_DATE_LENGTH_IN_BYTES: usize = 10;
pub const END_TIME_LENGTH_IN_BYTES: usize = 8;
pub const PRODUCER_APP_ID_LENGTH_IN_BYTES: usize = 64;
pub const PRODUCER_APP_VERSION_LENGTH_IN_BYTES: usize = 64;
pub const USER_DEF_LENGTH_IN_BYTES: usize = 64;
pub const POST_TIMER_LENGTH_IN_BYTES: usize = 64;
pub const NUMBER_OF_POST_TIMERS_PER_TIMER: usize = 8;
pub const DW_USAGE_LENGTH_IN_BYTES: usize = 4;
pub const RESERVED_LENGTH_IN_BYTES: usize = 276;
pub const URL_LENGTH_IN_BYTES: usize = 1024;
pub const VERSION_STRING_DECIMAL_POSITION: usize = 2;

/// A post timer of a CART chunk: its usage ID and its value.
#[derive(Debug, Clone, PartialEq)]
pub struct CartTimer {
    pub dw_usage: String,
    pub dw_value: u32,
}

/// The view of a post timer.
pub open spec fn timer_view(t: CartTimer) -> (Seq<char>, u32) {
    (t.dw_usage@, t.dw_value)
}

/// The views of a list of post timers.
pub open spec fn timers_view(timers: Seq<CartTimer>) -> Seq<(Seq<char>, u32)> {
    timers.map_values(|t: CartTimer| timer_view(t))
}

/// The post timers held by `remaining` more timer slots of `s` (a four byte
/// usage text and a four byte little-endian value each); slots whose usage
/// text is empty and whose value is zero are unused and left out.
pub open spec fn post_timers(s: Seq<u8>, remaining: nat) -> Result<Seq<(Seq<char>, u32)>, LocalError>
    decreases remaining,
{
    if remaining == 0 {
        Ok(Seq::empty())
    } else {
        match text_field(s, 4) {
            Err(e) => Err(e),
            Ok((usage, s)) => match u32_field(s, Endian::Little) {
                Err(e) => Err(e),
                Ok((value, s)) => match post_timers(s, (remaining - 1) as nat) {
                    Err(e) => Err(e),
                    Ok(rest) => Ok(
                        if usage.len() > 0 || value != 0 {
                            seq![(usage, value)] + rest
                        } else {
                            rest
                        },
                    ),
                },
            },
        }
    }
}

/// A result with `prefix` in front of its timers.
pub open spec fn prefixed_timers(
    prefix: Seq<(Seq<char>, u32)>,
    result: Result<Seq<(Seq<char>, u32)>, LocalError>,
) -> Result<Seq<(Seq<char>, u32)>, LocalError> {
    match result {
        Ok(v) => Ok(prefix + v),
        Err(e) => Err(e),
    }
}

/// The used post timers of the eight timer slots of a CART chunk.
pub fn get_post_timer_from_bytes(post_timer_data: Vec<u8>) -> (result: Result<Vec<CartTimer>, LocalError>)
    ensures
        match result {
            Ok(timers) => post_timers(post_timer_data@, 8) == Ok::<
                Seq<(Seq<char>, u32)>,
                LocalError,
            >(timers_view(timers@)),
            Err(e) => post_timers(post_timer_data@, 8) == Err::<Seq<(Seq<char>, u32)>, LocalError>(
                e,
            ),
        },
{
    let mut data = post_timer_data;
    let mut post_timer: Vec<CartTimer> = Vec::new();
    let mut i: usize = 0;
    assert(timers_view(post_timer@) + Seq::empty() =~= timers_view(post_timer@));
    while i < NUMBER_OF_POST_TIMERS_PER_TIMER
        invariant
            i <= 8,
            post_timers(post_timer_data@, 8) == prefixed_timers(
                timers_view(post_timer@),
                post_timers(data@, (8 - i) as nat),
            ),
        decreases 8 - i,
    {
        let dw_usage = match take_first_number_of_bytes_as_string(&mut data, DW_USAGE_LENGTH_IN_BYTES) {
            Ok(v) => v,
            Err(e) => return Err(e),
        };
        let dw_value = match take_first_four_bytes_as_unsigned_integer(&mut data, Endian::Little) {
            Ok(v) => v,
            Err(e) => return Err(e),
        };
        let ghost before = timers_view(post_timer@);
        let ghost rest = post_timers(data@, (8 - i - 1) as nat);
        if dw_usage.as_str().unicode_len() > 0 || dw_value != 0 {
            let ghost t = (dw_usage@, dw_value);
            post_timer.push(CartTimer { dw_usage, dw_value });
            assert(timers_view(post_timer@) =~= before.push(t));
            proof {
                match rest {
                    Ok(v) => {
                        assert(before + (seq![t] + v) =~= before.push(t) + v);
                    },
                    Err(_) => {},
                }
            }
        }
        i = i + 1;
    }
    assert(timers_view(post_timer@) + Seq::empty() =~= timers_view(post_timer@));
    Ok(post_timer)
}

/// `s` without its leading `0` characters.
pub open spec fn trim_leading_zeros(s: Seq<char>) -> Seq<char>
    decreases s.len(),
{
    if s.len() > 0 && s[0] == '0' {
        trim_leading_zeros(s.skip(1))
    } else {
        s
    }
}

/// The number of characters in the first two bytes of a version text.
pub open spec fn version_split(v: Seq<char>) -> int {
    if (v[0] as u32) < 128 {
        2
    } else {
        1
    }
}

/// A version text can take a `.` after its second byte: it is empty, its
/// first characters are ASCII, or its first character is two bytes long.
pub open spec fn version_insertable(v: Seq<char>) -> bool {
    ||| v.len() == 0
    ||| (v[0] as u32) < 128 && (v.len() == 1 || (v[1] as u32) < 128)
    ||| 0x80 <= (v[0] as u32) && (v[0] as u32) < 0x800
}

/// A version such as `0234` as `2.34`: a `.` after the second byte and the
/// leading zeros dropped; versions of at most two bytes stay as they are.
pub open spec fn formatted_version_text(v: Seq<char>) -> Seq<char> {
    if byte_len(v) <= 2 || v.len() < version_split(v) {
        v
    } else {
        trim_leading_zeros(v.take(version_split(v)) + seq!['.'] + v.skip(version_split(v)))
    }
}

/// A string without its leading `0` characters.
pub(crate) fn trim_leading_zero_chars(text: &String) -> (trimmed: String)
    ensures
        trimmed@ == trim_leading_zeros(text@),
{
    let n = text.as_str().unicode_len();
    let mut i: usize = 0;
    assert(text@.skip(0) =~= text@);
    while i < n && text.as_str().get_char(i) == '0'
        invariant
            n == text@.len(),
            i <= n,
            trim_leading_zeros(text@) == trim_leading_zeros(text@.skip(i as int)),
        decreases n - i,
    {
        assert(text@.skip(i as int).skip(1) =~= text@.skip(i + 1));
        i = i + 1;
    }
    assert(text@.skip(i as int) =~= text@.subrange(i as int, n as int));
    String::from_str(text.as_str().substring_char(i, n))
}

/// Formats a CART version such as `0234` as `2.34`.
pub fn get_formated_version_from_version_string(version: String) -> (text: String)
    requires
        version_insertable(version@),
    ensures
        text@ == formatted_version_text(version@),
{
    if version.as_str().as_bytes().len() <= VERSION_STRING_DECIMAL_POSITION {
        return version;
    }
    let n = version.as_str().unicode_len();
    if n == 0 {
        return version;
    }
    let first = version.as_str().get_char(0);
    let split: usize = if (first as u32) < 128 {
        2
    } else {
        1
    };
    if n < split {
        return version;
    }
    let mut joined = String::from_str(version.as_str().substring_char(0, split));
    push_char(&mut joined, '.');
    joined.append(version.as_str().substring_char(split, n));
    assert(version@.subrange(0, split as int) =~= version@.take(split as int));
    assert(version@.subrange(split as int, n as int) =~= version@.skip(split as int));
    assert(joined@ =~= version@.take(split as int) + seq!['.'] + version@.skip(split as int));
    assert(byte_len(version@) > 2);
    assert(split == version_split(version@));
    trim_leading_zero_chars(&joined)
}

proof fn lemma_printable_text_is_ascii(s: Seq<u8>)
    ensures
        forall|i: int|
            0 <= i < printable_text(s).len() ==> (#[trigger] printable_text(s)[i] as u32) < 128,
    decreases s.len(),
{
    if s.len() > 0 {
        lemma_printable_text_is_ascii(s.drop_last());
        if is_printable(s.last()) {
            let c = s.last() as char;
            assert((c as u32) == s.last());
            let t = printable_text(s.drop_last()).push(c);
            assert forall|i: int| 0 <= i < t.len() implies (#[trigger] t[i] as u32) < 128 by {
                if i < t.len() - 1 {
                    assert(t[i] == printable_text(s.drop_last())[i]);
                }
            }
        }
    }
}

/// The fields of a CART chunk as stored.
pub ghost struct CartView {
    pub version: Seq<char>,
    pub title: Seq<char>,
    pub artist: Seq<char>,
    pub cue_id: Seq<char>,
    pub client_id: Seq<char>,
    pub category: Seq<char>,
    pub classification: Seq<char>,
    pub out_cue: Seq<char>,
    pub start_date: Seq<char>,
    pub start_time: Seq<char>,
    pub end_date: Seq<char>,
    pub end_time: Seq<char>,
    pub producer_app_id: Seq<char>,
    pub producer_app_version: Seq<char>,
    pub user_def: Seq<char>,
    pub dw_level_reference: u32,
    pub post_timer: Seq<(Seq<char>, u32)>,
    pub reserved: Seq<char>,
    pub url: Seq<char>,
    pub tag_text: Seq<char>,
}

/// The fields of a CART chunk: a 4 byte version, fifteen texts (64 bytes,
/// except the dates of 10 and the times of 8), the level reference, eight
/// post timer slots, a 276 byte reserved text, a 1024 byte URL and the tag
/// text (the rest).
pub open spec fn cart_fields(s: Seq<u8>) -> Result<CartView, LocalError> {
    match text_field(s, 4) {
        Err(e) => Err(e),
        Ok((version, s)) => 
            match text_field(s, 64) {
                Err(e) => Err(e),
                Ok((title, s)) => 
                    match text_field(s, 64) {
                        Err(e) => Err(e),
                        Ok((artist, s)) => 
                            match text_field(s, 64) {
                                Err(e) => Err(e),
                                Ok((cue_id, s)) => 
                                    match text_field(s, 64) {
                                        Err(e) => Err(e),
                                        Ok((client_id, s)) => 
                                            match text_field(s, 64) {
                                                Err(e) => Err(e),
                                                Ok((category, s)) => 
                                                    match text_field(s, 64) {
                                                        Err(e) => Err(e),
                                                        Ok((classification, s)) => 
                                                            match text_field(s, 64) {
                                                                Err(e) => Err(e),
                                                                Ok((out_cue, s)) => 
                                                                    match text_field(s, 10) {
                                                                        Err(e) => Err(e),
                                                                        Ok((start_date, s)) => 
                                                                            match text_field(s, 8) {
                                                                                Err(e) => Err(e),
                                                                                Ok((start_time, s)) => 
                                                                                    match text_field(s, 10) {
                                                                                        Err(e) => Err(e),
                                                                                        Ok((end_date, s)) => 
                                                                                            match text_field(s, 8) {
                                                                                                Err(e) => Err(e),
                                                                                                Ok((end_time, s)) => 
                                                                                                    match text_field(s, 64) {
                                                                                                        Err(e) => Err(e),
                                                                                                        Ok((producer_app_id, s)) => 
                                                                                                            match text_field(s, 64) {
                                                                                                                Err(e) => Err(e),
                                                                                                                Ok((producer_app_version, s)) => 
                                                                                                                    match text_field(s, 64) {
                                                                                                                        Err(e) => Err(e),
                                                                                                                        Ok((user_def, s)) => 
                                                                                                                            match u32_field(s, Endian::Little) {
                                                                                                                                Err(e) => Err(e),
                                                                                                                                Ok((dw_level_reference, s)) => 
                                                                                                                                    match take_field(s, 64) {
                                                                                                                                        Err(e) => Err(e),
                                                                                                                                        Ok((post_timer_bytes, s)) => 
                                                                                                                                            match text_field(s, 276) {
                                                                                                                                                Err(e) => Err(e),
                                                                                                                                                Ok((reserved, s)) => 
                                                                                                                                                    match text_field(s, 1024) {
                                                                                                                                                        Err(e) => Err(e),
                                                                                                                                                        Ok((url, s)) => match post_timers(post_timer_bytes, 8) {
    Err(e) => Err(e),
    Ok(post_timer) => Ok(CartView { version, title, artist, cue_id, client_id, category, classification, out_cue, start_date, start_time, end_date, end_time, producer_app_id, producer_app_version, user_def, dw_level_reference, post_timer, reserved, url, tag_text: printable_text(s) }),
},
                                                                                                                                                    },
                                                                                                                                            },
                                                                                                                                    },
                                                                                                                            },
                                                                                                                    },
                                                                                                            },
                                                                                                    },
                                                                                            },
                                                                                    },
                                                                            },
                                                                    },
                                                            },
                                                    },
                                            },
                                    },
                            },
                    },
            },
    }
}

/// The decoded contents of a CART chunk, its version formatted.
#[derive(Debug, Clone, PartialEq)]
pub struct CartMetadata {
    pub version: String,
    pub title: String,
    pub artist: String,
    pub cue_id: String,
    pub client_id: String,
    pub category: String,
    pub classification: String,
    pub out_cue: String,
    pub start_date: String,
    pub start_time: String,
    pub end_date: String,
    pub end_time: String,
    pub producer_app_id: String,
    pub producer_app_version: String,
    pub user_def: String,
    pub dw_level_reference: u32,
    pub post_timer: Vec<CartTimer>,
    pub reserved: String,
    pub url: String,
    pub tag_text: String,
}

/// Whether the metadata shows the fields of a CART chunk.
pub open spec fn cart_metadata_matches(m: CartMetadata, v: CartView) -> bool {
    &&& m.version@ == formatted_version_text(v.version)
    &&& m.title@ == v.title
    &&& m.artist@ == v.artist
    &&& m.cue_id@ == v.cue_id
    &&& m.client_id@ == v.client_id
    &&& m.category@ == v.category
    &&& m.classification@ == v.classification
    &&& m.out_cue@ == v.out_cue
    &&& m.start_date@ == v.start_date
    &&& m.start_time@ == v.start_time
    &&& m.end_date@ == v.end_date
    &&& m.end_time@ == v.end_time
    &&& m.producer_app_id@ == v.producer_app_id
    &&& m.producer_app_version@ == v.producer_app_version
    &&& m.user_def@ == v.user_def
    &&& m.dw_level_reference == v.dw_level_reference
    &&& timers_view(m.post_timer@) == v.post_timer
    &&& m.reserved@ == v.reserved
    &&& m.url@ == v.url
    &&& m.tag_text@ == v.tag_text
}

/// Decodes a CART chunk.
pub fn get_metadata(chunk_data: Vec<u8>) -> (result: Result<CartMetadata, LocalError>)
    ensures
        match cart_fields(chunk_data@) {
            Ok(v) => result matches Ok(m) && cart_metadata_matches(m, v),
            Err(e) => result == Err::<CartMetadata, LocalError>(e),
        },
{
    let mut data = chunk_data;
    let version = match take_first_number_of_bytes_as_string(&mut data, VERSION_LENGTH_IN_BYTES) {
        Ok(v) => v,
        Err(e) => return Err(e),
    };
    let title = match take_first_number_of_bytes_as_string(&mut data, TITLE_LENGTH_IN_BYTES) {
        Ok(v) => v,
        Err(e) => return Err(e),
    };
    let artist = match take_first_number_of_bytes_as_string(&mut data, ARTIST_LENGTH_IN_BYTES) {
        Ok(v) => v,
        Err(e) => return Err(e),
    };
    let cue_id = match take_first_number_of_bytes_as_string(&mut data, CUE_ID_LENGTH_IN_BYTES) {
        Ok(v) => v,
        Err(e) => return Err(e),
    };
    let client_id = match take_first_number_of_bytes_as_string(&mut data, CLIENT_ID_LENGTH_IN_BYTES) {
        Ok(v) => v,
        Err(e) => return Err(e),
    };
    let category = match take_first_number_of_bytes_as_string(&mut data, CATEGORY_LENGTH_IN_BYTES) {
        Ok(v) => v,
        Err(e) => return Err(e),
    };
    let classification = match take_first_number_of_bytes_as_string(&mut data, CLASSIFICATION_LENGTH_IN_BYTES) {
        Ok(v) => v,
        Err(e) => return Err(e),
    };
    let out_cue = match take_first_number_of_bytes_as_string(&mut data, OUT_CUE_LENGTH_IN_BYTES) {
        Ok(v) => v,
        Err(e) => return Err(e),
    };
    let start_date = match take_first_number_of_bytes_as_string(&mut data, START_DATE_LENGTH_IN_BYTES) {
        Ok(v) => v,
        Err(e) => return Err(e),
    };
    let start_time = match take_first_number_of_bytes_as_string(&mut data, START_TIME_LENGTH_IN_BYTES) {
        Ok(v) => v,
        Err(e) => return Err(e),
    };
    let end_date = match take_first_number_of_bytes_as_string(&mut data, END_DATE_LENGTH_IN_BYTES) {
        Ok(v) => v,
        Err(e) => return Err(e),
    };
    let end_time = match take_first_number_of_bytes_as_string(&mut data, END_TIME_LENGTH_IN_BYTES) {
        Ok(v) => v,
        Err(e) => return Err(e),
    };
    let producer_app_id = match take_first_number_of_bytes_as_string(&mut data, PRODUCER_APP_ID_LENGTH_IN_BYTES) {
        Ok(v) => v,
        Err(e) => return Err(e),
    };
    let producer_app_version = match take_first_number_of_bytes_as_string(&mut data, PRODUCER_APP_VERSION_LENGTH_IN_BYTES) {
        Ok(v) => v,
        Err(e) => return Err(e),
    };
    let user_def = match take_first_number_of_bytes_as_string(&mut data, USER_DEF_LENGTH_IN_BYTES) {
        Ok(v) => v,
        Err(e) => return Err(e),
    };
    let dw_level_reference = match take_first_four_bytes_as_unsigned_integer(&mut data, Endian::Little) {
        Ok(v) => v,
        Err(e) => return Err(e),
    };
    let post_timer_bytes = match take_first_number_of_bytes(&mut data, POST_TIMER_LENGTH_IN_BYTES) {
        Ok(v) => v,
        Err(e) => return Err(e),
    };
    let reserved = match take_first_number_of_bytes_as_string(&mut data, RESERVED_LENGTH_IN_BYTES) {
        Ok(v) => v,
        Err(e) => return Err(e),
    };
    let url = match take_first_number_of_bytes_as_string(&mut data, URL_LENGTH_IN_BYTES) {
        Ok(v) => v,
        Err(e) => return Err(e),
    };
    let post_timer = match get_post_timer_from_bytes(post_timer_bytes) {
        Ok(v) => v,
        Err(e) => return Err(e),
    };
    let remaining_data_bytes = data.len();
    let ghost rest = data@;
    let tag_text = match take_first_number_of_bytes_as_string(&mut data, remaining_data_bytes) {
        Ok(v) => v,
        Err(e) => return Err(e),
    };
    proof {
        lemma_printable_text_is_ascii(chunk_data@.take(4));
    }
    assert(rest.take(remaining_data_bytes as int) =~= rest);
    let version = get_formated_version_from_version_string(version);
    Ok(CartMetadata {
        version,
        title,
        artist,
        cue_id,
        client_id,
        category,
        classification,
        out_cue,
        start_date,
        start_time,
        end_date,
        end_time,
        producer_app_id,
        producer_app_version,
        user_def,
        dw_level_reference,
        post_timer,
        reserved,
        url,
        tag_text,
    })
}

/// Only post timers in use are kept: at most one per slot, each with a
/// usage text or a value.
pub proof fn post_timers_are_in_use(s: Seq<u8>, remaining: nat)
    ensures
        post_timers(s, remaining) matches Ok(timers) ==> {
            &&& timers.len() <= remaining
            &&& forall|i: int|
                0 <= i < timers.len() ==> (#[trigger] timers[i]).0.len() > 0 || timers[i].1 != 0
        },
    decreases remaining,
{
    if remaining > 0 {
        match text_field(s, 4) {
            Err(_) => {},
            Ok((usage, s1)) => match u32_field(s1, Endian::Little) {
                Err(_) => {},
                Ok((value, s2)) => {
                    post_timers_are_in_use(s2, (remaining - 1) as nat);
                    if let Ok(rest) = post_timers(s2, (remaining - 1) as nat) {
                        if usage.len() > 0 || value != 0 {
                            let timers = seq![(usage, value)] + rest;
                            assert forall|i: int| 0 <= i < timers.len() implies (
                            #[trigger] timers[i]).0.len() > 0 || timers[i].1 != 0 by {
                                if i > 0 {
                                    assert(timers[i] == rest[i - 1]);
                                }
                            }
                        }
                    }
                },
            },
        }
    }
}

/// The template of a cart chunk's report entry.
pub const CART_TEMPLATE: &'static str = "\n-------------\nCart Chunk Details:\n-------------\nVersion: {{ version }}\nTitle: {{ title }}\nArtist: {{ artist }}\nCue ID: {{ cue_id }}\nClient ID: {{ client_id }}\nCategory: {{ category }}\nClassification: {{ classification }}\nOut Cue: {{ out_cue }}\nStart Date: {{ start_date }}\nStart Time: {{ start_time }}\nEnd Date: {{ end_date }}\nEnd Time: {{ end_time }}\nProducer App ID: {{ producer_app_id }}\nProducer App Version: {{ producer_app_version }}\nUser Defined Text: {{ user_def }}\nLevel Reference: {{ dw_level_reference }}\nPost Timers:{{ post_timer }}\nURL: {{ url }}\nTag Text: {{ tag_text }}";

/// The line of a post timer: `usage: value`.
pub open spec fn timer_line(t: CartTimer) -> Seq<char> {
    labelled(t.dw_usage@, decimal_text(t.dw_value as nat))
}

/// The lines of a list of items, in order.
fn timer_lines(items: &Vec<CartTimer>) -> (text: String)
    ensures
        text@ == own_lines(items@.map_values(|x: CartTimer| timer_line(x))),
{
    let mut lines: Vec<String> = Vec::new();
    let mut i: usize = 0;
    while i < items.len()
        invariant
            i <= items@.len(),
            lines_view(lines@) =~= items@.take(i as int).map_values(|x: CartTimer| timer_line(x)),
        decreases items@.len() - i,
    {
        let ghost before = lines_view(lines@);
        let item = &items[i];
        let mut value = String::new();
        push_decimal(&mut value, item.dw_value as u64);
        let line = labelled_string(item.dw_usage.as_str(), value.as_str());
        lines.push(line);
        assert(lines_view(lines@) =~= before.push(timer_line(items@[i as int])));
        assert(items@.take(i + 1) =~= items@.take(i as int).push(items@[i as int]));
        i = i + 1;
    }
    assert(items@.take(i as int) =~= items@);
    join_on_own_lines(&lines)
}

/// The values a cart entry is rendered from.
pub open spec fn cart_output_values(m: CartMetadata) -> Seq<(Seq<char>, Seq<char>)> {
    seq![
        ("version"@, m.version@),
        ("title"@, m.title@),
        ("artist"@, m.artist@),
        ("cue_id"@, m.cue_id@),
        ("client_id"@, m.client_id@),
        ("category"@, m.category@),
        ("classification"@, m.classification@),
        ("out_cue"@, m.out_cue@),
        ("start_date"@, m.start_date@),
        ("start_time"@, m.start_time@),
        ("end_date"@, m.end_date@),
        ("end_time"@, m.end_time@),
        ("producer_app_id"@, m.producer_app_id@),
        ("producer_app_version"@, m.producer_app_version@),
        ("user_def"@, m.user_def@),
        ("dw_level_reference"@, decimal_text(m.dw_level_reference as nat)),
        ("post_timer"@, own_lines(m.post_timer@.map_values(|t: CartTimer| timer_line(t)))),
        ("url"@, m.url@),
        ("tag_text"@, m.tag_text@),
    ]
}

fn cart_values(m: &CartMetadata) -> (values: Vec<(String, String)>)
    ensures
        values_view(values@) == cart_output_values(*m),
{
    let values = vec![
        named("version", m.version.clone()),
        named("title", m.title.clone()),
        named("artist", m.artist.clone()),
        named("cue_id", m.cue_id.clone()),
        named("client_id", m.client_id.clone()),
        named("category", m.category.clone()),
        named("classification", m.classification.clone()),
        named("out_cue", m.out_cue.clone()),
        named("start_date", m.start_date.clone()),
        named("start_time", m.start_time.clone()),
        named("end_date", m.end_date.clone()),
        named("end_time", m.end_time.clone()),
        named("producer_app_id", m.producer_app_id.clone()),
        named("producer_app_version", m.producer_app_version.clone()),
        named("user_def", m.user_def.clone()),
        named("dw_level_reference", decimal_string(m.dw_level_reference as u64)),
        named("post_timer", timer_lines(&m.post_timer)),
        named("url", m.url.clone()),
        named("tag_text", m.tag_text.clone()),
    ];
    assert(values_view(values@) =~= cart_output_values(*m));
    values
}

/// The report entry of a chunk's bytes: the decoding error, or the
/// decoded fields rendered under `Optional`.
pub open spec fn cart_entry_is(data: Seq<u8>, result: Result<OutputEntry, LocalError>) -> bool {
    match cart_fields(data) {
        Ok(v) => exists|m: CartMetadata| #[trigger] cart_metadata_matches(m, v) && entry_of(
            Section::Optional,
            upon_rendered_text(CART_TEMPLATE@, cart_output_values(m)),
            result,
        ),
        Err(e) => result == Err::<OutputEntry, LocalError>(e),
    }
}

/// Decodes a chunk and renders it as its report entry.
pub fn cart_entry(chunk_data: Vec<u8>) -> (result: Result<OutputEntry, LocalError>)
    ensures
        cart_entry_is(chunk_data@, result),
{
    match get_metadata(chunk_data) {
        Ok(m) => {
            let values = cart_values(&m);
            render_entry(Section::Optional, CART_TEMPLATE, &values)
        },
        Err(e) => Err(e),
    }
}

} // verus!
