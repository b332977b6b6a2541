use crate::byte_arrays::{
    i32_field, take_field, take_first_four_bytes_as_signed_integer, take_first_number_of_bytes,
    take_first_number_of_bytes_as_string, text_field, Endian,
};
use crate::chunks::cart::{
    get_post_timer_from_bytes, post_timers, timer_view, timers_view, trim_leading_zero_chars,
    trim_leading_zeros, CartTimer,
};
use crate::errors::LocalError;
use crate::strings::{
    decimal_text, insert_at_byte_two, insertable_at_byte_two, inserted_at_byte_two, lines_view,
    push_decimal, push_line, push_signed_decimal, signed_decimal_text,
};
use vstd::prelude::*;

verus! {

/// Length of the version field of a cart chunk.
pub const VERSION_LENGTH_IN_BYTES: usize = 4;

/// Length of each text field after the version, and of the reserved, URL and
/// tag text fields.
pub const TEXT_FIELD_LENGTH_IN_BYTES: usize = 64;

/// Length of the post timer field.
pub const POST_TIMER_LENGTH_IN_BYTES: usize = 64;

/// Number of text fields from the version to the user-defined text.
pub const NUMBER_OF_LEADING_TEXT_FIELDS: usize = 15;

/// Heading of the cart lines.
pub const CART_HEADING: &'static str = "\n-------------\nCart Chunk Details:\n-------------";

/// The fields of a cart chunk of a Wave file.
#[derive(Debug, Clone, PartialEq)]
pub struct CartData {
    pub version: String,
    pub title: String,
    pub artist: String,
    pub cue_id: String,
    pub client_id: String,
    pub category: String,
    pub classification: String,
    pub out_cue: String,
    pub start_date: String,
    pub start_time: String,
    pub end_date: String,
    pub end_time: String,
    pub producer_app_id: String,
    pub producer_app_version: String,
    pub user_def: String,
    pub dw_level_reference: i32,
    pub post_timer: Vec<CartTimer>,
    pub reserved: String,
    pub url: String,
    pub tag_text: String,
}

/// The texts of `count` consecutive text fields of `length` bytes each (see
/// `printable_text`), and the bytes after them.
pub open spec fn text_fields(s: Seq<u8>, length: nat, count: nat) -> Result<
    (Seq<Seq<char>>, Seq<u8>),
    LocalError,
>
    decreases count,
{
    if count == 0 {
        Ok((Seq::empty(), s))
    } else {
        match text_fields(s, length, (count - 1) as nat) {
            Err(e) => Err(e),
            Ok((texts, rest)) => match text_field(rest, length as int) {
                Err(e) => Err(e),
                Ok((t, after)) => Ok((texts.push(t), after)),
            },
        }
    }
}

/// The fields of a cart chunk after its leading texts: the signed level
/// reference (little-endian), the post timer slots, and the reserved, URL and
/// tag texts.
pub open spec fn cart_tail(s: Seq<u8>) -> Result<
    (i32, Seq<(Seq<char>, u32)>, Seq<char>, Seq<char>, Seq<char>),
    LocalError,
> {
    match i32_field(s, Endian::Little) {
        Err(e) => Err(e),
        Ok((level, s)) => match take_field(s, POST_TIMER_LENGTH_IN_BYTES as int) {
            Err(e) => Err(e),
            Ok((timer_bytes, s)) => match post_timers(timer_bytes, 8) {
                Err(e) => Err(e),
                Ok(timers) => match text_fields(s, TEXT_FIELD_LENGTH_IN_BYTES as nat, 3) {
                    Err(e) => Err(e),
                    Ok((texts, _)) => Ok((level, timers, texts[0], texts[1], texts[2])),
                },
            },
        },
    }
}

/// Whether `c` holds the leading texts `texts` and the tail fields `tail`.
pub open spec fn cart_data_matches(
    c: CartData,
    texts: Seq<Seq<char>>,
    tail: (i32, Seq<(Seq<char>, u32)>, Seq<char>, Seq<char>, Seq<char>),
) -> bool {
    &&& c.version@ == texts[0]
    &&& c.title@ == texts[1]
    &&& c.artist@ == texts[2]
    &&& c.cue_id@ == texts[3]
    &&& c.client_id@ == texts[4]
    &&& c.category@ == texts[5]
    &&& c.classification@ == texts[6]
    &&& c.out_cue@ == texts[7]
    &&& c.start_date@ == texts[8]
    &&& c.start_time@ == texts[9]
    &&& c.end_date@ == texts[10]
    &&& c.end_time@ == texts[11]
    &&& c.producer_app_id@ == texts[12]
    &&& c.producer_app_version@ == texts[13]
    &&& c.user_def@ == texts[14]
    &&& c.dw_level_reference == tail.0
    &&& timers_view(c.post_timer@) == tail.1
    &&& c.reserved@ == tail.2
    &&& c.url@ == tail.3
    &&& c.tag_text@ == tail.4
}

/// The leading texts of a cart chunk: the 4 byte version, then fourteen 64
/// byte texts.
pub open spec fn cart_leading_texts(s: Seq<u8>) -> Result<(Seq<Seq<char>>, Seq<u8>), LocalError> {
    match text_field(s, VERSION_LENGTH_IN_BYTES as int) {
        Err(e) => Err(e),
        Ok((version, s)) => match text_fields(s, TEXT_FIELD_LENGTH_IN_BYTES as nat, 14) {
            Err(e) => Err(e),
            Ok((texts, rest)) => Ok((seq![version] + texts, rest)),
        },
    }
}

proof fn lemma_text_fields_error_stays(s: Seq<u8>, length: nat, j: nat, m: nat)
    requires
        j <= m,
        text_fields(s, length, j) is Err,
    ensures
        text_fields(s, length, m) == text_fields(s, length, j),
    decreases m - j,
{
    if j < m {
        lemma_text_fields_error_stays(s, length, j, (m - 1) as nat);
    }
}

/// Takes `count` text fields of `length` bytes each.
fn take_text_fields(data: &mut Vec<u8>, length: usize, count: usize) -> (result: Result<
    Vec<String>,
    LocalError,
>)
    ensures
        match text_fields(old(data)@, length as nat, count as nat) {
            Ok((texts, rest)) => result matches Ok(v) && v@.map_values(|t: String| t@) == texts
                && final(data)@ == rest,
            Err(e) => result == Err::<Vec<String>, LocalError>(e),
        },
        result matches Ok(v) ==> v@.len() == count,
{
    let ghost start = data@;
    let mut texts: Vec<String> = Vec::new();
    let mut k: usize = 0;
    assert(texts@.map_values(|t: String| t@) =~= Seq::<Seq<char>>::empty());
    while k < count
        invariant
            k <= count,
            texts@.len() == k,
            start == old(data)@,
            text_fields(start, length as nat, k as nat) == Ok::<
                (Seq<Seq<char>>, Seq<u8>),
                LocalError,
            >((texts@.map_values(|t: String| t@), data@)),
        decreases count - k,
    {
        let ghost before_take = data@;
        let text = match take_first_number_of_bytes_as_string(data, length) {
            Ok(t) => t,
            Err(e) => {
                assert(text_field(before_take, length as int) == Err::<(Seq<char>, Seq<u8>), LocalError>(e));
                assert(text_fields(start, length as nat, (k + 1) as nat) == Err::<
                    (Seq<Seq<char>>, Seq<u8>),
                    LocalError,
                >(e));
                proof {
                    lemma_text_fields_error_stays(start, length as nat, (k + 1) as nat, count as nat);
                }
                return Err(e);
            },
        };
        let ghost before = texts@.map_values(|t: String| t@);
        texts.push(text);
        assert(texts@.map_values(|t: String| t@) =~= before.push(text@));
        k = k + 1;
    }
    Ok(texts)
}

impl CartData {
    /// Decodes the bytes of a cart chunk.
    #[verifier::loop_isolation(false)]
    pub fn new(cart_data: Vec<u8>) -> (result: Result<Self, LocalError>)
        ensures
            match cart_leading_texts(cart_data@) {
                Err(e) => result == Err::<CartData, LocalError>(e),
                Ok((texts, rest)) => match cart_tail(rest) {
                    Err(e) => result == Err::<CartData, LocalError>(e),
                    Ok(tail) => result matches Ok(c) && cart_data_matches(c, texts, tail),
                },
            },
    {
        let mut data = cart_data;
        let version = match take_first_number_of_bytes_as_string(&mut data, VERSION_LENGTH_IN_BYTES) {
            Ok(t) => t,
            Err(e) => return Err(e),
        };
        let texts = match take_text_fields(&mut data, TEXT_FIELD_LENGTH_IN_BYTES, 14) {
            Ok(v) => v,
            Err(e) => return Err(e),
        };
        let ghost rest = data@;
        let dw_level_reference = match take_first_four_bytes_as_signed_integer(&mut data, Endian::Little) {
            Ok(v) => v,
            Err(e) => return Err(e),
        };
        let timer_bytes = match take_first_number_of_bytes(&mut data, POST_TIMER_LENGTH_IN_BYTES) {
            Ok(b) => b,
            Err(e) => return Err(e),
        };
        let post_timer = match get_post_timer_from_bytes(timer_bytes) {
            Ok(t) => t,
            Err(e) => return Err(e),
        };
        let last = match take_text_fields(&mut data, TEXT_FIELD_LENGTH_IN_BYTES, 3) {
            Ok(v) => v,
            Err(e) => return Err(e),
        };
        let ghost leading = seq![version@] + texts@.map_values(|t: String| t@);
        assert(cart_leading_texts(cart_data@) == Ok::<(Seq<Seq<char>>, Seq<u8>), LocalError>(
            (leading, rest),
        ));
        let c = CartData {
            version,
            title: texts[0].clone(),
            artist: texts[1].clone(),
            cue_id: texts[2].clone(),
            client_id: texts[3].clone(),
            category: texts[4].clone(),
            classification: texts[5].clone(),
            out_cue: texts[6].clone(),
            start_date: texts[7].clone(),
            start_time: texts[8].clone(),
            end_date: texts[9].clone(),
            end_time: texts[10].clone(),
            producer_app_id: texts[11].clone(),
            producer_app_version: texts[12].clone(),
            user_def: texts[13].clone(),
            dw_level_reference,
            post_timer,
            reserved: last[0].clone(),
            url: last[1].clone(),
            tag_text: last[2].clone(),
        };
        Ok(c)
    }
}

/// A version such as `0234` as `2.34`: a `.` after the second byte, then the
/// leading zeros dropped.
pub open spec fn dotted_version_text(v: Seq<char>) -> Seq<char> {
    trim_leading_zeros(inserted_at_byte_two(v, '.'))
}

/// Formats a version such as `0234` as `2.34`.
pub fn get_formated_version_from_version_string(version: String) -> (text: String)
    requires
        insertable_at_byte_two(version@),
    ensures
        text@ == dotted_version_text(version@),
{
    let joined = insert_at_byte_two(&version, '.');
    trim_leading_zero_chars(&joined)
}

/// `label` followed by `value`.
pub open spec fn labelled(label: &str, value: Seq<char>) -> Seq<char> {
    label@ + value
}

/// A post timer line: `{usage} - {value}`.
pub open spec fn timer_line(t: (Seq<char>, u32)) -> Seq<char> {
    t.0 + " - "@ + decimal_text(t.1 as nat)
}

/// The lines that show a cart chunk.
pub open spec fn cart_output_lines(c: CartData) -> Seq<Seq<char>> {
    seq![
        CART_HEADING@,
        labelled("Version: v", dotted_version_text(c.version@)),
        labelled("Title: ", c.title@),
        labelled("Artist: ", c.artist@),
        labelled("Cue ID: ", c.cue_id@),
        labelled("Client ID: ", c.client_id@),
        labelled("Category: ", c.category@),
        labelled("Classification: ", c.classification@),
        labelled("Out Cue: ", c.out_cue@),
        labelled("Start Date: ", c.start_date@),
        labelled("Start Time: ", c.start_time@),
        labelled("End Date: ", c.end_date@),
        labelled("End Time: ", c.end_time@),
        labelled("Producer App ID: ", c.producer_app_id@),
        labelled("Producer App Version: ", c.producer_app_version@),
        labelled("User Defined: ", c.user_def@),
        labelled("DW Level Reference: ", signed_decimal_text(c.dw_level_reference as int)),
    ] + (if c.post_timer@.len() > 0 {
        seq!["Post Timer:\n-------------"@] + timers_view(c.post_timer@).map_values(
            |t: (Seq<char>, u32)| timer_line(t),
        )
    } else {
        seq!["Post Timer: None"@]
    }) + (if c.reserved@.len() > 0 {
        seq![labelled("Reserved Chunk As String: ", c.reserved@)]
    } else {
        Seq::empty()
    }) + seq![labelled("URL: ", c.url@), labelled("Tag Text: ", c.tag_text@)]
}

fn labelled_string(label: &str, value: &String) -> (text: String)
    ensures
        text@ == labelled(label, value@),
{
    let mut text = String::from_str(label);
    text.append(value.as_str());
    text
}

impl CartData {
    /// The lines that show the chunk. The version must take a `.` after its
    /// second byte.
    pub fn get_metadata_output(&self) -> (lines: Vec<String>)
        requires
            insertable_at_byte_two(self.version@),
        ensures
            lines_view(lines@) == cart_output_lines(*self),
    {
        let mut lines: Vec<String> = Vec::new();
        push_line(&mut lines, String::from_str(CART_HEADING));
        let version = get_formated_version_from_version_string(self.version.clone());
        push_line(&mut lines, labelled_string("Version: v", &version));
        push_line(&mut lines, labelled_string("Title: ", &self.title));
        push_line(&mut lines, labelled_string("Artist: ", &self.artist));
        push_line(&mut lines, labelled_string("Cue ID: ", &self.cue_id));
        push_line(&mut lines, labelled_string("Client ID: ", &self.client_id));
        push_line(&mut lines, labelled_string("Category: ", &self.category));
        push_line(&mut lines, labelled_string("Classification: ", &self.classification));
        push_line(&mut lines, labelled_string("Out Cue: ", &self.out_cue));
        push_line(&mut lines, labelled_string("Start Date: ", &self.start_date));
        push_line(&mut lines, labelled_string("Start Time: ", &self.start_time));
        push_line(&mut lines, labelled_string("End Date: ", &self.end_date));
        push_line(&mut lines, labelled_string("End Time: ", &self.end_time));
        push_line(&mut lines, labelled_string("Producer App ID: ", &self.producer_app_id));
        push_line(
            &mut lines,
            labelled_string("Producer App Version: ", &self.producer_app_version),
        );
        push_line(&mut lines, labelled_string("User Defined: ", &self.user_def));
        let mut level = String::from_str("DW Level Reference: ");
        push_signed_decimal(&mut level, self.dw_level_reference as i64);
        push_line(&mut lines, level);
        let ghost head = lines_view(lines@);
        if self.post_timer.len() > 0 {
            push_line(&mut lines, String::from_str("Post Timer:\n-------------"));
            let ghost timer_head = lines_view(lines@);
            let mut i: usize = 0;
            while i < self.post_timer.len()
                invariant
                    i <= self.post_timer@.len(),
                    lines_view(lines@) == timer_head + timers_view(self.post_timer@).take(
                        i as int,
                    ).map_values(|t: (Seq<char>, u32)| timer_line(t)),
                decreases self.post_timer@.len() - i,
            {
                let timer = &self.post_timer[i];
                let mut line = timer.dw_usage.clone();
                line.append(" - ");
                push_decimal(&mut line, timer.dw_value as u64);
                let ghost before = lines_view(lines@);
                push_line(&mut lines, line);
                assert(timers_view(self.post_timer@).take(i + 1) =~= timers_view(
                    self.post_timer@,
                ).take(i as int).push(timer_view(self.post_timer@[i as int])));
                i = i + 1;
            }
            assert(timers_view(self.post_timer@).take(self.post_timer@.len() as int)
                =~= timers_view(self.post_timer@));
        } else {
            push_line(&mut lines, String::from_str("Post Timer: None"));
        }
        let ghost middle = lines_view(lines@);
        if self.reserved.as_str().unicode_len() > 0 {
            push_line(&mut lines, labelled_string("Reserved Chunk As String: ", &self.reserved));
        }
        push_line(&mut lines, labelled_string("URL: ", &self.url));
        push_line(&mut lines, labelled_string("Tag Text: ", &self.tag_text));
        assert(lines_view(lines@) =~= cart_output_lines(*self));
        lines
    }
}

} // verus!
