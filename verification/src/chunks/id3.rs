use crate::errors::LocalError;
use crate::flac::longest_id;
use crate::formating::byte_len;
use crate::strings::{insert_at_byte_two, insertable_at_byte_two, inserted_at_byte_two, push_spaces, spaces};
use crate::template::{entry_of, join_on_own_lines, named, own_lines, render_entry, upon_rendered_text, values_view};
use crate::output::{OutputEntry, Section};
use crate::strings::lines_view;
use vstd::prelude::*;

verus! {

/// The name of the frame whose content is a time `HHMM`.
pub const TIME_FIELD_TITLE: &'static str = "Time";

/// A frame of an ID3 tag: its name, the spaces that align its content, and
/// its content.
#[derive(Debug, Clone, PartialEq, Eq)]
pub struct ID3Tag {
    pub id: String,
    pub spacer: String,
    pub content: String,
}

/// The content shown for a frame: a time gets a `:` after its hours.
pub open spec fn shown_content(id: Seq<char>, content: Seq<char>) -> Seq<char> {
    if id == TIME_FIELD_TITLE@ {
        inserted_at_byte_two(content, ':')
    } else {
        content
    }
}

/// Whether every time frame's content can take a `:` at byte 2.
pub open spec fn times_insertable(frames: Seq<(Seq<char>, Seq<char>)>) -> bool {
    forall|i: int|
        0 <= i < frames.len() && (#[trigger] frames[i]).0 == TIME_FIELD_TITLE@
            ==> insertable_at_byte_two(frames[i].1)
}

/// The views of frames given as name and content.
pub open spec fn frames_view(frames: Seq<(String, String)>) -> Seq<(Seq<char>, Seq<char>)> {
    frames.map_values(|f: (String, String)| (f.0@, f.1@))
}

/// The content of a frame as shown.
pub fn frame_content(id: &String, content: &String) -> (shown: String)
    requires
        id@ == TIME_FIELD_TITLE@ ==> insertable_at_byte_two(content@),
    ensures
        shown@ == shown_content(id@, content@),
{
    if *id == String::from_str(TIME_FIELD_TITLE) {
        insert_at_byte_two(content, ':')
    } else {
        content.clone()
    }
}

/// The byte length of the longest frame name; a tag without frames is
/// refused.
pub fn get_longest_tag_id(frame_names: &Vec<String>) -> (result: Result<usize, LocalError>)
    ensures
        match result {
            Ok(n) => frame_names@.len() > 0 && n == longest_id(
                frame_names@.map_values(|s: String| s@),
            ),
            Err(e) => frame_names@.len() == 0 && e == LocalError::ErrorParsingID3TagIDs,
        },
{
    match crate::flac::get_longest_tag(frame_names) {
        Ok(n) => Ok(n),
        Err(_) => Err(LocalError::ErrorParsingID3TagIDs),
    }
}

/// Whether `tags` are the frames, in order, each content as shown and each
/// name padded with spaces to the longest name.
pub open spec fn id3_tags_match(frames: Seq<(Seq<char>, Seq<char>)>, tags: Seq<ID3Tag>) -> bool {
    let names = frames.map_values(|f: (Seq<char>, Seq<char>)| f.0);
    &&& tags.len() == frames.len()
    &&& forall|i: int|
        0 <= i < frames.len() ==> {
            &&& (#[trigger] tags[i]).id@ == frames[i].0
            &&& tags[i].content@ == shown_content(frames[i].0, frames[i].1)
            &&& tags[i].spacer@ == spaces((longest_id(names) - byte_len(frames[i].0)) as nat)
        }
}

/// Lays out the frames of an ID3 tag, given as name and content; a tag
/// without frames is refused.
pub fn get_metadata(frames: Vec<(String, String)>) -> (result: Result<Vec<ID3Tag>, LocalError>)
    requires
        times_insertable(frames_view(frames@)),
    ensures
        match result {
            Ok(tags) => frames@.len() > 0 && id3_tags_match(frames_view(frames@), tags@),
            Err(e) => frames@.len() == 0 && e == LocalError::ErrorParsingID3TagIDs,
        },
{
    let ghost view = frames_view(frames@);
    let ghost names = view.map_values(|f: (Seq<char>, Seq<char>)| f.0);
    let mut frame_names: Vec<String> = Vec::new();
    let mut i: usize = 0;
    while i < frames.len()
        invariant
            i <= frames@.len(),
            frame_names@.len() == i,
            forall|j: int| 0 <= j < i ==> (#[trigger] frame_names@[j])@ == frames@[j].0@,
        decreases frames@.len() - i,
    {
        frame_names.push(frames[i].0.clone());
        i = i + 1;
    }
    assert(frame_names@.map_values(|s: String| s@) =~= names);
    let longest = match get_longest_tag_id(&frame_names) {
        Ok(n) => n,
        Err(e) => return Err(e),
    };
    let mut tags: Vec<ID3Tag> = Vec::new();
    let mut k: usize = 0;
    while k < frames.len()
        invariant
            k <= frames@.len(),
            view == frames_view(frames@),
            names == view.map_values(|f: (Seq<char>, Seq<char>)| f.0),
            times_insertable(view),
            longest == longest_id(names),
            tags@.len() == k,
            forall|j: int|
                0 <= j < k ==> {
                    &&& (#[trigger] tags@[j]).id@ == view[j].0
                    &&& tags@[j].content@ == shown_content(view[j].0, view[j].1)
                    &&& tags@[j].spacer@ == spaces((longest_id(names) - byte_len(view[j].0)) as nat)
                },
        decreases frames@.len() - k,
    {
        let id = frames[k].0.clone();
        assert(view[k as int] == (frames@[k as int].0@, frames@[k as int].1@));
        let content = frame_content(&id, &frames[k].1);
        let id_length = id.as_str().as_bytes().len();
        proof {
            crate::flac::lemma_longest_id_bounds(names, k as int);
        }
        let mut spacer = String::new();
        push_spaces(&mut spacer, longest - id_length);
        tags.push(ID3Tag { id, spacer, content });
        k = k + 1;
    }
    Ok(tags)
}

/// The template of an ID3 tag's report entry.
pub const ID3_TEMPLATE: &'static str = "\n-------------\nID3 Tags:\n-------------{{ id3_tags }}";

/// The line of a frame: its name, its spacer, `: ` and its content.
pub open spec fn id3_line(t: ID3Tag) -> Seq<char> {
    t.id@ + t.spacer@ + ": "@ + t.content@
}

/// The report entry of an ID3 tag given as frame names and contents:
/// `ErrorParsingID3TagIDs` for a tag without frames, else a line for each
/// laid out frame rendered under `Optional`.
pub open spec fn id3_entry_is(frames: Seq<(Seq<char>, Seq<char>)>, result: Result<OutputEntry, LocalError>) -> bool {
    if frames.len() == 0 {
        result == Err::<OutputEntry, LocalError>(LocalError::ErrorParsingID3TagIDs)
    } else {
        exists|tags: Seq<ID3Tag>| #[trigger] id3_tags_match(frames, tags) && entry_of(
            Section::Optional,
            upon_rendered_text(ID3_TEMPLATE@, seq![("id3_tags"@, own_lines(tags.map_values(|t: ID3Tag| id3_line(t))))]),
            result,
        )
    }
}

/// The lines of a list of items, in order.
fn id3_lines(items: &Vec<ID3Tag>) -> (text: String)
    ensures
        text@ == own_lines(items@.map_values(|x: ID3Tag| id3_line(x))),
{
    let mut lines: Vec<String> = Vec::new();
    let mut i: usize = 0;
    while i < items.len()
        invariant
            i <= items@.len(),
            lines_view(lines@) =~= items@.take(i as int).map_values(|x: ID3Tag| id3_line(x)),
        decreases items@.len() - i,
    {
        let ghost before = lines_view(lines@);
        let item = &items[i];
        let mut line = item.id.clone();
        line.append(item.spacer.as_str());
        line.append(": ");
        line.append(item.content.as_str());
        lines.push(line);
        assert(lines_view(lines@) =~= before.push(id3_line(items@[i as int])));
        assert(items@.take(i + 1) =~= items@.take(i as int).push(items@[i as int]));
        i = i + 1;
    }
    assert(items@.take(i as int) =~= items@);
    join_on_own_lines(&lines)
}

/// Lays out the frames of an ID3 tag and renders them as its report entry.
pub fn id3_entry(frames: Vec<(String, String)>) -> (result: Result<OutputEntry, LocalError>)
    requires
        times_insertable(frames_view(frames@)),
    ensures
        id3_entry_is(frames_view(frames@), result),
{
    match get_metadata(frames) {
        Ok(tags) => {
            let values = vec![named("id3_tags", id3_lines(&tags))];
            assert(values_view(values@) =~= seq![("id3_tags"@, own_lines(tags@.map_values(|t: ID3Tag| id3_line(t))))]);
            render_entry(Section::Optional, ID3_TEMPLATE, &values)
        },
        Err(e) => Err(e),
    }
}

} // verus!
