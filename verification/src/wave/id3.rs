use crate::chunks::id3::{frame_content, frames_view, shown_content, times_insertable};
use crate::template::{get_file_chunk_output, join_on_own_lines, labelled, labelled_string, named, own_lines, rendered_as, upon_rendered_text, values_view};
use crate::strings::lines_view;
use vstd::prelude::*;

verus! {

/// A frame of an ID3 tag: its name and its content as shown.
#[derive(Debug, Clone, PartialEq, Eq)]
pub struct ID3Tag {
    pub id: String,
    pub content: String,
}

/// The frames of the ID3 tag of a Wave file.
#[derive(Debug, Clone, PartialEq, Eq)]
pub struct ID3Fields {
    pub tags: Vec<ID3Tag>,
}

impl ID3Fields {
    /// Keeps the frames of a tag, given as name and content, in order; a time
    /// gets a `:` after its hours.
    pub fn new(frames: Vec<(String, String)>) -> (fields: Self)
        requires
            times_insertable(frames_view(frames@)),
        ensures
            fields.tags@.len() == frames@.len(),
            forall|i: int|
                0 <= i < frames@.len() ==> {
                    &&& (#[trigger] fields.tags@[i]).id@ == frames@[i].0@
                    &&& fields.tags@[i].content@ == shown_content(frames@[i].0@, frames@[i].1@)
                },
    {
        let mut tags: Vec<ID3Tag> = Vec::new();
        let mut k: usize = 0;
        while k < frames.len()
            invariant
                k <= frames@.len(),
                times_insertable(frames_view(frames@)),
                tags@.len() == k,
                forall|j: int|
                    0 <= j < k ==> {
                        &&& (#[trigger] tags@[j]).id@ == frames@[j].0@
                        &&& tags@[j].content@ == shown_content(frames@[j].0@, frames@[j].1@)
                    },
            decreases frames@.len() - k,
        {
            let id = frames[k].0.clone();
            assert(frames_view(frames@)[k as int] == (frames@[k as int].0@, frames@[k as int].1@));
            let content = frame_content(&id, &frames[k].1);
            tags.push(ID3Tag { id, content });
            k = k + 1;
        }
        ID3Fields { tags }
    }
}

/// The template of the ID3 tag of a Wave file: a line for each frame.
pub const ID3_TEMPLATE: &'static str = "\n-------------\nID3 Tags:\n-------------{{ id3_tags }}";

/// The line of a frame: `name: content`.
pub open spec fn id3_tag_text(t: ID3Tag) -> Seq<char> {
    labelled(t.id@, t.content@)
}

impl ID3Fields {
    /// Renders a line for each frame, in order.
    pub fn format_data_for_output(&self) -> (result: Result<String, String>)
        ensures
            rendered_as(
                result,
                upon_rendered_text(
                    ID3_TEMPLATE@,
                    seq![("id3_tags"@, own_lines(self.tags@.map_values(|t: ID3Tag| id3_tag_text(t))))],
                ),
            ),
    {
        let mut lines: Vec<String> = Vec::new();
        let mut i: usize = 0;
        while i < self.tags.len()
            invariant
                i <= self.tags@.len(),
                lines_view(lines@) =~= self.tags@.take(i as int).map_values(|t: ID3Tag| id3_tag_text(t)),
            decreases self.tags@.len() - i,
        {
            let ghost before = lines_view(lines@);
            let line = labelled_string(self.tags[i].id.as_str(), self.tags[i].content.as_str());
            lines.push(line);
            assert(lines_view(lines@) =~= before.push(id3_tag_text(self.tags@[i as int])));
            assert(self.tags@.take(i + 1) =~= self.tags@.take(i as int).push(self.tags@[i as int]));
            i = i + 1;
        }
        assert(self.tags@.take(i as int) =~= self.tags@);
        let values = vec![named("id3_tags", join_on_own_lines(&lines))];
        assert(values_view(values@) =~= seq![
            ("id3_tags"@, own_lines(self.tags@.map_values(|t: ID3Tag| id3_tag_text(t)))),
        ]);
        get_file_chunk_output(ID3_TEMPLATE, &values)
    }
}

} // verus!
