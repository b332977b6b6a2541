use crate::byte_arrays::{printable_string, printable_text};
use crate::errors::LocalError;
use crate::template::{get_file_chunk_output, join_on_own_lines, labelled, labelled_string, named, own_lines, rendered_as, upon_rendered_text, values_view};
use crate::strings::lines_view;
use vstd::prelude::*;

verus! {

/// Text shown for a chunk that holds no text.
pub const EMPTY_DATA_MESSAGE: &'static str = "[The chunk exists but is empty]";

/// A chunk of a kind without a decoder of its own: its ID and its text.
#[derive(Debug, Clone, PartialEq, Eq, Default)]
pub struct Chunk {
    pub id: String,
    pub data: String,
}

/// The chunks without a decoder of their own, in the order found.
#[derive(Debug, Clone, PartialEq, Eq, Default)]
pub struct ExtraChunks {
    pub chunks: Vec<Chunk>,
}

/// The text shown for a chunk's bytes: their text, or the empty data
/// message when that is empty.
pub open spec fn extra_chunk_text(data: Seq<u8>) -> Seq<char> {
    if printable_text(data).len() == 0 {
        EMPTY_DATA_MESSAGE@
    } else {
        printable_text(data)
    }
}

/// The view of a chunk: its ID and text.
pub open spec fn chunk_view(c: Chunk) -> (Seq<char>, Seq<char>) {
    (c.id@, c.data@)
}

/// The text of a chunk's bytes, or the empty data message.
pub fn extra_chunk_string(chunk_data: &Vec<u8>) -> (text: String)
    ensures
        text@ == extra_chunk_text(chunk_data@),
{
    let text = printable_string(chunk_data);
    if text.as_str().unicode_len() == 0 {
        String::from_str(EMPTY_DATA_MESSAGE)
    } else {
        text
    }
}

impl ExtraChunks {
    /// No chunks.
    pub fn new() -> (chunks: Self)
        ensures
            chunks.chunks@.len() == 0,
    {
        ExtraChunks { chunks: Vec::new() }
    }

    /// Adds a chunk with its text (or the empty data message).
    pub fn add_chunk(&mut self, chunk_id: &str, chunk_data: Vec<u8>) -> (result: Result<(), LocalError>)
        ensures
            result is Ok,
            final(self).chunks@.len() == old(self).chunks@.len() + 1,
            forall|i: int|
                0 <= i < old(self).chunks@.len() ==> #[trigger] final(self).chunks@[i] == old(
                    self,
                ).chunks@[i],
            chunk_view(final(self).chunks@.last()) == (chunk_id@, extra_chunk_text(chunk_data@)),
    {
        let data = extra_chunk_string(&chunk_data);
        self.chunks.push(Chunk { id: String::from_str(chunk_id), data });
        Ok(())
    }
}

/// The template of the chunks without a decoder: a line for each.
pub const EXTRA_TEMPLATE: &'static str = "\n-------------\nExtra Chunks:\n-------------{{ extra_chunks }}";

/// The line of an extra chunk: `ID: text`.
pub open spec fn extra_chunk_line(c: Chunk) -> Seq<char> {
    labelled(c.id@, c.data@)
}

/// What the chunks without a decoder are rendered as: nothing when there
/// are none, else a line for each.
pub open spec fn extra_chunks_output(chunks: Seq<Chunk>) -> Result<Seq<char>, Seq<char>> {
    if chunks.len() == 0 {
        Ok(Seq::empty())
    } else {
        upon_rendered_text(
            EXTRA_TEMPLATE@,
            seq![("extra_chunks"@, own_lines(chunks.map_values(|c: Chunk| extra_chunk_line(c))))],
        )
    }
}

impl ExtraChunks {
    /// Renders a line for each chunk, in order; nothing when there are none.
    pub fn format_data_for_output(&self) -> (result: Result<String, String>)
        ensures
            rendered_as(result, extra_chunks_output(self.chunks@)),
    {
        if self.chunks.len() == 0 {
            return Ok(String::new());
        }
        let mut lines: Vec<String> = Vec::new();
        let mut i: usize = 0;
        while i < self.chunks.len()
            invariant
                i <= self.chunks@.len(),
                lines_view(lines@) =~= self.chunks@.take(i as int).map_values(|c: Chunk| extra_chunk_line(c)),
            decreases self.chunks@.len() - i,
        {
            let ghost before = lines_view(lines@);
            let line = labelled_string(self.chunks[i].id.as_str(), self.chunks[i].data.as_str());
            lines.push(line);
            assert(lines_view(lines@) =~= before.push(extra_chunk_line(self.chunks@[i as int])));
            assert(self.chunks@.take(i + 1) =~= self.chunks@.take(i as int).push(self.chunks@[i as int]));
            i = i + 1;
        }
        assert(self.chunks@.take(i as int) =~= self.chunks@);
        let values = vec![named("extra_chunks", join_on_own_lines(&lines))];
        assert(values_view(values@) =~= seq![
            ("extra_chunks"@, own_lines(self.chunks@.map_values(|c: Chunk| extra_chunk_line(c)))),
        ]);
        get_file_chunk_output(EXTRA_TEMPLATE, &values)
    }
}

} // verus!
