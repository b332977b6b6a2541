use crate::strings::{utf8_lossy_string, utf8_lossy_text};
use crate::template::{get_file_chunk_output, named, rendered_as, upon_rendered_text, values_view};
use crate::template::{join_on_own_lines, labelled, labelled_string, own_lines};
use crate::strings::lines_view;
use vstd::prelude::*;

verus! {

/// A chunk of a kind without a decoder of its own: its ID and its bytes read
/// as UTF-8, invalid sequences replaced.
#[derive(Debug, Clone, PartialEq, Eq)]
pub struct Chunk {
    pub id: String,
    pub data: String,
}

/// The chunks of a Wave file without a decoder of their own, in the order
/// found.
#[derive(Debug, Clone, PartialEq, Eq)]
pub struct ExtraChunks {
    pub chunks: Vec<Chunk>,
}

impl ExtraChunks {
    /// No chunks.
    pub fn new() -> (chunks: Self)
        ensures
            chunks.chunks@.len() == 0,
    {
        ExtraChunks { chunks: Vec::new() }
    }

    /// Adds a chunk with its bytes as text.
    pub fn add_chunk(&mut self, chunk_id: String, chunk_data: Vec<u8>)
        ensures
            final(self).chunks@.len() == old(self).chunks@.len() + 1,
            forall|i: int|
                0 <= i < old(self).chunks@.len() ==> #[trigger] final(self).chunks@[i] == old(
                    self,
                ).chunks@[i],
            final(self).chunks@.last().id@ == chunk_id@,
            final(self).chunks@.last().data@ == utf8_lossy_text(chunk_data@),
            vstd::utf8::valid_utf8(chunk_data@) ==> final(self).chunks@.last().data@
                == vstd::utf8::decode_utf8(chunk_data@),
    {
        let data = utf8_lossy_string(chunk_data.as_slice());
        self.chunks.push(Chunk { id: chunk_id, data });
    }
}

/// The template of the chunks without a decoder: a line for each.
pub const EXTRA_TEMPLATE: &'static str = "\n-------------\nExtra Chunks:\n-------------{{ extra_chunks }}";

/// The line of a chunk: `ID: text`.
pub open spec fn extra_line(c: Chunk) -> Seq<char> {
    labelled(c.id@, c.data@)
}

impl ExtraChunks {
    /// Renders a line for each chunk, in order; nothing when there are none.
    pub fn get_metadata_outputs(&self) -> (result: Result<String, String>)
        ensures
            self.chunks@.len() == 0 ==> (result matches Ok(t) && t@.len() == 0),
            self.chunks@.len() > 0 ==> rendered_as(
                result,
                upon_rendered_text(
                    EXTRA_TEMPLATE@,
                    seq![("extra_chunks"@, own_lines(self.chunks@.map_values(|c: Chunk| extra_line(c))))],
                ),
            ),
    {
        if self.chunks.len() == 0 {
            return Ok(String::new());
        }
        let mut lines: Vec<String> = Vec::new();
        let mut i: usize = 0;
        while i < self.chunks.len()
            invariant
                i <= self.chunks@.len(),
                lines_view(lines@) =~= self.chunks@.take(i as int).map_values(|c: Chunk| extra_line(c)),
            decreases self.chunks@.len() - i,
        {
            let ghost before = lines_view(lines@);
            let line = labelled_string(self.chunks[i].id.as_str(), self.chunks[i].data.as_str());
            lines.push(line);
            assert(lines_view(lines@) =~= before.push(extra_line(self.chunks@[i as int])));
            assert(self.chunks@.take(i + 1) =~= self.chunks@.take(i as int).push(self.chunks@[i as int]));
            i = i + 1;
        }
        assert(self.chunks@.take(i as int) =~= self.chunks@);
        let values = vec![named("extra_chunks", join_on_own_lines(&lines))];
        assert(values_view(values@) =~= seq![
            ("extra_chunks"@, own_lines(self.chunks@.map_values(|c: Chunk| extra_line(c)))),
        ]);
        get_file_chunk_output(EXTRA_TEMPLATE, &values)
    }
}

} // verus!
