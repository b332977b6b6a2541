use crate::errors::LocalError;
use crate::strings::{utf8_lossy_string, utf8_lossy_text};
use crate::template::{get_file_chunk_output, named, rendered_as, upon_rendered_text, values_view};
use vstd::prelude::*;

verus! {

/// The contents of a JUNK chunk, as UTF-8 text with invalid sequences
/// replaced.
#[derive(Debug, Clone, PartialEq, Eq, Default)]
pub struct JunkFields {
    pub junk_as_string: String,
}

impl JunkFields {
    /// Decodes a JUNK chunk.
    pub fn new(chunk_data: Vec<u8>) -> (result: Result<Self, LocalError>)
        ensures
            result matches Ok(f) && f.junk_as_string@ == utf8_lossy_text(chunk_data@),
    {
        Ok(JunkFields { junk_as_string: utf8_lossy_string(chunk_data.as_slice()) })
    }
}

/// The template of a JUNK chunk: its text.
pub const JUNK_TEMPLATE: &'static str = "\n-------------\nJunk Chunk Details:\n-------------\n{{ junk }}";

impl JunkFields {
    /// Renders the text; nothing when it is empty.
    pub fn get_metadata_output(&self) -> (result: Result<String, String>)
        ensures
            self.junk_as_string@.len() == 0 ==> (result matches Ok(t) && t@.len() == 0),
            self.junk_as_string@.len() > 0 ==> rendered_as(
                result,
                upon_rendered_text(JUNK_TEMPLATE@, seq![("junk"@, self.junk_as_string@)]),
            ),
    {
        if self.junk_as_string.as_str().unicode_len() == 0 {
            return Ok(String::new());
        }
        let values = vec![named("junk", self.junk_as_string.clone())];
        assert(values_view(values@) =~= seq![("junk"@, self.junk_as_string@)]);
        get_file_chunk_output(JUNK_TEMPLATE, &values)
    }
}

} // verus!
