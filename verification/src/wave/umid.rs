use crate::errors::LocalError;
use crate::template::{get_file_chunk_output, named, rendered_as, upon_rendered_text, values_view};
use crate::formating::{format_bytes_as_string_of_bytes, hex_bytes_text};
use vstd::prelude::*;

verus! {

/// The contents of a Pro Tools UMID chunk: its raw bytes.
#[derive(Debug, Clone, PartialEq, Eq, Default)]
pub struct UMIDFields {
    pub umid_bytes: Vec<u8>,
}

impl UMIDFields {
    /// Keeps all the bytes of a UMID chunk.
    pub fn new(chunk_data: Vec<u8>) -> (result: Result<Self, LocalError>)
        ensures
            result matches Ok(f) && f.umid_bytes@ == chunk_data@,
    {
        Ok(UMIDFields { umid_bytes: chunk_data })
    }
}

/// The template of a UMID chunk: its bytes in hexadecimal.
pub const UMID_TEMPLATE: &'static str = "\n-------------\nUMID Chunk Details:\n-------------\nUMID: {{ umid }}";

impl UMIDFields {
    /// Renders the bytes in hexadecimal, e.g. `06 0a 2b`.
    pub fn format_data_for_output(&self) -> (result: Result<String, String>)
        ensures
            rendered_as(
                result,
                upon_rendered_text(UMID_TEMPLATE@, seq![("umid"@, hex_bytes_text(self.umid_bytes@))]),
            ),
    {
        let values = vec![named("umid", format_bytes_as_string_of_bytes(self.umid_bytes.as_slice()))];
        assert(values_view(values@) =~= seq![("umid"@, hex_bytes_text(self.umid_bytes@))]);
        get_file_chunk_output(UMID_TEMPLATE, &values)
    }
}

} // verus!
