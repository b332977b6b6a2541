use crate::chunks::resu::{get_metadata, zlib_inflated_text};
use crate::errors::LocalError;
use crate::template::{get_file_chunk_output, named, rendered_as, upon_rendered_text, values_view};
use vstd::prelude::*;

verus! {

/// The contents of a `RESU` chunk of a Wave file: its decompressed JSON text.
#[derive(Debug, Clone, PartialEq, Eq)]
pub struct ResuFields {
    pub resu_json: String,
}

impl ResuFields {
    /// Decompresses a `RESU` chunk.
    pub fn new(chunk_data: Vec<u8>) -> (result: Result<Self, LocalError>)
        ensures
            match zlib_inflated_text(chunk_data@) {
                Ok(text) => result matches Ok(f) && f.resu_json@ == text,
                Err(message) => result matches Err(LocalError::InvalidZipDataFound(m)) && m@
                    == message,
            },
    {
        match get_metadata(chunk_data) {
            Ok(resu_json) => Ok(ResuFields { resu_json }),
            Err(e) => Err(e),
        }
    }
}

/// The template of a `RESU` chunk: its JSON text.
pub const RESU_TEMPLATE: &'static str = "\n-------------\nLogic Pro (ResU) Chunk Details:\n-------------\n{{ resu_json }}";

impl ResuFields {
    /// Renders the JSON text.
    pub fn format_data_for_output(&self) -> (result: Result<String, String>)
        ensures
            rendered_as(result, upon_rendered_text(RESU_TEMPLATE@, seq![("resu_json"@, self.resu_json@)])),
    {
        let values = vec![named("resu_json", self.resu_json.clone())];
        assert(values_view(values@) =~= seq![("resu_json"@, self.resu_json@)]);
        get_file_chunk_output(RESU_TEMPLATE, &values)
    }
}

} // verus!
