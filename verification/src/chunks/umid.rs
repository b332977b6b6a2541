use crate::errors::LocalError;
use crate::formating::{format_bytes_as_string_of_bytes, hex_bytes_text};
use crate::template::{entry_of, named, render_entry, upon_rendered_text, values_view};
use crate::output::{OutputEntry, Section};
use vstd::prelude::*;

verus! {

/// Decodes a Pro Tools UMID chunk: all its bytes as hexadecimal text.
pub fn get_metadata(chunk_data: Vec<u8>) -> (result: Result<String, LocalError>)
    ensures
        result matches Ok(text) && text@ == hex_bytes_text(chunk_data@),
{
    Ok(format_bytes_as_string_of_bytes(chunk_data.as_slice()))
}

/// The template of a UMID chunk's report entry.
pub const UMID_TEMPLATE: &'static str = "\n-------------\nUMID Chunk Details:\n-------------\nUMID: {{ umid }}";

/// The report entry of a UMID chunk: its bytes in hexadecimal rendered
/// under `Optional`.
pub open spec fn umid_entry_is(data: Seq<u8>, result: Result<OutputEntry, LocalError>) -> bool {
    entry_of(Section::Optional, upon_rendered_text(UMID_TEMPLATE@, seq![("umid"@, hex_bytes_text(data))]), result)
}

/// Renders a UMID chunk as its report entry.
pub fn umid_entry(chunk_data: Vec<u8>) -> (result: Result<OutputEntry, LocalError>)
    ensures
        umid_entry_is(chunk_data@, result),
{
    let ghost data = chunk_data@;
    match get_metadata(chunk_data) {
        Ok(text) => {
            let values = vec![named("umid", text)];
            assert(values_view(values@) =~= seq![("umid"@, hex_bytes_text(data))]);
            render_entry(Section::Optional, UMID_TEMPLATE, &values)
        },
        Err(e) => Err(e),
    }
}

} // verus!
