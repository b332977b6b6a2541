use crate::errors::LocalError;
use crate::shared::extra::{chunk_view, extra_chunk_string, extra_chunk_text, Chunk};
use crate::template::{entry_of, named, render_entry, upon_rendered_text, values_view};
use crate::output::{OutputEntry, Section};
use vstd::prelude::*;

verus! {

/// A chunk of a kind without a decoder of its own: its ID and its text, or
/// the empty data message when it has none.
pub fn get_metadata(chunk_id: String, chunk_data: Vec<u8>) -> (result: Result<Chunk, LocalError>)
    ensures
        result matches Ok(c) && chunk_view(c) == (chunk_id@, extra_chunk_text(chunk_data@)),
{
    let data = extra_chunk_string(&chunk_data);
    Ok(Chunk { id: chunk_id, data })
}

/// The template of the entry of a chunk without a decoder of its own.
pub const EXTRA_TEMPLATE: &'static str = "\n-------------\n{{ chunk_id }} Chunk:\n-------------\n{{ chunk_data }}";

/// The report entry of a chunk without a decoder of its own: its ID and
/// text rendered under `Unsupported`.
pub open spec fn extra_entry_is(id: Seq<char>, data: Seq<u8>, result: Result<OutputEntry, LocalError>) -> bool {
    entry_of(
        Section::Unsupported,
        upon_rendered_text(EXTRA_TEMPLATE@, seq![("chunk_id"@, id), ("chunk_data"@, extra_chunk_text(data))]),
        result,
    )
}

/// Renders a chunk without a decoder of its own as its report entry.
pub fn extra_entry(chunk_id: String, chunk_data: Vec<u8>) -> (result: Result<OutputEntry, LocalError>)
    ensures
        extra_entry_is(chunk_id@, chunk_data@, result),
{
    let ghost id = chunk_id@;
    let ghost data = chunk_data@;
    match get_metadata(chunk_id, chunk_data) {
        Ok(c) => {
            let values = vec![named("chunk_id", c.id), named("chunk_data", c.data)];
            assert(values_view(values@) =~= seq![("chunk_id"@, id), ("chunk_data"@, extra_chunk_text(data))]);
            render_entry(Section::Unsupported, EXTRA_TEMPLATE, &values)
        },
        Err(e) => Err(e),
    }
}

} // verus!
