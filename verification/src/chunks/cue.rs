use crate::errors::LocalError;
use crate::wave::cue::{cue_chunk, cue_points_view, CueFields};
use crate::template::{entry_of, into_entry, upon_rendered_text};
use crate::output::{OutputEntry, Section};
use crate::wave::cue::{cue_output_values, CUE_TEMPLATE};
use vstd::prelude::*;

verus! {

/// Decodes a CUE chunk.
pub fn get_metadata(chunk_data: Vec<u8>) -> (result: Result<CueFields, LocalError>)
    ensures
        match cue_chunk(chunk_data@) {
            Ok((n, points)) => result matches Ok(f) && f.number_of_cue_points == n
                && cue_points_view(f.cue_points@) == points,
            Err(e) => result == Err::<CueFields, LocalError>(e),
        },
{
    CueFields::new(chunk_data)
}

/// The report entry of a CUE chunk: the decoding error, or its cue points
/// rendered under `Optional`.
pub open spec fn cue_entry_is(data: Seq<u8>, result: Result<OutputEntry, LocalError>) -> bool {
    match cue_chunk(data) {
        Ok((n, points)) => exists|f: CueFields| #[trigger] cue_points_view(f.cue_points@) == points
            && f.number_of_cue_points == n && entry_of(
            Section::Optional,
            upon_rendered_text(CUE_TEMPLATE@, cue_output_values(f)),
            result,
        ),
        Err(e) => result == Err::<OutputEntry, LocalError>(e),
    }
}

/// Decodes a CUE chunk and renders it as its report entry.
pub fn cue_entry(chunk_data: Vec<u8>) -> (result: Result<OutputEntry, LocalError>)
    ensures
        cue_entry_is(chunk_data@, result),
{
    match get_metadata(chunk_data) {
        Ok(f) => into_entry(Section::Optional, f.format_data_for_output()),
        Err(e) => Err(e),
    }
}

} // verus!
