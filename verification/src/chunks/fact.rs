use crate::wave::fact::fact_field;
use crate::errors::LocalError;
use crate::wave::fact::FactFields;
use crate::template::{entry_of, into_entry, upon_rendered_text};
use crate::output::{OutputEntry, Section};
use crate::strings::decimal_text;
use crate::wave::fact::FACT_TEMPLATE;
use vstd::prelude::*;

verus! {

/// Decodes a FACT chunk: the number of samples per channel.
pub fn get_metadata(chunk_data: Vec<u8>) -> (result: Result<FactFields, LocalError>)
    ensures
        match fact_field(chunk_data@) {
            Ok((n, _)) => result == Ok::<FactFields, LocalError>(
                FactFields { samples_per_channel: n },
            ),
            Err(e) => result == Err::<FactFields, LocalError>(e),
        },
{
    FactFields::new(chunk_data)
}

/// The report entry of a FACT chunk: the decoding error, or the number of
/// samples per channel rendered under `Mandatory`.
pub open spec fn fact_entry_is(data: Seq<u8>, result: Result<OutputEntry, LocalError>) -> bool {
    match fact_field(data) {
        Ok((n, _)) => entry_of(
            Section::Mandatory,
            upon_rendered_text(FACT_TEMPLATE@, seq![("samples_per_channel"@, decimal_text(n as nat))]),
            result,
        ),
        Err(e) => result == Err::<OutputEntry, LocalError>(e),
    }
}

/// Decodes a FACT chunk and renders it as its report entry.
pub fn fact_entry(chunk_data: Vec<u8>) -> (result: Result<OutputEntry, LocalError>)
    ensures
        fact_entry_is(chunk_data@, result),
{
    match get_metadata(chunk_data) {
        Ok(f) => into_entry(Section::Mandatory, f.get_metadata_output()),
        Err(e) => Err(e),
    }
}

} // verus!
