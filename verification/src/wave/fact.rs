use crate::byte_arrays::{le32, take_first_four_bytes_as_unsigned_integer, u32_field, Endian};
use crate::errors::LocalError;
use crate::template::{get_file_chunk_output, named, rendered_as, upon_rendered_text, values_view};
use crate::strings::{decimal_string, decimal_text};
use vstd::prelude::*;

verus! {

/// The field of a FACT chunk: the number of samples per channel, four
/// bytes, least significant first.
pub open spec fn fact_field(s: Seq<u8>) -> Result<(u32, Seq<u8>), LocalError> {
    u32_field(s, Endian::Little)
}

/// A FACT chunk's number of samples per channel is its first four bytes,
/// least significant first.
pub proof fn fact_samples_are_little_endian(s: Seq<u8>)
    requires
        fact_field(s) is Ok,
    ensures
        s.len() >= 4,
        fact_field(s)->Ok_0.0 == le32(s, 0),
{
    assert(s.take(4) =~= s.subrange(0, 4));
}

/// The contents of a FACT chunk.
#[derive(Debug, Clone, Copy, PartialEq, Eq, Default)]
pub struct FactFields {
    pub samples_per_channel: u32,
}

impl FactFields {
    /// Decodes a FACT chunk: the number of samples per channel,
    /// little-endian.
    pub fn new(chunk_data: Vec<u8>) -> (result: Result<Self, LocalError>)
        ensures
            match fact_field(chunk_data@) {
                Ok((n, _)) => result == Ok::<FactFields, LocalError>(
                    FactFields { samples_per_channel: n },
                ),
                Err(e) => result == Err::<FactFields, LocalError>(e),
            },
    {
        let mut data = chunk_data;
        match take_first_four_bytes_as_unsigned_integer(&mut data, Endian::Little) {
            Ok(n) => Ok(FactFields { samples_per_channel: n }),
            Err(e) => Err(e),
        }
    }
}

/// The template of a FACT chunk: the number of samples per channel.
pub const FACT_TEMPLATE: &'static str = "\n-------------\nFact Chunk Details:\n-------------\nSamples per Channel: {{ samples_per_channel }}";

impl FactFields {
    /// Renders the number of samples per channel.
    pub fn get_metadata_output(&self) -> (result: Result<String, String>)
        ensures
            rendered_as(
                result,
                upon_rendered_text(
                    FACT_TEMPLATE@,
                    seq![("samples_per_channel"@, decimal_text(self.samples_per_channel as nat))],
                ),
            ),
    {
        let values = vec![named("samples_per_channel", decimal_string(self.samples_per_channel as u64))];
        assert(values_view(values@) =~= seq![
            ("samples_per_channel"@, decimal_text(self.samples_per_channel as nat)),
        ]);
        get_file_chunk_output(FACT_TEMPLATE, &values)
    }
}

} // verus!
