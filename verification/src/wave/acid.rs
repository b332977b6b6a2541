use crate::chunks::acid::{acid_fields, acid_metadata_matches, get_file_type_from_file_type_integer};
pub use crate::chunks::acid::{
    check_bit_mask_position, file_type_of, AcidMetadata, FileType, DISK_BASED_BIT_POSITION,
};
use crate::errors::LocalError;
use crate::strings::{decimal_string, decimal_text};
use crate::template::{get_file_chunk_output, named, rendered_as, upon_rendered_text, values_view};
use vstd::prelude::*;

verus! {

/// The flags of an ACID file type field.
pub fn get_file_type_from_bytes(file_type: u32) -> (flags: FileType)
    ensures
        flags == file_type_of(file_type),
{
    get_file_type_from_file_type_integer(file_type)
}

/// The contents of an ACID chunk of a Wave file.
#[derive(Debug, Clone, PartialEq)]
pub struct AcidFields {
    pub metadata: AcidMetadata,
}

/// The template of an ACID chunk's details.
pub const ACID_TEMPLATE: &'static str = "\n-------------\nACID Chunk Details:\n-------------\nFile Type: {{ loop_on }}\nRoot Note: {{ root_note_set }}\nStretch: {{ stretch }}\nStorage: {{ disk_based }}\nAcidizer: {{ acidizer }}\nRoot Note Name: {{ root_note }}\nMystery One: {{ mystery_one }}\nMystery Two: {{ mystery_two }}\nNumber of Beats: {{ number_of_beats }}\nMeter: {{ meter_numerator }}/{{ meter_denominator }}\nTempo: {{ tempo }}";

/// The values an ACID chunk's details are rendered from; the two floating
/// point fields come as the texts they are written as.
pub open spec fn acid_output_values(
    m: AcidMetadata,
    mystery_two: Seq<char>,
    tempo: Seq<char>,
) -> Seq<(Seq<char>, Seq<char>)> {
    seq![
        ("loop_on"@, m.loop_on@),
        ("root_note_set"@, m.root_note_set@),
        ("stretch"@, m.stretch@),
        ("disk_based"@, m.disk_based@),
        ("acidizer"@, m.acidizer@),
        ("root_note"@, m.root_note@),
        ("mystery_one"@, decimal_text(m.mystery_one as nat)),
        ("mystery_two"@, mystery_two),
        ("number_of_beats"@, decimal_text(m.number_of_beats as nat)),
        ("meter_denominator"@, decimal_text(m.meter_denominator as nat)),
        ("meter_numerator"@, decimal_text(m.meter_numerator as nat)),
        ("tempo"@, tempo),
    ]
}

impl AcidFields {
    /// Renders the chunk's details. The second mystery value and the tempo
    /// are floating point numbers, handed in as the texts they are written as.
    pub fn format_data_for_output(&self, mystery_two: &str, tempo: &str) -> (result: Result<String, String>)
        ensures
            rendered_as(
                result,
                upon_rendered_text(
                    ACID_TEMPLATE@,
                    acid_output_values(self.metadata, mystery_two@, tempo@),
                ),
            ),
    {
        let m = &self.metadata;
        let values = vec![
            named("loop_on", m.loop_on.clone()),
            named("root_note_set", m.root_note_set.clone()),
            named("stretch", m.stretch.clone()),
            named("disk_based", m.disk_based.clone()),
            named("acidizer", m.acidizer.clone()),
            named("root_note", m.root_note.clone()),
            named("mystery_one", decimal_string(m.mystery_one as u64)),
            named("mystery_two", String::from_str(mystery_two)),
            named("number_of_beats", decimal_string(m.number_of_beats as u64)),
            named("meter_denominator", decimal_string(m.meter_denominator as u64)),
            named("meter_numerator", decimal_string(m.meter_numerator as u64)),
            named("tempo", String::from_str(tempo)),
        ];
        assert(values_view(values@) =~= acid_output_values(self.metadata, mystery_two@, tempo@));
        get_file_chunk_output(ACID_TEMPLATE, &values)
    }

    /// Decodes an ACID chunk.
    pub fn new(chunk_data: Vec<u8>) -> (result: Result<Self, LocalError>)
        ensures
            match acid_fields(chunk_data@) {
                Ok(f) => result matches Ok(fields) && acid_metadata_matches(fields.metadata, f),
                Err(e) => result == Err::<AcidFields, LocalError>(e),
            },
    {
        match crate::chunks::acid::get_metadata(chunk_data) {
            Ok(metadata) => Ok(AcidFields { metadata }),
            Err(e) => Err(e),
        }
    }
}

} // verus!
