use crate::byte_arrays::{
    take_first_four_bytes_as_float_bits, take_first_four_bytes_as_unsigned_integer,
    take_first_two_bytes_as_unsigned_integer, u16_field, u32_field, Endian,
};
use crate::errors::LocalError;
use crate::formating::{format_midi_note_number_as_note_name, note_name_text};
use crate::template::{entry_of, into_entry, upon_rendered_text};
use crate::output::{OutputEntry, Section};
use crate::wave::acid::{acid_output_values, AcidFields, ACID_TEMPLATE};
use crate::byte_arrays::{le16, le32};
use vstd::prelude::*;

verus! {

pub const ONE_SHOT_FILE_TYPE_MESSAGE: &'static str = "OneShot";
pub const LOOP_FILE_TYPE_MESSAGE: &'static str = "Loop";
pub const ROOT_NOTE_SET_FILE_TYPE_MESSAGE: &'static str = "Root Note Set";
pub const ROOT_NOTE_NOT_SET_FILE_TYPE_MESSAGE: &'static str = "Root Note Not Set";
pub const STRETCH_ON_FILE_TYPE_MESSAGE: &'static str = "Stretch is On";
pub const STRETCH_OFF_FILE_TYPE_MESSAGE: &'static str = "Stretch is Off";
pub const DISK_FILE_TYPE_MESSAGE: &'static str = "Disk Based";
pub const RAM_FILE_TYPE_MESSAGE: &'static str = "Ram Based";
pub const ACIDIZER_ON_FILE_TYPE_MESSAGE: &'static str = "Acidizer is On";
pub const ACIDIZER_OFF_FILE_TYPE_MESSAGE: &'static str = "Acidizer is Off";

pub const FILE_TYPE_BIT_POSITION: u8 = 0;
pub const ROOT_NOTE_BIT_POSITION: u8 = 1;
pub const STRETCH_BIT_POSITION: u8 = 2;
pub const DISK_BASED_BIT_POSITION: u8 = 3;
pub const ACIDIZER_BIT_POSITION: u8 = 4;

/// The flags of an ACID file type field.
#[derive(Debug, Clone, Copy, PartialEq, Eq, Default, Structural)]
pub struct FileType {
    pub one_shot: bool,
    pub root_note: bool,
    pub stretch: bool,
    pub disk_based: bool,
    pub acidizer: bool,
}

/// Whether bit `position` (0 is the least significant) of a mask is set.
pub open spec fn bit_is_set(bit_mask: u32, position: u8) -> bool {
    (bit_mask as nat / pow2(position as nat)) % 2 == 1
}

/// 2 to the power `n`.
pub open spec fn pow2(n: nat) -> nat
    decreases n,
{
    if n == 0 {
        1
    } else {
        2 * pow2((n - 1) as nat)
    }
}

/// Whether bit `position` of the mask is set.
pub fn check_bit_mask_position(bit_mask: u32, position: u8) -> (set: bool)
    requires
        position < 32,
    ensures
        set == bit_is_set(bit_mask, position),
{
    let shift = position as u32;
    let set = (bit_mask & (1u32 << shift)) > 0;
    proof {
        lemma_bit_and_shift(bit_mask, shift);
    }
    set
}

proof fn lemma_bit_and_shift(bit_mask: u32, shift: u32)
    requires
        shift < 32,
    ensures
        ((bit_mask & (1u32 << shift)) > 0) == ((bit_mask as nat / pow2(shift as nat)) % 2 == 1),
{
    lemma_pow2_shift(shift);
    assert(((bit_mask & (1u32 << shift)) > 0) == (((bit_mask >> shift) & 1u32) == 1u32))
        by (bit_vector)
        requires
            shift < 32,
    ;
    assert((bit_mask >> shift) == bit_mask / (1u32 << shift)) by (bit_vector)
        requires
            shift < 32,
    ;
    assert(((bit_mask >> shift) & 1u32) == (bit_mask >> shift) % 2) by (bit_vector);
}

proof fn lemma_pow2_shift(shift: u32)
    requires
        shift < 32,
    ensures
        (1u32 << shift) == pow2(shift as nat),
    decreases shift,
{
    if shift == 0 {
        assert((1u32 << 0u32) == 1u32) by (bit_vector);
    } else {
        lemma_pow2_shift((shift - 1) as u32);
        let prev = (shift - 1) as u32;
        assert((1u32 << shift) == 2 * (1u32 << prev)) by (bit_vector)
            requires
                0 < shift < 32,
                prev == shift - 1,
        ;
    }
}

/// The flags held by the low five bits of an ACID file type field.
pub open spec fn file_type_of(file_type: u32) -> FileType {
    FileType {
        one_shot: bit_is_set(file_type, FILE_TYPE_BIT_POSITION),
        root_note: bit_is_set(file_type, ROOT_NOTE_BIT_POSITION),
        stretch: bit_is_set(file_type, STRETCH_BIT_POSITION),
        disk_based: bit_is_set(file_type, DISK_BASED_BIT_POSITION),
        acidizer: bit_is_set(file_type, ACIDIZER_BIT_POSITION),
    }
}

/// Decodes the flags of an ACID file type field.
pub fn get_file_type_from_file_type_integer(file_type: u32) -> (flags: FileType)
    ensures
        flags == file_type_of(file_type),
{
    FileType {
        one_shot: check_bit_mask_position(file_type, FILE_TYPE_BIT_POSITION),
        root_note: check_bit_mask_position(file_type, ROOT_NOTE_BIT_POSITION),
        stretch: check_bit_mask_position(file_type, STRETCH_BIT_POSITION),
        disk_based: check_bit_mask_position(file_type, DISK_BASED_BIT_POSITION),
        acidizer: check_bit_mask_position(file_type, ACIDIZER_BIT_POSITION),
    }
}

/// The fields of an ACID chunk as stored: file type flags, root note,
/// an unknown 16-bit field, an unknown 32-bit float (as its bits), number
/// of beats, meter denominator and numerator, tempo (a 32-bit float, as its
/// bits); all little-endian.
pub open spec fn acid_fields(s: Seq<u8>) -> Result<
    (u32, u16, u16, u32, u32, u16, u16, u32),
    LocalError,
> {
    match u32_field(s, Endian::Little) {
        Err(e) => Err(e),
        Ok((file_type, s)) => match u16_field(s, Endian::Little) {
            Err(e) => Err(e),
            Ok((root_note, s)) => match u16_field(s, Endian::Little) {
                Err(e) => Err(e),
                Ok((mystery_one, s)) => match u32_field(s, Endian::Little) {
                    Err(e) => Err(e),
                    Ok((mystery_two, s)) => match u32_field(s, Endian::Little) {
                        Err(e) => Err(e),
                        Ok((number_of_beats, s)) => match u16_field(s, Endian::Little) {
                            Err(e) => Err(e),
                            Ok((meter_denominator, s)) => match u16_field(s, Endian::Little) {
                                Err(e) => Err(e),
                                Ok((meter_numerator, s)) => match u32_field(s, Endian::Little) {
                                    Err(e) => Err(e),
                                    Ok((tempo, _)) => Ok(
                                        (
                                            file_type,
                                            root_note,
                                            mystery_one,
                                            mystery_two,
                                            number_of_beats,
                                            meter_denominator,
                                            meter_numerator,
                                            tempo,
                                        ),
                                    ),
                                },
                            },
                        },
                    },
                },
            },
        },
    }
}

/// The decoded contents of an ACID chunk. The two floating point fields
/// are kept as their IEEE-754 bit patterns.
#[derive(Debug, Clone, PartialEq)]
pub struct AcidMetadata {
    pub file_type: FileType,
    pub loop_on: String,
    pub root_note_set: String,
    pub stretch: String,
    pub disk_based: String,
    pub acidizer: String,
    pub root_note: String,
    pub mystery_one: u16,
    pub mystery_two_bits: u32,
    pub number_of_beats: u32,
    pub meter_denominator: u16,
    pub meter_numerator: u16,
    pub tempo_bits: u32,
}

/// One of two messages, by a flag.
pub open spec fn flag_text(flag: bool, on: &str, off: &str) -> Seq<char> {
    if flag {
        on@
    } else {
        off@
    }
}

/// Whether the metadata shows the fields, with the messages of its flags.
pub open spec fn acid_metadata_matches(
    m: AcidMetadata,
    f: (u32, u16, u16, u32, u32, u16, u16, u32),
) -> bool {
    &&& m.file_type == file_type_of(f.0)
    &&& m.loop_on@ == flag_text(
        m.file_type.one_shot,
        ONE_SHOT_FILE_TYPE_MESSAGE,
        LOOP_FILE_TYPE_MESSAGE,
    )
    &&& m.root_note_set@ == flag_text(
        m.file_type.root_note,
        ROOT_NOTE_SET_FILE_TYPE_MESSAGE,
        ROOT_NOTE_NOT_SET_FILE_TYPE_MESSAGE,
    )
    &&& m.stretch@ == flag_text(
        m.file_type.stretch,
        STRETCH_ON_FILE_TYPE_MESSAGE,
        STRETCH_OFF_FILE_TYPE_MESSAGE,
    )
    &&& m.disk_based@ == flag_text(
        m.file_type.disk_based,
        DISK_FILE_TYPE_MESSAGE,
        RAM_FILE_TYPE_MESSAGE,
    )
    &&& m.acidizer@ == flag_text(
        m.file_type.acidizer,
        ACIDIZER_ON_FILE_TYPE_MESSAGE,
        ACIDIZER_OFF_FILE_TYPE_MESSAGE,
    )
    &&& m.root_note@ == note_name_text(f.1 as nat)
    &&& m.mystery_one == f.2
    &&& m.mystery_two_bits == f.3
    &&& m.number_of_beats == f.4
    &&& m.meter_denominator == f.5
    &&& m.meter_numerator == f.6
    &&& m.tempo_bits == f.7
}

/// The message for a flag.
fn flag_string(flag: bool, on: &str, off: &str) -> (text: String)
    ensures
        text@ == flag_text(flag, on, off),
{
    if flag {
        String::from_str(on)
    } else {
        String::from_str(off)
    }
}

/// Decodes an ACID chunk.
pub fn get_metadata(chunk_data: Vec<u8>) -> (result: Result<AcidMetadata, LocalError>)
    ensures
        match acid_fields(chunk_data@) {
            Ok(f) => result matches Ok(m) && acid_metadata_matches(m, f),
            Err(e) => result == Err::<AcidMetadata, LocalError>(e),
        },
{
    let mut chunk_data = chunk_data;
    let raw_file_type = match take_first_four_bytes_as_unsigned_integer(
        &mut chunk_data,
        Endian::Little,
    ) {
        Ok(v) => v,
        Err(e) => return Err(e),
    };
    let file_type = get_file_type_from_file_type_integer(raw_file_type);
    let raw_root_note = match take_first_two_bytes_as_unsigned_integer(
        &mut chunk_data,
        Endian::Little,
    ) {
        Ok(v) => v,
        Err(e) => return Err(e),
    };
    let mystery_one = match take_first_two_bytes_as_unsigned_integer(
        &mut chunk_data,
        Endian::Little,
    ) {
        Ok(v) => v,
        Err(e) => return Err(e),
    };
    let mystery_two_bits = match take_first_four_bytes_as_float_bits(&mut chunk_data) {
        Ok(v) => v,
        Err(e) => return Err(e),
    };
    let number_of_beats = match take_first_four_bytes_as_unsigned_integer(
        &mut chunk_data,
        Endian::Little,
    ) {
        Ok(v) => v,
        Err(e) => return Err(e),
    };
    let meter_denominator = match take_first_two_bytes_as_unsigned_integer(
        &mut chunk_data,
        Endian::Little,
    ) {
        Ok(v) => v,
        Err(e) => return Err(e),
    };
    let meter_numerator = match take_first_two_bytes_as_unsigned_integer(
        &mut chunk_data,
        Endian::Little,
    ) {
        Ok(v) => v,
        Err(e) => return Err(e),
    };
    let tempo_bits = match take_first_four_bytes_as_float_bits(&mut chunk_data) {
        Ok(v) => v,
        Err(e) => return Err(e),
    };
    Ok(AcidMetadata {
        file_type,
        loop_on: flag_string(file_type.one_shot, ONE_SHOT_FILE_TYPE_MESSAGE, LOOP_FILE_TYPE_MESSAGE),
        root_note_set: flag_string(
            file_type.root_note,
            ROOT_NOTE_SET_FILE_TYPE_MESSAGE,
            ROOT_NOTE_NOT_SET_FILE_TYPE_MESSAGE,
        ),
        stretch: flag_string(
            file_type.stretch,
            STRETCH_ON_FILE_TYPE_MESSAGE,
            STRETCH_OFF_FILE_TYPE_MESSAGE,
        ),
        disk_based: flag_string(file_type.disk_based, DISK_FILE_TYPE_MESSAGE, RAM_FILE_TYPE_MESSAGE),
        acidizer: flag_string(
            file_type.acidizer,
            ACIDIZER_ON_FILE_TYPE_MESSAGE,
            ACIDIZER_OFF_FILE_TYPE_MESSAGE,
        ),
        root_note: format_midi_note_number_as_note_name(raw_root_note as u32),
        mystery_one,
        mystery_two_bits,
        number_of_beats,
        meter_denominator,
        meter_numerator,
        tempo_bits,
    })
}

/// The report entry of an ACID chunk: the decoding error, or its fields
/// rendered under `Optional`, the two floating point fields as the texts
/// they are written as.
pub open spec fn acid_entry_is(
    data: Seq<u8>,
    mystery_two: Seq<char>,
    tempo: Seq<char>,
    result: Result<OutputEntry, LocalError>,
) -> bool {
    match acid_fields(data) {
        Ok(f) => exists|m: AcidMetadata| #[trigger] acid_metadata_matches(m, f) && entry_of(
            Section::Optional,
            upon_rendered_text(ACID_TEMPLATE@, acid_output_values(m, mystery_two, tempo)),
            result,
        ),
        Err(e) => result == Err::<OutputEntry, LocalError>(e),
    }
}

/// Decodes an ACID chunk and renders it as its report entry. The second
/// mystery value and the tempo are floating point numbers, handed in as the
/// texts they are written as.
pub fn acid_entry(chunk_data: Vec<u8>, mystery_two: &str, tempo: &str) -> (result: Result<OutputEntry, LocalError>)
    ensures
        acid_entry_is(chunk_data@, mystery_two@, tempo@, result),
{
    match get_metadata(chunk_data) {
        Ok(m) => into_entry(Section::Optional, AcidFields { metadata: m }.format_data_for_output(mystery_two, tempo)),
        Err(e) => Err(e),
    }
}

/// The fields of an ACID chunk are little-endian, least significant byte
/// first: the file type flags are bytes 0 to 3, the root note bytes 4 and
/// 5, the first unknown value bytes 6 and 7, the second bytes 8 to 11, the
/// number of beats bytes 12 to 15, the meter denominator bytes 16 and 17,
/// the numerator bytes 18 and 19 and the tempo bytes 20 to 23.
pub proof fn acid_fields_are_little_endian(s: Seq<u8>)
    requires
        acid_fields(s) is Ok,
    ensures
        s.len() >= 24,
        ({
            let (file_type, root_note, mystery_one, mystery_two, beats, denominator, numerator, tempo) =
                acid_fields(s)->Ok_0;
            &&& file_type == le32(s, 0)
            &&& root_note == le16(s, 4)
            &&& mystery_one == le16(s, 6)
            &&& mystery_two == le32(s, 8)
            &&& beats == le32(s, 12)
            &&& denominator == le16(s, 16)
            &&& numerator == le16(s, 18)
            &&& tempo == le32(s, 20)
        }),
{
    assert(s.take(4) =~= s.subrange(0, 4));
    assert(s.skip(4) =~= s.skip(4));
    assert(s.skip(4).take(2) =~= s.subrange(4, 6));
    assert(s.skip(4).skip(2) =~= s.skip(6));
    assert(s.skip(6).take(2) =~= s.subrange(6, 8));
    assert(s.skip(6).skip(2) =~= s.skip(8));
    assert(s.skip(8).take(4) =~= s.subrange(8, 12));
    assert(s.skip(8).skip(4) =~= s.skip(12));
    assert(s.skip(12).take(4) =~= s.subrange(12, 16));
    assert(s.skip(12).skip(4) =~= s.skip(16));
    assert(s.skip(16).take(2) =~= s.subrange(16, 18));
    assert(s.skip(16).skip(2) =~= s.skip(18));
    assert(s.skip(18).take(2) =~= s.subrange(18, 20));
    assert(s.skip(18).skip(2) =~= s.skip(20));
    assert(s.skip(20).take(4) =~= s.subrange(20, 24));
    assert(s.skip(20).skip(4) =~= s.skip(24));
}

/// The flags of an ACID file type field are its low five bits: bit 0 one
/// shot, bit 1 root note set, bit 2 stretch, bit 3 disk based, bit 4
/// acidizer.
pub proof fn acid_flags_are_the_low_bits(file_type: u32)
    ensures
        file_type_of(file_type).one_shot == (file_type % 2 == 1),
        file_type_of(file_type).root_note == (file_type / 2 % 2 == 1),
        file_type_of(file_type).stretch == (file_type / 4 % 2 == 1),
        file_type_of(file_type).disk_based == (file_type / 8 % 2 == 1),
        file_type_of(file_type).acidizer == (file_type / 16 % 2 == 1),
{
    reveal_with_fuel(pow2, 5);
    assert(pow2(0) == 1);
    assert(file_type as nat / 1 == file_type as nat);
}

} // verus!
