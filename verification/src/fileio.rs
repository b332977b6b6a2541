use crate::byte_arrays::{u32_value, Endian};
use crate::errors::LocalError;
use crate::strings::text_equals;
use crate::formating::{binary_size_text, format_file_size_as_string, get_file_name_from_file_path, path_file_name};
use crate::output::{OutputEntry, Section};
use crate::template::{entry_of, named, render_entry, upon_rendered_text, values_view};
use crate::byte_arrays::{be32, le32};
use vstd::prelude::*;

verus! {

pub const AIFF_FILE_CHUNKID: &'static str = "FORM";
pub const FLAC_FILE_CHUNKID: &'static str = "fLaC";
pub const RIFF_FILE_CHUNKID: &'static str = "RIFF";
pub const MIDI_FILE_CHUNKID: &'static str = "MThd";
pub const WAVE_FILE_TYPE_ID: &'static str = "WAVE";
pub const RMID_FILE_TYPE_ID: &'static str = "RMID";
/// Length of a chunk ID.
pub const CHUNK_ID_FIELD_LENGTH_IN_BYTES: usize = 4;
/// Length of a chunk size field.
pub const CHUNK_SIZE_FIELD_LENGTH_IN_BYTES: usize = 4;

/// The file types told apart by the first bytes of a file.
#[derive(Debug, Clone, PartialEq)]
pub enum FileType {
    Aiff,
    Flac,
    Wave,
    Smf,
    Rmid,
    Unsupported(String),
}

/// What the file ID (the first four bytes) tells: the file type, or that
/// the RIFF type ID (after the RIFF size) must be read to tell.
#[derive(Debug, Clone, PartialEq)]
pub enum FileIdentification {
    Identified(FileType),
    ReadRiffType,
}

/// The file type a file ID names, when it names one on its own.
pub open spec fn file_type_of_id(file_id: Seq<char>) -> Option<FileType> {
    if file_id == AIFF_FILE_CHUNKID@ {
        Some(FileType::Aiff)
    } else if file_id == FLAC_FILE_CHUNKID@ {
        Some(FileType::Flac)
    } else if file_id == MIDI_FILE_CHUNKID@ {
        Some(FileType::Smf)
    } else {
        None
    }
}

/// Identifies a file by its file ID: `FORM` is AIFF, `fLaC` FLAC, `MThd`
/// a Standard MIDI File, `RIFF` needs the RIFF type ID, and any other ID
/// is unsupported.
pub fn identify_file_id(file_id: String) -> (identification: FileIdentification)
    ensures
        file_id@ == RIFF_FILE_CHUNKID@ ==> identification == FileIdentification::ReadRiffType,
        file_id@ != RIFF_FILE_CHUNKID@ ==> match file_type_of_id(file_id@) {
            Some(t) => identification == FileIdentification::Identified(t),
            None => identification matches FileIdentification::Identified(
                FileType::Unsupported(id),
            ) && id@ == file_id@,
        },
{
    if text_equals(&file_id, RIFF_FILE_CHUNKID) {
        FileIdentification::ReadRiffType
    } else if text_equals(&file_id, AIFF_FILE_CHUNKID) {
        FileIdentification::Identified(FileType::Aiff)
    } else if text_equals(&file_id, FLAC_FILE_CHUNKID) {
        FileIdentification::Identified(FileType::Flac)
    } else if text_equals(&file_id, MIDI_FILE_CHUNKID) {
        FileIdentification::Identified(FileType::Smf)
    } else {
        FileIdentification::Identified(FileType::Unsupported(file_id))
    }
}

/// The file type of a RIFF file by its RIFF type ID: `WAVE` or `RMID`;
/// any other ID is refused.
pub fn get_riff_data_type_from_riff_type_id(riff_type_id: &String) -> (result: Result<
    FileType,
    LocalError,
>)
    ensures
        riff_type_id@ == WAVE_FILE_TYPE_ID@ ==> result == Ok::<FileType, LocalError>(
            FileType::Wave,
        ),
        riff_type_id@ == RMID_FILE_TYPE_ID@ ==> result == Ok::<FileType, LocalError>(
            FileType::Rmid,
        ),
        riff_type_id@ != WAVE_FILE_TYPE_ID@ && riff_type_id@ != RMID_FILE_TYPE_ID@ ==> result
            == Err::<FileType, LocalError>(LocalError::InvalidRiffTypeID),
{
    proof {
        reveal_strlit("WAVE");
        reveal_strlit("RMID");
        assert(WAVE_FILE_TYPE_ID@[0] != RMID_FILE_TYPE_ID@[0]);
    }
    if text_equals(riff_type_id, WAVE_FILE_TYPE_ID) {
        Ok(FileType::Wave)
    } else if text_equals(riff_type_id, RMID_FILE_TYPE_ID) {
        Ok(FileType::Rmid)
    } else {
        Err(LocalError::InvalidRiffTypeID)
    }
}

/// A chunk size as read from its four size bytes, rounded up to an even
/// number of bytes (RIFF and AIFF chunks are padded to even length).
pub open spec fn padded_chunk_size(size_bytes: Seq<u8>, endianness: Endian) -> int {
    let size = u32_value(size_bytes, endianness);
    if size % 2 == 1 {
        size + 1
    } else {
        size
    }
}

/// The size of a chunk from its four size bytes, padded to even.
pub fn chunk_size_from_bytes(size_bytes: [u8; 4], endianness: Endian) -> (chunk_size: u64)
    ensures
        chunk_size == padded_chunk_size(size_bytes@, endianness),
{
    let size: u64 = match endianness {
        Endian::Little => size_bytes[0] as u64 + 256 * (size_bytes[1] as u64) + 65536 * (
        size_bytes[2] as u64) + 16777216 * (size_bytes[3] as u64),
        Endian::Big => 16777216 * (size_bytes[0] as u64) + 65536 * (size_bytes[1] as u64) + 256 * (
        size_bytes[2] as u64) + size_bytes[3] as u64,
    };
    if size % 2 == 1 {
        size + 1
    } else {
        size
    }
}

/// The template of a file's details entry.
pub const FILE_TEMPLATE: &'static str = "\n-------------\nFile Details:\n-------------\nFile Name: {{ file_name }}\nFile Path: {{ file_path }}\nFile Size: {{ file_size }}";

/// The details entry of a file: `InvalidFileName` when its path has no
/// final component, else its name, full path and size rendered under
/// `Header`.
pub open spec fn file_entry_is(
    file_path: Seq<char>,
    full_path: Seq<char>,
    size_in_bytes: u64,
    result: Result<OutputEntry, LocalError>,
) -> bool {
    match path_file_name(file_path) {
        Some(name) => entry_of(
            Section::Header,
            upon_rendered_text(
                FILE_TEMPLATE@,
                seq![
                    ("file_name"@, name),
                    ("file_path"@, full_path),
                    ("file_size"@, binary_size_text(size_in_bytes as nat)),
                ],
            ),
            result,
        ),
        None => result == Err::<OutputEntry, LocalError>(LocalError::InvalidFileName),
    }
}

/// Renders a file's name, its full path and its size in bytes as its
/// details entry.
pub fn get_file_metadata(file_path: &str, full_path: String, size_in_bytes: u64) -> (result: Result<
    OutputEntry,
    LocalError,
>)
    ensures
        file_entry_is(file_path@, full_path@, size_in_bytes, result),
{
    let name = match get_file_name_from_file_path(file_path) {
        Ok(n) => n,
        Err(e) => return Err(e),
    };
    let ghost n = name@;
    let ghost p = full_path@;
    let values = vec![
        named("file_name", name),
        named("file_path", full_path),
        named("file_size", format_file_size_as_string(size_in_bytes)),
    ];
    assert(values_view(values@) =~= seq![
        ("file_name"@, n),
        ("file_path"@, p),
        ("file_size"@, binary_size_text(size_in_bytes as nat)),
    ]);
    render_entry(Section::Header, FILE_TEMPLATE, &values)
}

/// A chunk size is its four size bytes, least significant first in RIFF
/// files and most significant first in AIFF files, rounded up to an even
/// number.
pub proof fn chunk_sizes_are_padded_to_even(size_bytes: Seq<u8>, endianness: Endian)
    requires
        size_bytes.len() == 4,
    ensures
        ({
            let raw = match endianness {
                Endian::Little => le32(size_bytes, 0),
                Endian::Big => be32(size_bytes, 0),
            };
            padded_chunk_size(size_bytes, endianness) == raw + raw % 2
        }),
{
}

} // verus!
