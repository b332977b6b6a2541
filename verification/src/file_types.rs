use crate::byte_arrays::{u16_value, Endian};
use crate::errors::LocalError;
use vstd::prelude::*;

pub mod m4a;
pub mod midi;
pub mod mp3;
pub mod ogg;

verus! {

/// The kinds of audio file whose metadata can be extracted.
#[derive(Debug, Clone, PartialEq)]
pub enum FileType {
    Aiff,
    Flac,
    Wave,
    Smf,
    Rmid,
    Ogg,
    Mp3(Mp3SubType),
    M4a,
    Unsupported(String),
}

/// Whether an MP3 file starts with an ID3 tag.
#[derive(Debug, Clone, Copy, PartialEq, Eq, Structural)]
pub enum Mp3SubType {
    ID3,
    NonId3,
}

/// The reader that extracts the metadata of a file of a supported type.
#[derive(Debug, Clone, Copy, PartialEq, Eq, Structural)]
pub enum MetadataReader {
    Wave,
    Flac,
    Aiff,
    Smf,
    Rmid,
    Ogg,
    Mp3(Mp3SubType),
    M4a,
}

/// Chooses the reader for a file type; an unsupported type is refused with
/// the ID that was found.
pub fn get_file_metadata(file_type: FileType) -> (result: Result<MetadataReader, LocalError>)
    ensures
        match file_type {
            FileType::Wave => result == Ok::<MetadataReader, LocalError>(MetadataReader::Wave),
            FileType::Flac => result == Ok::<MetadataReader, LocalError>(MetadataReader::Flac),
            FileType::Aiff => result == Ok::<MetadataReader, LocalError>(MetadataReader::Aiff),
            FileType::Smf => result == Ok::<MetadataReader, LocalError>(MetadataReader::Smf),
            FileType::Rmid => result == Ok::<MetadataReader, LocalError>(MetadataReader::Rmid),
            FileType::Ogg => result == Ok::<MetadataReader, LocalError>(MetadataReader::Ogg),
            FileType::Mp3(subtype) => result == Ok::<MetadataReader, LocalError>(
                MetadataReader::Mp3(subtype),
            ),
            FileType::M4a => result == Ok::<MetadataReader, LocalError>(MetadataReader::M4a),
            FileType::Unsupported(id) => result matches Err(LocalError::UnsupportedFileType(found))
                && found@ == id@,
        },
{
    match file_type {
        FileType::Wave => Ok(MetadataReader::Wave),
        FileType::Flac => Ok(MetadataReader::Flac),
        FileType::Aiff => Ok(MetadataReader::Aiff),
        FileType::Smf => Ok(MetadataReader::Smf),
        FileType::Rmid => Ok(MetadataReader::Rmid),
        FileType::Ogg => Ok(MetadataReader::Ogg),
        FileType::Mp3(subtype) => Ok(MetadataReader::Mp3(subtype)),
        FileType::M4a => Ok(MetadataReader::M4a),
        FileType::Unsupported(file_id) => Err(LocalError::UnsupportedFileType(file_id)),
    }
}

/// Length of the start of a Core Audio file that holds its version: the
/// four byte file type, then the version.
pub const CAF_FILE_VERSION_END_IN_BYTES: usize = 6;

/// The file version of a Core Audio file header: the big-endian 16-bit
/// field after the four byte file type.
pub fn get_caf_file_version(header: &[u8]) -> (result: Result<u16, LocalError>)
    ensures
        match result {
            Ok(version) => header@.len() >= CAF_FILE_VERSION_END_IN_BYTES && version == u16_value(
                header@.subrange(4, 6),
                Endian::Big,
            ),
            Err(e) => header@.len() < CAF_FILE_VERSION_END_IN_BYTES
                && e == LocalError::InsufficientBytesToRead(CAF_FILE_VERSION_END_IN_BYTES),
        },
{
    if header.len() < CAF_FILE_VERSION_END_IN_BYTES {
        return Err(LocalError::InsufficientBytesToRead(CAF_FILE_VERSION_END_IN_BYTES));
    }
    Ok(256 * (header[4] as u16) + header[5] as u16)
}

} // verus!
