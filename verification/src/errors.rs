use vstd::prelude::*;

verus! {

/// Every failure the metadata extraction can report.
#[derive(Debug, Clone, PartialEq, Eq)]
pub enum LocalError {
    InvalidPath(String),
    InvalidFileName,
    UnsupportedFileType(String),
    InvalidRiffTypeID,
    CouldNotReadData(String),
    InvalidADTLTypeID(String),
    InvalidInfoTypeID(String),
    InvalidZipDataFound(String),
    InvalidID3TagDataFound(String),
    InsufficientBytesToTake(usize, usize),
    InsufficientBytesToRead(usize),
    OutputFileAlreadyExists(String),
    HFSTimestampTooSmall,
    ErrorParsingID3TagIDs,
    ErrorParsingVorbisTags,
    CouldNotWrteOutData,
    InvalidVorbisComment,
    MP3SyncSafeIntegerOverflow(u8),
    MP3SampleRateIndexOverflow(u8),
    MP3VersionIndexOverflow(u8),
    MP3LayerIndexOverflow(u8),
    MP3BitrateIndexOverflow(u8),
    InvalidChunkIDCanNotContinue(String),
    InvalidMidiMetaEventData(u8),
    /// The output template could not be compiled or filled; the message.
    CouldNotRenderOutput(String),
}

} // verus!
