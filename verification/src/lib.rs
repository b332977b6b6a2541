//! Chunk and header metadata extraction for audio files: RIFF Wave, AIFF,
//! Standard MIDI, RMID, Ogg Vorbis, FLAC and MP3.
pub mod byte_arrays;
pub mod chunks;
pub mod cli;
pub mod errors;
pub mod file_types;
pub mod fileio;
pub mod flac;
pub mod formating;
pub mod midi;
pub mod output;
pub mod shared;
pub mod strings;
pub mod template;
pub mod wave;
