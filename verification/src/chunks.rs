//! Decoders for the chunks of RIFF and AIFF files.
pub mod acid;
pub mod bext;
pub mod cart;
pub mod comm;
pub mod comt;
pub mod cue;
pub mod dispatch;
pub mod extra;
pub mod fact;
pub mod fmt;
pub mod fver;
pub mod id3;
pub mod list;
pub mod mark;
pub mod resu;
pub mod smpl;
pub mod sndm;
pub mod text;
pub mod umid;
