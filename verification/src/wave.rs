//! The chunk records of RIFF Wave files.
pub mod acid;
pub mod bext;
pub mod cart;
pub mod chunk;
pub mod cue;
pub mod fmt;
pub mod id3;
pub mod extra;
pub mod fact;
pub mod ixml;
pub mod list;
pub mod report;
pub mod resu;
pub mod junk;
pub mod umid;
pub mod xmp;
