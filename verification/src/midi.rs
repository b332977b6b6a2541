use crate::formating::{format_midi_note_number_as_note_name, note_name_text};
use vstd::prelude::*;

verus! {

/// The name of a MIDI note number, e.g. 66 is `F#/Gb3` and 0 is `C-2`.
/// Note numbers from 2^24 on are left out: there a 32-bit float, in which
/// the octave is worked out, no longer holds every note number exactly.
pub fn note_name_from_midi_note_number(midi_note_number: u32) -> (text: String)
    requires
        midi_note_number < 16777216,
    ensures
        text@ == note_name_text(midi_note_number as nat),
{
    format_midi_note_number_as_note_name(midi_note_number)
}

} // verus!
