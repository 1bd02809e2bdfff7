//! Equal-temperament pitch: a note sounds at 440 Hz times two to the power of
//! its distance from A4 (note 69) in semitones, over twelve. This module gives
//! that distance; the power itself is taken in floating point by the caller.

use vstd::prelude::*;

verus! {

/// The note number of A4, the 440 Hz reference.
pub const REFERENCE_NOTE: u8 = 69;

/// Semitones from A4 to `note`.
pub fn semitones_from_reference(note: u8) -> (r: i16)
    ensures
        r == note - REFERENCE_NOTE,
{
    note as i16 - REFERENCE_NOTE as i16
}

/// The exponent of the pitch formula grows strictly with the note number.
pub proof fn lemma_semitones_strictly_increasing(a: u8, b: u8)
    requires
        a < b,
    ensures
        a - REFERENCE_NOTE < b - REFERENCE_NOTE,
{
}

} // verus!
