//! Classification of raw three-byte MIDI channel messages.

use vstd::prelude::*;

verus! {

/// Status byte of a note-on message on the first channel.
pub const NOTE_ON_MSG: u8 = 0x90;

/// The highest note number.
pub const MAX_NOTE: u8 = 127;

/// Status byte of a note-off message on the first channel.
pub const NOTE_OFF_MSG: u8 = 0x80;

/// A decoded device message.
#[derive(Clone, Copy, Debug, PartialEq, Eq, Structural)]
pub enum MidiEvent {
    /// A key was pressed with a non-zero velocity.
    NoteOn { note: u8, velocity: u8 },
    /// A key was released (a note-off, or a note-on with velocity zero).
    NoteOff { note: u8 },
    /// Anything else; it is dropped by the engine.
    Unrecognized,
}

/// What a message means, byte for byte.
pub open spec fn decoded(m: Seq<u8>) -> MidiEvent {
    if m.len() == 3 && m[0] == NOTE_ON_MSG && m[2] != 0 {
        MidiEvent::NoteOn { note: m[1], velocity: m[2] }
    } else if m.len() == 3 && (m[0] == NOTE_ON_MSG || m[0] == NOTE_OFF_MSG) {
        MidiEvent::NoteOff { note: m[1] }
    } else {
        MidiEvent::Unrecognized
    }
}

/// Decodes one raw message. Never fails: what is not a note message of
/// exactly three bytes is `Unrecognized`.
pub fn decode(message: &[u8]) -> (r: MidiEvent)
    ensures
        r == decoded(message@),
{
    if message.len() != 3 {
        return MidiEvent::Unrecognized;
    }
    let status = message[0];
    let note = message[1];
    let velocity = message[2];
    if status == NOTE_ON_MSG {
        if velocity == 0 {
            MidiEvent::NoteOff { note }
        } else {
            MidiEvent::NoteOn { note, velocity }
        }
    } else if status == NOTE_OFF_MSG {
        MidiEvent::NoteOff { note }
    } else {
        MidiEvent::Unrecognized
    }
}

/// What the engine does with one message.
#[derive(Clone, Copy, Debug, PartialEq, Eq, Structural)]
pub enum Action {
    /// Start a voice for the note (cancelling the one it had, if any).
    Start { note: u8, velocity: u8 },
    /// Cancel the note's voice, if it has one.
    Release { note: u8 },
    /// Drop the message.
    Ignore,
}

/// The engine's response to a message: note-ons within the note range
/// start a voice, releases cancel one, and the rest is dropped.
pub open spec fn action_spec(m: Seq<u8>) -> Action {
    match decoded(m) {
        MidiEvent::NoteOn { note, velocity } => if note <= MAX_NOTE {
            Action::Start { note, velocity }
        } else {
            Action::Ignore
        },
        MidiEvent::NoteOff { note } => Action::Release { note },
        MidiEvent::Unrecognized => Action::Ignore,
    }
}

/// Decides what the engine does with one raw message.
pub fn action_for(message: &[u8]) -> (r: Action)
    ensures
        r == action_spec(message@),
        r matches Action::Start { note, .. } ==> note <= MAX_NOTE,
{
    match decode(message) {
        MidiEvent::NoteOn { note, velocity } => {
            if note <= MAX_NOTE {
                Action::Start { note, velocity }
            } else {
                Action::Ignore
            }
        },
        MidiEvent::NoteOff { note } => Action::Release { note },
        MidiEvent::Unrecognized => Action::Ignore,
    }
}

} // verus!
