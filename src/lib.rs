//! A small polyphonic synthesiser core: MIDI message decoding, per-note voice
//! bookkeeping, pitch mapping and the pad grid of the terminal front end.

pub mod control;
pub mod event;
pub mod grid;
pub mod pitch;
pub mod voice;

pub use event::{decode, MidiEvent};
pub use grid::{AppMode, Grid};
pub use voice::VoiceRegistry;
