//! The voice registry: for each note, the cancellation handle of the voice
//! that was last started for it.
//!
//! Handles are opaque to the registry (the engine uses the sending end of a
//! one-shot channel). Entries are never removed: a release only marks the
//! entry silent, and a new note-on for the same note overwrites it, so the
//! registry never holds more entries than there are notes.

use std::collections::HashMap;
use crate::event::MAX_NOTE;
use vstd::prelude::*;
use vstd::set_lib::{lemma_int_range, lemma_len_subset, lemma_map_size, set_int_range};

verus! {

broadcast use vstd::std_specs::hash::group_hash_axioms;

/// The highest MIDI velocity; a voice's amplitude is its velocity over this.
pub const MAX_VELOCITY: u8 = 127;

/// The registry's record for one note.
pub struct Voice<H> {
    /// Signals the voice's renderer to stop.
    pub handle: H,
    /// Whether the voice is current: started and not released since.
    pub sounding: bool,
}

/// Maps each note to the handle of its current voice.
pub struct VoiceRegistry<H> {
    voices: HashMap<u8, Voice<H>>,
}

/// The registry after a note-on for `note` with a fresh `handle`.
pub open spec fn after_note_on<H>(m: Map<u8, Voice<H>>, note: u8, handle: H) -> Map<u8, Voice<H>> {
    m.insert(note, Voice { handle, sounding: true })
}

/// The registry after a release of `note`: its entry, if any, stays but is
/// no longer sounding.
pub open spec fn after_note_off<H>(m: Map<u8, Voice<H>>, note: u8) -> Map<u8, Voice<H>> {
    if m.contains_key(note) {
        m.insert(note, Voice { handle: m[note].handle, sounding: false })
    } else {
        m
    }
}

/// The handle that must be signalled when `note` is started again or
/// released: the one installed for it, whatever its state.
pub open spec fn handle_of<H>(m: Map<u8, Voice<H>>, note: u8) -> Option<H> {
    if m.contains_key(note) {
        Some(m[note].handle)
    } else {
        None
    }
}

/// Whether `note` has a live voice.
pub open spec fn is_live<H>(m: Map<u8, Voice<H>>, note: u8) -> bool {
    m.contains_key(note) && m[note].sounding
}

/// Every key is a note number.
pub open spec fn notes_only<H>(m: Map<u8, Voice<H>>) -> bool {
    forall|n: u8| #[trigger] m.contains_key(n) ==> n <= MAX_NOTE
}

impl<H> View for VoiceRegistry<H> {
    type V = Map<u8, Voice<H>>;

    closed spec fn view(&self) -> Map<u8, Voice<H>> {
        self.voices@
    }
}

impl<H> VoiceRegistry<H> {
    /// The registry's invariant: it is keyed by note numbers only.
    pub open spec fn wf(&self) -> bool {
        notes_only(self@)
    }

    /// An empty registry.
    pub fn new() -> (r: Self)
        ensures
            r.wf(),
            r@ == Map::<u8, Voice<H>>::empty(),
    {
        VoiceRegistry { voices: HashMap::new() }
    }

    /// Installs `handle` as the current voice of `note`, and returns the
    /// handle it replaces, which the caller must signal to stop.
    pub fn note_on(&mut self, note: u8, handle: H) -> (displaced: Option<H>)
        requires
            old(self).wf(),
            note <= MAX_NOTE,
        ensures
            final(self).wf(),
            final(self)@ == after_note_on(old(self)@, note, handle),
            displaced == handle_of(old(self)@, note),
    {
        let prev = self.voices.insert(note, Voice { handle, sounding: true });
        match prev {
            Some(v) => Some(v.handle),
            None => None,
        }
    }

    /// Releases `note`: its entry is kept but no longer sounding. Returns the
    /// handle to signal, or `None` when no voice was ever started for it.
    pub fn note_off(&mut self, note: u8) -> (r: Option<&H>)
        requires
            old(self).wf(),
        ensures
            final(self).wf(),
            final(self)@ == after_note_off(old(self)@, note),
            match r {
                Some(h) => handle_of(old(self)@, note) == Some(*h),
                None => handle_of(old(self)@, note) is None,
            },
    {
        match self.voices.remove(&note) {
            Some(v) => {
                self.voices.insert(note, Voice { handle: v.handle, sounding: false });
                match self.voices.get(&note) {
                    Some(v) => Some(&v.handle),
                    None => None,
                }
            },
            None => None,
        }
    }

    /// The handle installed for `note`, if any.
    pub fn handle(&self, note: u8) -> (r: Option<&H>)
        ensures
            match r {
                Some(h) => handle_of(self@, note) == Some(*h),
                None => handle_of(self@, note) is None,
            },
    {
        match self.voices.get(&note) {
            Some(v) => Some(&v.handle),
            None => None,
        }
    }

    /// Whether `note` has a live voice.
    pub fn is_sounding(&self, note: u8) -> (r: bool)
        ensures
            r == is_live(self@, note),
    {
        match self.voices.get(&note) {
            Some(v) => v.sounding,
            None => false,
        }
    }

    /// The number of notes that have an entry, live or stale; never more
    /// than there are notes.
    pub fn len(&self) -> (r: usize)
        requires
            self.wf(),
        ensures
            r == self@.len(),
            r <= MAX_NOTE + 1,
    {
        proof {
            lemma_entries_bounded_by_notes(self@);
        }
        self.voices.len()
    }
}

/// A note-on leaves exactly one live voice for its note, the one with the
/// handle it was given.
pub proof fn lemma_note_on_installs_live<H>(m: Map<u8, Voice<H>>, note: u8, handle: H)
    ensures
        is_live(after_note_on(m, note, handle), note),
        handle_of(after_note_on(m, note, handle), note) == Some(handle),
{
}

/// Two note-ons for one note: the second displaces the handle that the first
/// installed (which the caller then signals), and only the second handle
/// stays installed and live.
pub proof fn lemma_retrigger_replaces<H>(m: Map<u8, Voice<H>>, note: u8, first: H, second: H)
    ensures
        handle_of(after_note_on(m, note, first), note) == Some(first),
        handle_of(after_note_on(after_note_on(m, note, first), note, second), note) == Some(
            second,
        ),
        is_live(after_note_on(after_note_on(m, note, first), note, second), note),
        after_note_on(after_note_on(m, note, first), note, second).dom() == m.dom().insert(note),
{
}

/// Releasing a note that was never started changes nothing and signals no
/// handle.
pub proof fn lemma_release_unknown_is_noop<H>(m: Map<u8, Voice<H>>, note: u8)
    requires
        !m.contains_key(note),
    ensures
        after_note_off(m, note) == m,
        handle_of(m, note) is None,
{
}

/// A release keeps the note's entry, so a later note-on for it overwrites
/// that entry: an on, off, on cycle adds at most the one key of its note.
pub proof fn lemma_cycle_overwrites<H>(m: Map<u8, Voice<H>>, note: u8, first: H, second: H)
    ensures
        after_note_on(after_note_off(after_note_on(m, note, first), note), note, second).dom()
            == m.dom().insert(note),
        after_note_off(after_note_on(m, note, first), note).dom() == m.dom().insert(note),
{
    assert(after_note_on(after_note_off(after_note_on(m, note, first), note), note, second).dom()
        =~= m.dom().insert(note));
    assert(after_note_off(after_note_on(m, note, first), note).dom() =~= m.dom().insert(note));
}

/// A registry keyed by note numbers has at most one entry per note.
pub proof fn lemma_entries_bounded_by_notes<H>(m: Map<u8, Voice<H>>)
    requires
        m.dom().finite(),
        notes_only(m),
    ensures
        m.len() <= MAX_NOTE + 1,
{
    let f = |n: u8| n as int;
    let image = m.dom().map(f);
    lemma_map_size(m.dom(), image, f);
    lemma_int_range(0, MAX_NOTE + 1);
    assert(image.subset_of(set_int_range(0, MAX_NOTE + 1)));
    lemma_len_subset(image, set_int_range(0, MAX_NOTE + 1));
}

/// Notes have independent voices: starting or releasing one note leaves the
/// entry of every other note, and so the handle signalled for it, as it was.
pub proof fn lemma_notes_independent<H>(m: Map<u8, Voice<H>>, note: u8, other: u8, handle: H)
    requires
        note != other,
    ensures
        after_note_on(m, note, handle).contains_key(other) == m.contains_key(other),
        after_note_off(m, note).contains_key(other) == m.contains_key(other),
        m.contains_key(other) ==> after_note_on(m, note, handle)[other] == m[other],
        m.contains_key(other) ==> after_note_off(m, note)[other] == m[other],
        handle_of(after_note_on(m, note, handle), other) == handle_of(m, other),
        handle_of(after_note_off(m, note), other) == handle_of(m, other),
{
}

} // verus!
