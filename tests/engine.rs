use midikitty::event::{action_for, Action, MAX_NOTE, NOTE_OFF_MSG, NOTE_ON_MSG};
use midikitty::pitch::semitones_from_reference;
use midikitty::{decode, MidiEvent, VoiceRegistry};

#[test]
fn decode_note_on() {
    assert_eq!(decode(&[0x90, 60, 100]), MidiEvent::NoteOn { note: 60, velocity: 100 });
}

#[test]
fn decode_note_on_with_zero_velocity_is_release() {
    assert_eq!(decode(&[0x90, 60, 0]), MidiEvent::NoteOff { note: 60 });
}

#[test]
fn decode_note_off() {
    assert_eq!(decode(&[0x80, 60, 64]), MidiEvent::NoteOff { note: 60 });
    assert_eq!(decode(&[NOTE_OFF_MSG, 61, 0]), MidiEvent::NoteOff { note: 61 });
}

#[test]
fn decode_wrong_length_is_unrecognized() {
    assert_eq!(decode(&[0x90, 60]), MidiEvent::Unrecognized);
    assert_eq!(decode(&[]), MidiEvent::Unrecognized);
    assert_eq!(decode(&[NOTE_ON_MSG, 60, 100, 0]), MidiEvent::Unrecognized);
}

#[test]
fn decode_other_status_is_unrecognized() {
    assert_eq!(decode(&[0xB0, 7, 100]), MidiEvent::Unrecognized);
    assert_eq!(decode(&[0x91, 60, 100]), MidiEvent::Unrecognized);
}

#[test]
fn note_on_installs_one_live_handle() {
    let mut reg: VoiceRegistry<u32> = VoiceRegistry::new();
    assert_eq!(reg.note_on(60, 1), None);
    assert!(reg.is_sounding(60));
    assert_eq!(reg.handle(60), Some(&1));
    assert_eq!(reg.len(), 1);
}

#[test]
fn retrigger_displaces_first_handle() {
    let mut reg: VoiceRegistry<u32> = VoiceRegistry::new();
    assert_eq!(reg.note_on(60, 1), None);
    assert_eq!(reg.note_on(60, 2), Some(1));
    assert_eq!(reg.handle(60), Some(&2));
    assert!(reg.is_sounding(60));
    assert_eq!(reg.len(), 1);
}

#[test]
fn release_without_note_on_is_noop() {
    let mut reg: VoiceRegistry<u32> = VoiceRegistry::new();
    assert_eq!(reg.note_off(60), None);
    assert_eq!(reg.len(), 0);
    assert!(!reg.is_sounding(60));
    assert_eq!(reg.handle(60), None);
}

#[test]
fn release_keeps_stale_entry() {
    let mut reg: VoiceRegistry<u32> = VoiceRegistry::new();
    reg.note_on(60, 1);
    assert_eq!(reg.note_off(60), Some(&1));
    assert!(!reg.is_sounding(60));
    assert_eq!(reg.handle(60), Some(&1));
    // a second release signals the same handle again, harmlessly
    assert_eq!(reg.note_off(60), Some(&1));
    assert_eq!(reg.len(), 1);
}

#[test]
fn on_off_on_cycle_overwrites() {
    let mut reg: VoiceRegistry<u32> = VoiceRegistry::new();
    reg.note_on(60, 1);
    reg.note_off(60);
    assert_eq!(reg.note_on(60, 2), Some(1));
    assert_eq!(reg.len(), 1);
    assert!(reg.is_sounding(60));
}

#[test]
fn registry_never_exceeds_note_space() {
    let mut reg: VoiceRegistry<u32> = VoiceRegistry::new();
    let mut h: u32 = 0;
    for _cycle in 0..5 {
        for note in 0..=MAX_NOTE {
            reg.note_on(note, h);
            h += 1;
            reg.note_off(note);
        }
    }
    assert_eq!(reg.len(), 128);
}

#[test]
fn notes_have_independent_handles() {
    let mut reg: VoiceRegistry<u32> = VoiceRegistry::new();
    reg.note_on(60, 1);
    reg.note_on(64, 2);
    assert_eq!(reg.note_off(60), Some(&1));
    assert!(reg.is_sounding(64));
    assert_eq!(reg.handle(64), Some(&2));
    assert_eq!(reg.note_on(60, 3), Some(1));
    assert_eq!(reg.handle(64), Some(&2));
    assert_eq!(reg.len(), 2);
}

#[test]
fn semitones_from_a4() {
    assert_eq!(semitones_from_reference(69), 0);
    assert_eq!(semitones_from_reference(0), -69);
    assert_eq!(semitones_from_reference(127), 58);
}

#[test]
fn test_frequency() {
    let f = |n: u8| 440.0 * (semitones_from_reference(n) as f64 / 12.0).exp2();
    assert!((f(69) - 440.0).abs() < 0.0001);
    assert!((f(0) - 8.1758).abs() < 0.00001);
    assert!((f(127) - 12543.854).abs() < 0.0001);
    for n in 0..127u8 {
        assert!(f(n) < f(n + 1));
    }
}

#[test]
fn actions_for_messages() {
    assert_eq!(action_for(&[0x90, 60, 100]), Action::Start { note: 60, velocity: 100 });
    assert_eq!(action_for(&[0x90, 60, 0]), Action::Release { note: 60 });
    assert_eq!(action_for(&[0x80, 60, 64]), Action::Release { note: 60 });
    assert_eq!(action_for(&[0x90, 200, 64]), Action::Ignore);
    assert_eq!(action_for(&[0x90, 60]), Action::Ignore);
}
