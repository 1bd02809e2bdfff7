use midikitty::control::{key_cell, Controls, Key, KeyInput};
use midikitty::{AppMode, Grid};

fn press(key: Key) -> KeyInput {
    KeyInput { key, no_modifiers: true, control_only: false }
}

#[test]
fn grid_new_is_unlit() {
    let g = Grid::new(3, 8);
    assert_eq!(g.rows, 3);
    assert_eq!(g.cols, 8);
    assert_eq!(g.pad_state.len(), 24);
    assert_eq!(g.pad_config.len(), 24);
    assert!(g.pad_state.iter().all(|p| !p.active));
}

#[test]
fn grid_index_is_row_major() {
    let g = Grid::new(3, 8);
    assert_eq!(g.grid_index(0, 0), 0);
    assert_eq!(g.grid_index(1, 2), 10);
    assert_eq!(g.grid_index(2, 7), 23);
}

#[test]
fn grid_play_lights_one_pad() {
    let mut g = Grid::new(3, 8);
    g.play(1, 2);
    for (i, p) in g.pad_state.iter().enumerate() {
        assert_eq!(p.active, i == 10);
    }
    g.play(0, 0);
    assert!(g.pad_state[0].active);
    assert!(!g.pad_state[10].active);
}

#[test]
fn grid_note_numbers() {
    let g = Grid::new(3, 8);
    assert_eq!(g.note_number(0, 0), 36);
    assert_eq!(g.note_number(2, 7), 59);
}

#[test]
fn mode_switching() {
    assert_eq!(AppMode::default(), AppMode::MIDI);
    assert_eq!(AppMode::MIDI.switched(), AppMode::Synth);
    assert_eq!(AppMode::Synth.switched(), AppMode::MIDI);
    assert_eq!(AppMode::Edit.switched(), AppMode::Edit);
}

#[test]
fn mode_labels() {
    assert_eq!(AppMode::MIDI.label(), "MIDI");
    assert_eq!(AppMode::Synth.label(), "Synth");
    assert_eq!(AppMode::Edit.label(), "Synth (EDITING)");
}

#[test]
fn keymap_cells() {
    assert_eq!(key_cell('q'), Some((0, 0)));
    assert_eq!(key_cell('k'), Some((1, 7)));
    assert_eq!(key_cell(','), Some((2, 7)));
    assert_eq!(key_cell('p'), None);
}

#[test]
fn mapped_key_plays_its_pad() {
    let mut c = Controls::new();
    c.running = true;
    assert_eq!(c.on_key(press(Key::Char('d'))), Some(46));
    assert!(c.grid.pad_state[10].active);
    assert!(c.running);
    assert_eq!(c.on_key(press(Key::Char(','))), Some(59));
    assert!(!c.grid.pad_state[10].active);
}

#[test]
fn modified_key_plays_nothing() {
    let mut c = Controls::new();
    let k = KeyInput { key: Key::Char('q'), no_modifiers: false, control_only: false };
    assert_eq!(c.on_key(k), None);
    assert!(c.grid.pad_state.iter().all(|p| !p.active));
}

#[test]
fn escape_and_control_c_quit() {
    let mut c = Controls::new();
    c.running = true;
    assert_eq!(c.on_key(press(Key::Esc)), None);
    assert!(!c.running);
    let mut c = Controls::new();
    c.running = true;
    let k = KeyInput { key: Key::Char('c'), no_modifiers: false, control_only: true };
    assert_eq!(c.on_key(k), None);
    assert!(!c.running);
    c.running = true;
    assert_eq!(c.on_key(press(Key::Char('c'))), Some(54));
    assert!(c.running);
}

#[test]
fn tab_switches_mode() {
    let mut c = Controls::new();
    c.on_key(press(Key::Tab));
    assert_eq!(c.mode, AppMode::Synth);
    c.on_key(press(Key::Tab));
    assert_eq!(c.mode, AppMode::MIDI);
}
