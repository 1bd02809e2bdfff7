//! The keyboard side of the front end: which key plays which pad, and what
//! the other keys do.

use crate::grid::{switched_spec, AppMode, Grid, BASE_NOTE};
use vstd::prelude::*;

verus! {

/// Rows of the pad grid.
pub const GRID_ROWS: usize = 3;

/// Columns of the pad grid.
pub const GRID_COLS: usize = 8;

/// A pressed key, as far as the front end tells keys apart.
#[derive(Clone, Copy, Debug, PartialEq, Eq, Structural)]
pub enum Key {
    Char(char),
    Esc,
    Tab,
    Other,
}

/// A key press with what matters of its modifiers.
#[derive(Clone, Copy, Debug, PartialEq, Eq, Structural)]
pub struct KeyInput {
    pub key: Key,
    /// No modifier key was held.
    pub no_modifiers: bool,
    /// Control, and nothing else, was held.
    pub control_only: bool,
}

/// The pad that a character key plays: three rows of eight keys, on the
/// left of a QWERTY keyboard.
pub open spec fn keymap(c: char) -> Option<(usize, usize)> {
    match c {
        'q' => Some((0usize, 0usize)),
        'w' => Some((0usize, 1usize)),
        'e' => Some((0usize, 2usize)),
        'r' => Some((0usize, 3usize)),
        't' => Some((0usize, 4usize)),
        'y' => Some((0usize, 5usize)),
        'u' => Some((0usize, 6usize)),
        'i' => Some((0usize, 7usize)),
        'a' => Some((1usize, 0usize)),
        's' => Some((1usize, 1usize)),
        'd' => Some((1usize, 2usize)),
        'f' => Some((1usize, 3usize)),
        'g' => Some((1usize, 4usize)),
        'h' => Some((1usize, 5usize)),
        'j' => Some((1usize, 6usize)),
        'k' => Some((1usize, 7usize)),
        'z' => Some((2usize, 0usize)),
        'x' => Some((2usize, 1usize)),
        'c' => Some((2usize, 2usize)),
        'v' => Some((2usize, 3usize)),
        'b' => Some((2usize, 4usize)),
        'n' => Some((2usize, 5usize)),
        'm' => Some((2usize, 6usize)),
        ',' => Some((2usize, 7usize)),
        _ => None,
    }
}

/// The pad that a character key plays, if any.
pub fn key_cell(c: char) -> (r: Option<(usize, usize)>)
    ensures
        r == keymap(c),
        r matches Some((row, col)) ==> row < GRID_ROWS && col < GRID_COLS,
{
    match c {
        'q' => Some((0, 0)),
        'w' => Some((0, 1)),
        'e' => Some((0, 2)),
        'r' => Some((0, 3)),
        't' => Some((0, 4)),
        'y' => Some((0, 5)),
        'u' => Some((0, 6)),
        'i' => Some((0, 7)),
        'a' => Some((1, 0)),
        's' => Some((1, 1)),
        'd' => Some((1, 2)),
        'f' => Some((1, 3)),
        'g' => Some((1, 4)),
        'h' => Some((1, 5)),
        'j' => Some((1, 6)),
        'k' => Some((1, 7)),
        'z' => Some((2, 0)),
        'x' => Some((2, 1)),
        'c' => Some((2, 2)),
        'v' => Some((2, 3)),
        'b' => Some((2, 4)),
        'n' => Some((2, 5)),
        'm' => Some((2, 6)),
        ',' => Some((2, 7)),
        _ => None,
    }
}

/// The pad that a key press plays: a mapped character key with no modifier.
pub open spec fn pad_of(k: KeyInput) -> Option<(usize, usize)> {
    match k.key {
        Key::Char(c) => if k.no_modifiers {
            keymap(c)
        } else {
            None
        },
        _ => None,
    }
}

/// Whether a key press ends the program: Escape, or Control-C.
pub open spec fn quits(k: KeyInput) -> bool {
    k.key == Key::Esc || (k.control_only && (k.key == Key::Char('c') || k.key == Key::Char(
        'C',
    )))
}

/// The state of the front end.
#[derive(Debug)]
pub struct Controls {
    /// Whether the main loop goes on.
    pub running: bool,
    pub mode: AppMode,
    pub grid: Grid,
}

impl Controls {
    /// The grid has its fixed shape.
    pub open spec fn wf(&self) -> bool {
        &&& self.grid.wf()
        &&& self.grid.rows == GRID_ROWS
        &&& self.grid.cols == GRID_COLS
    }

    /// A stopped front end in MIDI mode with an unlit grid.
    pub fn new() -> (r: Self)
        ensures
            r.wf(),
            !r.running,
            r.mode == AppMode::MIDI,
            forall|i: int| 0 <= i < r.grid.pad_state@.len() ==> !(#[trigger] r.grid.pad_state@[i]).active,
    {
        Controls { running: false, mode: AppMode::MIDI, grid: Grid::new(GRID_ROWS, GRID_COLS) }
    }

    /// Handles one key press. A mapped key with no modifier lights its pad
    /// and returns the note to play; Escape and Control-C stop the main loop;
    /// Tab switches the mode.
    pub fn on_key(&mut self, k: KeyInput) -> (note: Option<u8>)
        requires
            old(self).wf(),
        ensures
            final(self).wf(),
            match pad_of(k) {
                Some((row, col)) => {
                    &&& note == Some((BASE_NOTE + row * GRID_COLS + col) as u8)
                    &&& forall|i: int|
                        0 <= i < final(self).grid.pad_state@.len() ==> (
                        #[trigger] final(self).grid.pad_state@[i]).active == (i == row * GRID_COLS
                            + col)
                },
                None => {
                    &&& note is None
                    &&& final(self).grid.pad_state == old(self).grid.pad_state
                },
            },
            final(self).running == (old(self).running && !quits(k)),
            final(self).mode == if k.key == Key::Tab {
                switched_spec(old(self).mode)
            } else {
                old(self).mode
            },
    {
        let mut note: Option<u8> = None;
        if let Key::Char(c) = k.key {
            if k.no_modifiers {
                if let Some((row, col)) = key_cell(c) {
                    self.grid.play(row, col);
                    note = Some(self.grid.note_number(row, col));
                }
            }
        }
        match k.key {
            Key::Esc => self.running = false,
            Key::Char(c) => {
                if k.control_only && (c == 'c' || c == 'C') {
                    self.running = false;
                }
            },
            Key::Tab => self.mode = self.mode.switched(),
            Key::Other => {},
        }
        note
    }
}

} // verus!
