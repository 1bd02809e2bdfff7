//! The pad grid of the terminal front end, its key map, and the front end's
//! mode.

use vstd::prelude::*;

verus! {

/// Whether a pad is lit.
#[derive(Clone, Copy, Debug, PartialEq, Eq, Structural)]
pub struct PadState {
    pub active: bool,
}

/// What a pad plays.
#[derive(Clone, Copy, Debug, PartialEq, Eq, Structural)]
pub struct PadConfig {
    pub note: u32,
    pub velocity: u32,
}

/// A `rows` by `cols` grid of pads, stored row by row.
#[derive(Debug)]
pub struct Grid {
    pub cols: usize,
    pub rows: usize,
    pub active_cell: usize,
    pub pad_state: Vec<PadState>,
    pub pad_config: Vec<PadConfig>,
}

/// The lowest note of the grid: the pad in the first row and column.
pub const BASE_NOTE: u8 = 36;

impl Grid {
    /// One state and one configuration per pad.
    pub open spec fn wf(&self) -> bool {
        &&& self.pad_state@.len() == self.rows * self.cols
        &&& self.pad_config@.len() == self.rows * self.cols
    }

    /// The position of a pad in the row-by-row storage.
    pub open spec fn index_of(&self, row: usize, col: usize) -> int {
        row * self.cols + col
    }

    /// A grid of unlit pads that play note 0 at velocity 0.
    pub fn new(rows: usize, cols: usize) -> (r: Self)
        requires
            rows * cols <= usize::MAX,
        ensures
            r.wf(),
            r.rows == rows,
            r.cols == cols,
            r.active_cell == 0,
            forall|i: int| 0 <= i < rows * cols ==> !(#[trigger] r.pad_state@[i]).active,
            forall|i: int|
                0 <= i < rows * cols ==> #[trigger] r.pad_config@[i] == (PadConfig {
                    note: 0,
                    velocity: 0,
                }),
    {
        let n: usize = rows * cols;
        let mut pad_state: Vec<PadState> = Vec::new();
        let mut pad_config: Vec<PadConfig> = Vec::new();
        let mut i: usize = 0;
        while i < n
            invariant
                i <= n,
                pad_state@.len() == i,
                pad_config@.len() == i,
                forall|j: int| 0 <= j < i ==> !(#[trigger] pad_state@[j]).active,
                forall|j: int|
                    0 <= j < i ==> #[trigger] pad_config@[j] == (PadConfig {
                        note: 0,
                        velocity: 0,
                    }),
            decreases n - i,
        {
            pad_state.push(PadState { active: false });
            pad_config.push(PadConfig { note: 0, velocity: 0 });
            i = i + 1;
        }
        Grid { cols, rows, active_cell: 0, pad_state, pad_config }
    }

    /// The position of the pad at `row`, `col` in the row-by-row storage.
    pub fn grid_index(&self, row: usize, col: usize) -> (r: usize)
        requires
            self.index_of(row, col) <= usize::MAX,
        ensures
            r == self.index_of(row, col),
    {
        proof {
            assert(row * self.cols <= row * self.cols + col);
        }
        row * self.cols + col
    }

    /// Lights the pad at `row`, `col` and puts out every other one.
    pub fn play(&mut self, row: usize, col: usize)
        requires
            old(self).wf(),
            old(self).index_of(row, col) <= usize::MAX,
        ensures
            final(self).wf(),
            final(self).rows == old(self).rows,
            final(self).cols == old(self).cols,
            final(self).active_cell == old(self).active_cell,
            final(self).pad_config == old(self).pad_config,
            forall|i: int|
                0 <= i < final(self).pad_state@.len() ==> (#[trigger] final(self).pad_state@[i]).active
                    == (i == old(self).index_of(row, col)),
    {
        let g = self.grid_index(row, col);
        let n: usize = self.pad_state.len();
        let mut i: usize = 0;
        while i < n
            invariant
                i <= n,
                n == self.pad_state@.len(),
                self.wf(),
                self.rows == old(self).rows,
                self.cols == old(self).cols,
                self.active_cell == old(self).active_cell,
                self.pad_config == old(self).pad_config,
                g == old(self).index_of(row, col),
                forall|j: int| 0 <= j < i ==> (#[trigger] self.pad_state@[j]).active == (j == g),
            decreases n - i,
        {
            self.pad_state.set(i, PadState { active: i == g });
            i = i + 1;
        }
    }

    /// The note that the pad at `row`, `col` plays from the keyboard: the
    /// grid counts up in semitones from the base note, its position taken
    /// modulo 256.
    pub fn note_number(&self, row: usize, col: usize) -> (r: u8)
        requires
            self.index_of(row, col) <= usize::MAX,
            (self.index_of(row, col) % 256) + BASE_NOTE <= u8::MAX,
        ensures
            r == BASE_NOTE + self.index_of(row, col) % 256,
    {
        let g = self.grid_index(row, col);
        BASE_NOTE + (g % 256) as u8
    }
}

/// The front end's mode.
#[derive(Clone, Copy, Debug, PartialEq, Eq, Structural, Default)]
pub enum AppMode {
    #[default]
    MIDI,
    Synth,
    Edit,
}

/// The mode that a mode switch leads to: MIDI and Synth alternate, and
/// editing stays where it is.
pub open spec fn switched_spec(m: AppMode) -> AppMode {
    match m {
        AppMode::MIDI => AppMode::Synth,
        AppMode::Synth => AppMode::MIDI,
        AppMode::Edit => AppMode::Edit,
    }
}

impl AppMode {
    /// The mode that a mode switch leads to.
    pub fn switched(&self) -> (r: AppMode)
        ensures
            r == switched_spec(*self),
    {
        match self {
            AppMode::MIDI => AppMode::Synth,
            AppMode::Synth => AppMode::MIDI,
            AppMode::Edit => AppMode::Edit,
        }
    }

    /// The mode's name as the title bar shows it.
    pub fn label(&self) -> (r: &'static str)
        ensures
            *self == AppMode::MIDI ==> r@ == "MIDI"@,
            *self == AppMode::Synth ==> r@ == "Synth"@,
            *self == AppMode::Edit ==> r@ == "Synth (EDITING)"@,
    {
        match self {
            AppMode::MIDI => "MIDI",
            AppMode::Synth => "Synth",
            AppMode::Edit => "Synth (EDITING)",
        }
    }
}

} // verus!
