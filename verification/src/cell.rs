//! The state of a single cell and its display color.

use vstd::prelude::*;

verus! {

/// The state of one cell of the Immigration automaton: dead, or alive with
/// an integer strain in `{1, 2, 3}`.
#[derive(Debug, Clone, Copy, PartialEq, Eq, Structural)]
pub enum ImmigrationCellState {
    /// A dead cell
    Dead,
    /// Alive cell with an integer sub-state, the strain
    Alive(i8),
}

/// The color a live cell is drawn with; one color per strain.
#[derive(Debug, Clone, Copy, PartialEq, Eq, Structural)]
pub enum CellColor {
    Pink,
    Aquamarine,
    Gold,
}

/// The color mapping consumed by a rendering host: dead cells are not drawn,
/// alive cells get one color per strain.
pub open spec fn color_of(state: ImmigrationCellState) -> Option<CellColor> {
    match state {
        ImmigrationCellState::Dead => None,
        ImmigrationCellState::Alive(b) => Some(
            if b == 1 {
                CellColor::Pink
            } else if b == 2 {
                CellColor::Aquamarine
            } else {
                CellColor::Gold
            },
        ),
    }
}

impl ImmigrationCellState {
    /// A state is well formed when an alive cell's strain lies in `{1, 2, 3}`.
    pub open spec fn wf(self) -> bool {
        match self {
            ImmigrationCellState::Dead => true,
            ImmigrationCellState::Alive(s) => 1 <= s <= 3,
        }
    }

    /// Is the cell considered alive
    pub fn is_alive(&self) -> (r: bool)
        ensures
            r == (*self is Alive),
    {
        matches!(self, ImmigrationCellState::Alive(_))
    }

    /// The color this cell is drawn with, if any.
    pub fn color(&self) -> (c: Option<CellColor>)
        ensures
            c == color_of(*self),
    {
        match self {
            ImmigrationCellState::Dead => None,
            ImmigrationCellState::Alive(b) => Some(
                if *b == 1 {
                    CellColor::Pink
                } else if *b == 2 {
                    CellColor::Aquamarine
                } else {
                    CellColor::Gold
                },
            ),
        }
    }
}

impl Default for ImmigrationCellState {
    /// A cell is dead by default.
    fn default() -> (r: Self)
        ensures
            r == ImmigrationCellState::Dead,
    {
        ImmigrationCellState::Dead
    }
}

} // verus!
