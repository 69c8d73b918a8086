use vstd::prelude::*;

use crate::tile::Coord;
use crate::tile::CwRotation;

verus! {

/// The closed set of discrete actions the puzzle's transition function
/// consumes. Directional hole moves are named after the neighbouring tile
/// that slides into the hole; `MoveActive` slides the tile under the active
/// cursor if it borders the hole; the `Active*` actions edit the orientation
/// of the tile under the cursor.
#[derive(Clone, Copy, Debug, PartialEq, Eq, Hash, Structural)]
pub enum PuzzleAction {
    MoveLeft,
    MoveRight,
    MoveUp,
    MoveDown,
    MoveActive,
    MoveActiveLeft,
    MoveActiveRight,
    MoveActiveUp,
    MoveActiveDown,
    /// Make the tile carrying this view-layer handle the active one.
    SetActive(u64),
    ActiveFlipX,
    ActiveFlipY,
    ActiveRotateCW,
    ActiveRotateCCW,
    NoAction,
}

impl PuzzleAction {
    /// The action that undoes this one: directional moves and cursor moves
    /// swap with their opposite, rotations swap direction, and every other
    /// action is its own reverse.
    pub open spec fn spec_reverse(self) -> PuzzleAction {
        match self {
            PuzzleAction::MoveLeft => PuzzleAction::MoveRight,
            PuzzleAction::MoveRight => PuzzleAction::MoveLeft,
            PuzzleAction::MoveUp => PuzzleAction::MoveDown,
            PuzzleAction::MoveDown => PuzzleAction::MoveUp,
            PuzzleAction::MoveActiveLeft => PuzzleAction::MoveActiveRight,
            PuzzleAction::MoveActiveRight => PuzzleAction::MoveActiveLeft,
            PuzzleAction::MoveActiveUp => PuzzleAction::MoveActiveDown,
            PuzzleAction::MoveActiveDown => PuzzleAction::MoveActiveUp,
            PuzzleAction::ActiveRotateCW => PuzzleAction::ActiveRotateCCW,
            PuzzleAction::ActiveRotateCCW => PuzzleAction::ActiveRotateCW,
            _ => self,
        }
    }

    pub fn reverse(&self) -> (r: PuzzleAction)
        ensures
            r == self.spec_reverse(),
    {
        match self {
            PuzzleAction::MoveLeft => PuzzleAction::MoveRight,
            PuzzleAction::MoveRight => PuzzleAction::MoveLeft,
            PuzzleAction::MoveUp => PuzzleAction::MoveDown,
            PuzzleAction::MoveDown => PuzzleAction::MoveUp,
            PuzzleAction::MoveActiveLeft => PuzzleAction::MoveActiveRight,
            PuzzleAction::MoveActiveRight => PuzzleAction::MoveActiveLeft,
            PuzzleAction::MoveActiveUp => PuzzleAction::MoveActiveDown,
            PuzzleAction::MoveActiveDown => PuzzleAction::MoveActiveUp,
            PuzzleAction::ActiveRotateCW => PuzzleAction::ActiveRotateCCW,
            PuzzleAction::ActiveRotateCCW => PuzzleAction::ActiveRotateCW,
            _ => *self,
        }
    }
}

/// True for the four directional hole moves.
pub open spec fn is_directional_move(a: PuzzleAction) -> bool {
    ||| a is MoveLeft
    ||| a is MoveRight
    ||| a is MoveUp
    ||| a is MoveDown
}

/// True for every action the hole-move entry point accepts.
pub open spec fn is_hole_move(a: PuzzleAction) -> bool {
    is_directional_move(a) || a is MoveActive
}

/// True for the four active-cursor moves.
pub open spec fn is_active_move(a: PuzzleAction) -> bool {
    ||| a is MoveActiveLeft
    ||| a is MoveActiveRight
    ||| a is MoveActiveUp
    ||| a is MoveActiveDown
}

/// What one processed action did to the puzzle, with everything the view
/// layer needs to animate it.
#[derive(Clone, Copy, Debug, PartialEq, Eq, Structural)]
pub enum MoveOutcome {
    /// The action changed no cell: it was a no-op, clamped at a boundary,
    /// or arrived after the puzzle was solved.
    NoChange,
    /// A tile slid from `source` onto `destination` (the old hole cell).
    Moved { entity: Option<u64>, destination: Coord, source: Coord },
    /// Only the active cursor changed.
    ActiveChanged,
    /// The active tile flipped; `local_x` tells which tile-local axis.
    Flipped { entity: Option<u64>, local_x: bool },
    /// The active tile turned; `rotation` is its new rotation.
    Rotated { entity: Option<u64>, rotation: CwRotation },
}

/// The feedback classification of one grid cell, consumed by the view layer
/// to pick a highlight.
#[derive(Clone, Copy, Debug, PartialEq, Eq, Structural)]
pub enum OutlineStatus {
    Hidden,
    Active,
    Misplaced,
    Misoriented,
    MisplacedAndMisoriented,
}

} // verus!
