//! A sliding-tile puzzle core (a "taquin"): a grid of picture tiles with
//! one hole, where tiles slide into the hole and can additionally be
//! flipped and rotated. The library owns the game rules — move legality
//! with boundary clamping, coupled flip/rotation orientation state with
//! its neutrality equivalence, solved-state detection, the shuffle walk
//! with reversal avoidance, and the per-cell feedback classification —
//! and proves that every transition keeps exactly one hole, in lock-step
//! with the recorded hole coordinate, and never duplicates or loses a
//! tile. Rendering, animation and input polling are left to a view layer,
//! which the core hands opaque handles and move descriptors.

use vstd::prelude::*;

mod action;
mod game_state;
mod laws;
mod menu;
mod puzzle;
mod rng;
mod tile;
mod tile_grid;
mod view;

pub use action::MoveOutcome;
pub use action::OutlineStatus;
pub use action::PuzzleAction;
pub use game_state::GameState;
pub use game_state::puzzle_solved_interaction;
pub use game_state::transition_setup_to_menu;
pub use laws::lemma_boundary_clamp_idempotent;
pub use laws::lemma_flip_axis_remapping;
pub use laws::lemma_reverse_move_round_trip;
pub use laws::lemma_reverse_rotation_round_trip;
pub use laws::lemma_rotation_involution;
pub use menu::Menu;
pub use menu::MenuCommand;
pub use menu::MenuEntry;
pub use menu::menu_active_update;
pub use menu::menu_event_handler;
pub use menu::menu_interaction;
pub use menu::setup_menu;
pub use puzzle::Puzzle;
pub use puzzle::ShuffleError;
pub use puzzle::dist_of_1;
pub use tile::Coord;
pub use tile::CwRotation;
pub use tile::MeshFlippingLens;
pub use tile::Tile;
pub use tile_grid::GridError;
pub use tile_grid::TileGrid;
pub use view::PuzzleView;

verus! {

} // verus!
