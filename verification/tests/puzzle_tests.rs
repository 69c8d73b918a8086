use rand::SeedableRng;
use rand::rngs::StdRng;
use taquin::Coord;
use taquin::CwRotation;
use taquin::GridError;
use taquin::MoveOutcome;
use taquin::Puzzle;
use taquin::PuzzleAction;
use taquin::dist_of_1;

fn rng() -> StdRng {
    StdRng::seed_from_u64(7)
}

fn fresh_3x3() -> Puzzle {
    Puzzle::new(0, 3, 3, false, &mut rng())
}

#[test]
fn new_puzzle_layout() {
    let p = fresh_3x3();
    assert_eq!(p.hole, Coord { row: 0, col: 2 });
    assert_eq!(p.active, p.hole);
    assert!(!p.is_solved);
    assert_eq!(p.actions_count, 0);
    assert_eq!(p.size(), Coord { row: 3, col: 3 });
    for row in 0..3 {
        for col in 0..3 {
            let c = Coord { row, col };
            let cell = p.tiles.get(c).expect("in bounds");
            if c == p.hole {
                assert!(cell.is_none());
            } else {
                let tile = cell.expect("every other cell holds a tile");
                assert_eq!(tile.position, c);
                assert!(tile.is_correctly_oriented());
            }
        }
    }
}

#[test]
fn random_hole_is_in_bounds() {
    let mut r = StdRng::seed_from_u64(99);
    let p = Puzzle::new(0, 4, 5, true, &mut r);
    assert!(p.hole.row < 5 && p.hole.col < 4);
    assert_eq!(p.active, p.hole);
    let cell = p.tiles.get(p.hole).expect("in bounds");
    assert!(cell.is_none());
}

#[test]
fn dist_of_1_examples() {
    assert!(dist_of_1(Coord { row: 0, col: 0 }, Coord { row: 0, col: 1 }));
    assert!(dist_of_1(Coord { row: 2, col: 1 }, Coord { row: 1, col: 1 }));
    assert!(!dist_of_1(Coord { row: 0, col: 0 }, Coord { row: 0, col: 0 }));
    assert!(!dist_of_1(Coord { row: 0, col: 0 }, Coord { row: 1, col: 1 }));
    assert!(!dist_of_1(Coord { row: 0, col: 0 }, Coord { row: 0, col: 2 }));
}

#[test]
fn move_event_slides_tile_into_hole() {
    let mut p = fresh_3x3();
    // The tile left of the hole slides right into it.
    let (entity, destination, source) = p.apply_move_event(PuzzleAction::MoveRight);
    assert_eq!(entity, None);
    assert_eq!(destination, Coord { row: 0, col: 2 });
    assert_eq!(source, Coord { row: 0, col: 1 });
    assert_eq!(p.hole, Coord { row: 0, col: 1 });
    assert_eq!(p.active, Coord { row: 0, col: 2 });
    let moved = p.tiles.get(destination).unwrap().expect("tile moved here");
    assert_eq!(moved.position, Coord { row: 0, col: 1 });
    assert!(p.tiles.get(p.hole).unwrap().is_none());
}

#[test]
fn clamped_move_event_reports_no_move() {
    let mut p = fresh_3x3();
    // The hole is already on the rightmost column: MoveLeft clamps.
    let (entity, destination, source) = p.apply_move_event(PuzzleAction::MoveLeft);
    assert_eq!(entity, None);
    assert_eq!(destination, p.hole);
    assert_eq!(source, p.hole);
    assert_eq!(p.hole, Coord { row: 0, col: 2 });
}

#[test]
fn boundary_clamp_leaves_hole_and_count() {
    let mut p = fresh_3x3();
    assert!(matches!(p.apply(PuzzleAction::MoveRight), MoveOutcome::Moved { .. }));
    assert_eq!(p.actions_count, 1);
    assert_eq!(p.hole, Coord { row: 0, col: 1 });
    // The hole sits on the top row: MoveUp would push it past the edge.
    let outcome = p.apply(PuzzleAction::MoveUp);
    assert!(matches!(outcome, MoveOutcome::NoChange));
    assert_eq!(p.hole, Coord { row: 0, col: 1 });
    assert_eq!(p.actions_count, 1);
}

#[test]
fn move_count_four_legal_then_clamped() {
    let mut p = fresh_3x3();
    assert_eq!(p.actions_count, 0);
    for action in [
        PuzzleAction::MoveRight,
        PuzzleAction::MoveRight,
        PuzzleAction::MoveDown,
        PuzzleAction::MoveDown,
    ] {
        assert!(matches!(p.apply(action), MoveOutcome::Moved { .. }));
    }
    assert_eq!(p.actions_count, 4);
    assert_eq!(p.hole, Coord { row: 2, col: 0 });
    // Clamped at the bottom-left corner: no tile displaced, no count.
    assert!(matches!(p.apply(PuzzleAction::MoveDown), MoveOutcome::NoChange));
    assert_eq!(p.actions_count, 4);
    assert_eq!(p.hole, Coord { row: 2, col: 0 });
}

#[test]
fn scripted_solve_sequence() {
    let mut p = fresh_3x3();
    // Displace one tile, then slide it back home with the reverse move.
    assert!(matches!(p.apply(PuzzleAction::MoveRight), MoveOutcome::Moved { .. }));
    assert!(!p.is_solved);
    assert!(matches!(p.apply(PuzzleAction::MoveLeft), MoveOutcome::Moved { .. }));
    assert!(p.is_solved);
    assert_eq!(p.actions_count, 2);
    assert_eq!(p.hole, Coord { row: 0, col: 2 });
}

#[test]
fn solved_flag_follows_arrangement() {
    let mut p = fresh_3x3();
    // On the fresh board the first structurally legal action of the
    // scripted sequence recomputes the flag over the untouched (and so
    // solved) arrangement; every later action is ignored.
    for action in [
        PuzzleAction::MoveLeft,
        PuzzleAction::MoveUp,
        PuzzleAction::MoveRight,
        PuzzleAction::MoveDown,
    ] {
        p.apply(action);
    }
    assert!(p.is_solved);
    assert_eq!(p.actions_count, 0);
    assert_eq!(p.hole, Coord { row: 0, col: 2 });
}

#[test]
fn actions_on_solved_puzzle_are_ignored() {
    let mut p = fresh_3x3();
    p.apply(PuzzleAction::NoAction);
    assert!(p.is_solved);
    let outcome = p.apply(PuzzleAction::MoveRight);
    assert!(matches!(outcome, MoveOutcome::NoChange));
    assert_eq!(p.hole, Coord { row: 0, col: 2 });
    assert_eq!(p.actions_count, 0);
}

#[test]
fn tile_conservation_across_moves() {
    let mut p = fresh_3x3();
    for action in [
        PuzzleAction::MoveRight,
        PuzzleAction::MoveDown,
        PuzzleAction::MoveLeft,
        PuzzleAction::MoveUp,
        PuzzleAction::MoveDown,
    ] {
        p.apply(action);
    }
    let mut homes: Vec<Coord> = Vec::new();
    let mut empties = 0;
    for row in 0..3 {
        for col in 0..3 {
            match p.tiles.get(Coord { row, col }).unwrap() {
                Some(tile) => homes.push(tile.position),
                None => empties += 1,
            }
        }
    }
    // One hole; the eight homes are exactly all coordinates minus the
    // initial hole's slot, each exactly once.
    assert_eq!(empties, 1);
    homes.sort_by_key(|c| (c.row, c.col));
    let mut expected: Vec<Coord> = Vec::new();
    for row in 0..3 {
        for col in 0..3 {
            if (row, col) != (0, 2) {
                expected.push(Coord { row, col });
            }
        }
    }
    assert_eq!(homes, expected);
}

#[test]
fn hole_tracks_empty_cell() {
    let mut p = fresh_3x3();
    for action in [PuzzleAction::MoveRight, PuzzleAction::MoveDown, PuzzleAction::MoveDown] {
        p.apply(action);
        for row in 0..3 {
            for col in 0..3 {
                let c = Coord { row, col };
                let cell = p.tiles.get(c).unwrap();
                if c == p.hole {
                    assert!(cell.is_none());
                } else {
                    assert!(cell.is_some());
                }
            }
        }
    }
}

#[test]
fn move_active_slides_the_cursor_tile() {
    let mut p = fresh_3x3();
    // Put the cursor on the tile left of the hole, then ask it to move.
    // (The cursor is moved through the raw entry point so that the solved
    // flag is not recomputed over the still-untouched arrangement.)
    p.apply_move_active_event(PuzzleAction::MoveActiveLeft);
    assert_eq!(p.active, Coord { row: 0, col: 1 });
    let outcome = p.apply(PuzzleAction::MoveActive);
    match outcome {
        MoveOutcome::Moved { destination, source, .. } => {
            assert_eq!(source, Coord { row: 0, col: 1 });
            assert_eq!(destination, Coord { row: 0, col: 2 });
        }
        other => panic!("expected a move, got {:?}", other),
    }
    assert_eq!(p.hole, Coord { row: 0, col: 1 });
}

#[test]
fn move_active_far_from_hole_is_noop() {
    let mut p = fresh_3x3();
    p.apply_move_active_event(PuzzleAction::MoveActiveLeft);
    p.apply_move_active_event(PuzzleAction::MoveActiveLeft);
    assert_eq!(p.active, Coord { row: 0, col: 0 });
    let outcome = p.apply(PuzzleAction::MoveActive);
    assert!(matches!(outcome, MoveOutcome::NoChange));
    assert_eq!(p.hole, Coord { row: 0, col: 2 });
}

#[test]
fn active_cursor_moves_clamp_and_count_nothing() {
    let mut p = fresh_3x3();
    p.apply_move_active_event(PuzzleAction::MoveActiveRight);
    // Already on the rightmost column.
    assert_eq!(p.active, Coord { row: 0, col: 2 });
    p.apply_move_active_event(PuzzleAction::MoveActiveDown);
    // MoveActiveDown steps the cursor towards row 0; already there.
    assert_eq!(p.active, Coord { row: 0, col: 2 });
    p.apply_move_active_event(PuzzleAction::MoveActiveUp);
    assert_eq!(p.active, Coord { row: 1, col: 2 });
    assert_eq!(p.actions_count, 0);
}

#[test]
fn convert_action_resolves_move_active() {
    let mut p = fresh_3x3();
    assert_eq!(p.convert_action(PuzzleAction::MoveActive), PuzzleAction::NoAction);
    assert_eq!(p.convert_action(PuzzleAction::MoveUp), PuzzleAction::MoveUp);
    p.apply_move_active_event(PuzzleAction::MoveActiveLeft);
    // hole (0,2) minus active (0,1): one column to the right.
    assert_eq!(p.convert_action(PuzzleAction::MoveActive), PuzzleAction::MoveRight);
}

#[test]
fn flip_on_unrotated_tile_acts_on_screen_axis() {
    let mut p = fresh_3x3();
    p.apply(PuzzleAction::MoveRight);
    // The moved tile is now active and unrotated.
    let outcome = p.apply(PuzzleAction::ActiveFlipX);
    match outcome {
        MoveOutcome::Flipped { local_x, .. } => assert!(local_x),
        other => panic!("expected a flip, got {:?}", other),
    }
    let t = p.get_active_tile().expect("active tile");
    assert!(t.flipped_x);
    assert!(!t.flipped_y);
    assert_eq!(p.actions_count, 2);
}

#[test]
fn flip_axis_remapped_on_quarter_turned_tile() {
    let mut p = fresh_3x3();
    p.apply(PuzzleAction::MoveRight);
    p.apply(PuzzleAction::ActiveRotateCW);
    let t = p.get_active_tile().expect("active tile");
    assert_eq!(t.rotation, CwRotation::R90);
    // A screen-X flip request acts on the tile-local Y axis at 90 degrees.
    let outcome = p.apply(PuzzleAction::ActiveFlipX);
    match outcome {
        MoveOutcome::Flipped { local_x, .. } => assert!(!local_x),
        other => panic!("expected a flip, got {:?}", other),
    }
    let t = p.get_active_tile().expect("active tile");
    assert!(!t.flipped_x);
    assert!(t.flipped_y);
    // And a screen-Y request acts on the tile-local X axis.
    p.apply(PuzzleAction::ActiveFlipY);
    let t = p.get_active_tile().expect("active tile");
    assert!(t.flipped_x);
    assert!(t.flipped_y);
}

#[test]
fn flip_axis_direct_on_half_turned_tile() {
    let mut p = fresh_3x3();
    p.apply(PuzzleAction::MoveRight);
    p.apply(PuzzleAction::ActiveRotateCW);
    p.apply(PuzzleAction::ActiveRotateCW);
    let t = p.get_active_tile().expect("active tile");
    assert_eq!(t.rotation, CwRotation::R180);
    p.apply(PuzzleAction::ActiveFlipX);
    let t = p.get_active_tile().expect("active tile");
    assert!(t.flipped_x);
    assert!(!t.flipped_y);
}

#[test]
fn rotation_pair_restores_orientation() {
    let mut p = fresh_3x3();
    p.apply(PuzzleAction::MoveRight);
    let before = p.get_active_tile().expect("active tile");
    p.apply(PuzzleAction::ActiveRotateCW);
    let mid = p.get_active_tile().expect("active tile");
    assert_eq!(mid.rotation, CwRotation::R90);
    p.apply(PuzzleAction::ActiveRotateCCW);
    let after = p.get_active_tile().expect("active tile");
    assert_eq!(after.rotation, before.rotation);
    assert_eq!(p.actions_count, 3);
}

#[test]
fn orientation_edits_on_hole_do_not_count() {
    let mut p = fresh_3x3();
    p.apply(PuzzleAction::MoveRight);
    assert_eq!(p.actions_count, 1);
    // Put the cursor back onto the hole.
    p.apply(PuzzleAction::MoveActiveLeft);
    assert_eq!(p.active, p.hole);
    assert!(matches!(p.apply(PuzzleAction::ActiveFlipX), MoveOutcome::NoChange));
    assert!(matches!(p.apply(PuzzleAction::ActiveRotateCW), MoveOutcome::NoChange));
    assert_eq!(p.actions_count, 1);
}

#[test]
fn set_active_entity_finds_the_tagged_tile() {
    let mut p = fresh_3x3();
    // Tag the tile at (1, 1) with a view-layer handle.
    let c = Coord { row: 1, col: 1 };
    let mut tile = p.tiles.take(c).unwrap().expect("occupied");
    tile.entity = Some(42);
    p.tiles.put(c, tile).unwrap();
    // Scramble once so the recomputed solved flag stays off.
    p.apply(PuzzleAction::MoveRight);
    p.apply(PuzzleAction::SetActive(42));
    assert_eq!(p.active, c);
    // An unknown handle is a silent no-op.
    p.apply(PuzzleAction::SetActive(1000));
    assert_eq!(p.active, c);
}

#[test]
fn grid_errors_are_typed() {
    let mut p = fresh_3x3();
    let outside = Coord { row: 9, col: 0 };
    assert_eq!(p.tiles.get(outside), None);
    assert_eq!(p.tiles.take(outside), Err(GridError::OutOfBounds));
    let spare = spare_tile();
    assert_eq!(p.tiles.put(outside, spare), Err(GridError::OutOfBounds));
    let occupied = Coord { row: 2, col: 2 };
    let spare = spare_tile();
    assert_eq!(p.tiles.put(occupied, spare), Err(GridError::Occupied));
    // The hole cell accepts a tile.
    let spare = spare_tile();
    assert_eq!(p.tiles.put(Coord { row: 0, col: 2 }, spare), Ok(()));
}

fn spare_tile() -> taquin::Tile {
    taquin::Tile::new(Coord { row: 0, col: 0 }, Coord { row: 3, col: 3 })
}
