use rand::SeedableRng;
use rand::rngs::StdRng;
use taquin::Coord;
use taquin::Puzzle;
use taquin::PuzzleAction;
use taquin::ShuffleError;

#[test]
fn shuffle_walk_has_requested_length() {
    let mut rng = StdRng::seed_from_u64(1);
    let mut p = Puzzle::new(0, 4, 4, false, &mut rng);
    let moves = p.shuffle(40, (0, 1), (0, 1), &mut rng).expect("4x4 always shuffles");
    assert_eq!(moves.len(), 40);
    for m in &moves {
        assert!(matches!(
            m,
            PuzzleAction::MoveLeft
                | PuzzleAction::MoveRight
                | PuzzleAction::MoveUp
                | PuzzleAction::MoveDown
        ));
    }
}

#[test]
fn shuffle_never_undoes_the_previous_move() {
    let mut rng = StdRng::seed_from_u64(2);
    let mut p = Puzzle::new(0, 5, 5, false, &mut rng);
    let moves = p.shuffle(200, (1, 2), (1, 2), &mut rng).expect("5x5 always shuffles");
    assert_eq!(moves.len(), 200);
    for i in 1..moves.len() {
        assert_ne!(moves[i], moves[i - 1].reverse(), "reversal at step {}", i);
    }
}

#[test]
fn shuffle_resets_cursor_and_flag() {
    let mut rng = StdRng::seed_from_u64(3);
    let mut p = Puzzle::new(0, 3, 3, false, &mut rng);
    p.shuffle(25, (1, 1), (1, 1), &mut rng).expect("3x3 always shuffles");
    assert_eq!(p.active, p.hole);
    assert!(!p.is_solved);
    assert_eq!(p.actions_count, 0);
    assert_eq!(p.size(), Coord { row: 3, col: 3 });
}

#[test]
fn shuffle_keeps_one_hole_and_all_tiles() {
    let mut rng = StdRng::seed_from_u64(4);
    let mut p = Puzzle::new(0, 4, 3, false, &mut rng);
    p.shuffle(60, (1, 3), (1, 3), &mut rng).expect("3x4 always shuffles");
    let mut homes: Vec<Coord> = Vec::new();
    let mut empties = 0;
    for row in 0..3 {
        for col in 0..4 {
            match p.tiles.get(Coord { row, col }).unwrap() {
                Some(tile) => homes.push(tile.position),
                None => empties += 1,
            }
        }
    }
    assert_eq!(empties, 1);
    assert_eq!(homes.len(), 11);
    homes.sort_by_key(|c| (c.row, c.col));
    homes.dedup();
    assert_eq!(homes.len(), 11, "no home may appear twice");
}

#[test]
fn shuffle_on_single_cell_fails_fast() {
    let mut rng = StdRng::seed_from_u64(5);
    let mut p = Puzzle::new(0, 1, 1, false, &mut rng);
    let result = p.shuffle(2, (0, 1), (0, 1), &mut rng);
    assert_eq!(result, Err(ShuffleError::NoLegalMove));
    assert_eq!(p.active, p.hole);
    assert!(!p.is_solved);
}

#[test]
fn empty_shuffle_is_allowed() {
    let mut rng = StdRng::seed_from_u64(6);
    let mut p = Puzzle::new(0, 1, 1, false, &mut rng);
    let moves = p.shuffle(0, (0, 1), (0, 1), &mut rng).expect("no steps asked");
    assert!(moves.is_empty());
}

#[test]
fn zero_ratios_never_perturb_orientation() {
    let mut rng = StdRng::seed_from_u64(11);
    let mut p = Puzzle::new(0, 4, 4, false, &mut rng);
    p.shuffle(80, (0, 7), (0, 9), &mut rng).expect("4x4 always shuffles");
    for row in 0..4 {
        for col in 0..4 {
            if let Some(tile) = p.tiles.get(Coord { row, col }).unwrap() {
                assert!(tile.is_correctly_oriented());
            }
        }
    }
}

#[test]
fn full_ratios_perturb_orientation() {
    let mut rng = StdRng::seed_from_u64(12);
    let mut p = Puzzle::new(0, 4, 4, false, &mut rng);
    // With probability one, every step flips and rotates the moved tile.
    p.shuffle(120, (1, 1), (1, 1), &mut rng).expect("4x4 always shuffles");
    let mut touched = 0;
    for row in 0..4 {
        for col in 0..4 {
            if let Some(tile) = p.tiles.get(Coord { row, col }).unwrap() {
                if !tile.is_correctly_oriented() {
                    touched += 1;
                }
            }
        }
    }
    assert!(touched > 0, "a long full-strength shuffle left every tile neutral");
}

#[test]
fn shuffled_puzzle_can_be_solved_by_replaying_in_reverse() {
    let mut rng = StdRng::seed_from_u64(8);
    let mut p = Puzzle::new(0, 3, 3, false, &mut rng);
    // No orientation perturbation, so undoing the walk solves the board.
    let moves = p.shuffle(12, (0, 1), (0, 1), &mut rng).expect("3x3 always shuffles");
    for m in moves.iter().rev() {
        p.apply_move_event(m.reverse());
    }
    p.apply(PuzzleAction::NoAction);
    assert!(p.is_solved);
    assert_eq!(p.hole, Coord { row: 0, col: 2 });
}
