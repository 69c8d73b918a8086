use rand::SeedableRng;
use rand::rngs::StdRng;
use taquin::Coord;
use taquin::OutlineStatus;
use taquin::Puzzle;
use taquin::PuzzleAction;

fn fresh_3x3() -> Puzzle {
    let mut rng = StdRng::seed_from_u64(7);
    Puzzle::new(0, 3, 3, false, &mut rng)
}

fn status_at(outlines: &[(Option<u64>, OutlineStatus)], c: Coord) -> OutlineStatus {
    outlines[c.row * 3 + c.col].1
}

#[test]
fn fresh_board_shows_only_the_hole_marker() {
    let p = fresh_3x3();
    let (outlines, hole_marker) = p.show_outlines();
    assert_eq!(outlines.len(), 9);
    assert!(hole_marker, "the cursor starts on the hole");
    for (entity, status) in &outlines {
        assert_eq!(*entity, None);
        assert_eq!(*status, OutlineStatus::Hidden);
    }
}

#[test]
fn moved_tile_is_highlighted_as_active() {
    let mut p = fresh_3x3();
    p.apply(PuzzleAction::MoveRight);
    let (outlines, hole_marker) = p.show_outlines();
    assert!(!hole_marker);
    assert_eq!(status_at(&outlines, Coord { row: 0, col: 2 }), OutlineStatus::Active);
    assert_eq!(status_at(&outlines, Coord { row: 1, col: 1 }), OutlineStatus::Hidden);
}

#[test]
fn error_display_classifies_misplaced_and_misoriented() {
    let mut p = fresh_3x3();
    p.apply(PuzzleAction::MoveRight);
    p.show_errors = true;
    let (outlines, _) = p.show_outlines();
    // The moved tile is off its home cell.
    assert_eq!(
        status_at(&outlines, Coord { row: 0, col: 2 }),
        OutlineStatus::Misplaced
    );
    // Everything else is still in place and clean.
    assert_eq!(status_at(&outlines, Coord { row: 2, col: 2 }), OutlineStatus::Hidden);

    // Rotating the moved tile makes it misoriented as well.
    p.apply(PuzzleAction::ActiveRotateCW);
    let (outlines, _) = p.show_outlines();
    assert_eq!(
        status_at(&outlines, Coord { row: 0, col: 2 }),
        OutlineStatus::MisplacedAndMisoriented
    );

    // A tile that is home but flipped is only misoriented.
    p.apply(PuzzleAction::MoveActiveUp);
    p.apply(PuzzleAction::ActiveFlipX);
    let (outlines, _) = p.show_outlines();
    assert_eq!(
        status_at(&outlines, Coord { row: 1, col: 2 }),
        OutlineStatus::Misoriented
    );
}

#[test]
fn solved_board_shows_no_outlines() {
    let mut p = fresh_3x3();
    p.show_errors = true;
    p.apply(PuzzleAction::MoveRight);
    p.apply(PuzzleAction::MoveLeft);
    assert!(p.is_solved);
    let (outlines, _) = p.show_outlines();
    for (_, status) in &outlines {
        assert_eq!(*status, OutlineStatus::Hidden);
    }
}
