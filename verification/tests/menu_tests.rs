use taquin::Coord;
use taquin::GameState;
use taquin::Menu;
use taquin::MenuCommand;
use taquin::MenuEntry;
use taquin::menu_active_update;
use taquin::menu_event_handler;
use taquin::menu_interaction;
use taquin::puzzle_solved_interaction;
use taquin::setup_menu;
use taquin::transition_setup_to_menu;

fn menu() -> Menu {
    Menu::new(vec![
        (MenuEntry::Continue, 10),
        (MenuEntry::NewPuzzle, 11),
        (MenuEntry::Exit, 12),
    ])
}

#[test]
fn menu_starts_on_first_entry() {
    let m = menu();
    assert_eq!(m.get_active_entry(), MenuEntry::Continue);
}

#[test]
fn menu_next_and_prev_wrap_around() {
    let mut m = menu();
    m.set_next_active();
    assert_eq!(m.get_active_entry(), MenuEntry::NewPuzzle);
    m.set_next_active();
    assert_eq!(m.get_active_entry(), MenuEntry::Exit);
    m.set_next_active();
    assert_eq!(m.get_active_entry(), MenuEntry::Continue);
    m.set_prev_active();
    assert_eq!(m.get_active_entry(), MenuEntry::Exit);
    m.set_prev_active();
    assert_eq!(m.get_active_entry(), MenuEntry::NewPuzzle);
}

#[test]
fn menu_set_active_finds_entry() {
    let mut m = menu();
    m.set_active(&MenuEntry::Exit);
    assert_eq!(m.get_active_entry(), MenuEntry::Exit);
    // An entry that is not on the menu leaves the highlight alone.
    let mut two = Menu::new(vec![(MenuEntry::NewPuzzle, 1), (MenuEntry::Exit, 2)]);
    two.set_active(&MenuEntry::Continue);
    assert_eq!(two.get_active_entry(), MenuEntry::NewPuzzle);
}

#[test]
fn menu_active_update_flags_the_highlight() {
    let mut m = menu();
    m.set_next_active();
    let flags = menu_active_update(&m);
    assert_eq!(flags, vec![(10, false), (11, true), (12, false)]);
}

#[test]
fn menu_interaction_hover_click_and_keys() {
    let mut m = menu();
    // Hovering moves the highlight; clicking emits the clicked entry.
    let events = menu_interaction(&mut m, Some(MenuEntry::Exit), Some(MenuEntry::NewPuzzle), false, false, false);
    assert_eq!(events, vec![MenuEntry::NewPuzzle]);
    assert_eq!(m.get_active_entry(), MenuEntry::Exit);
    // The confirm key emits the highlighted entry after the key moves.
    let events = menu_interaction(&mut m, None, None, true, false, true);
    assert_eq!(events, vec![MenuEntry::Continue]);
    assert_eq!(m.get_active_entry(), MenuEntry::Continue);
    // No input, no events.
    let events = menu_interaction(&mut m, None, None, false, false, false);
    assert!(events.is_empty());
}

#[test]
fn button_labels() {
    assert_eq!(MenuEntry::Continue.button_text(), "Continue");
    assert_eq!(MenuEntry::NewPuzzle.button_text(), "New Puzzle");
    assert_eq!(MenuEntry::Exit.button_text(), "Exit");
}

#[test]
fn menu_event_handler_continue_and_exit() {
    assert_eq!(menu_event_handler(MenuEntry::Continue, None), MenuCommand::ResumePuzzle);
    assert_eq!(
        menu_event_handler(MenuEntry::Exit, Some(Coord { row: 3, col: 3 })),
        MenuCommand::Exit
    );
}

#[test]
fn menu_event_handler_grows_the_board() {
    // Without a current puzzle the game starts small and easy.
    match menu_event_handler(MenuEntry::NewPuzzle, None) {
        MenuCommand::StartPuzzle { size, n_moves, flip_ratio, rotation_ratio } => {
            assert_eq!(size, Coord { row: 3, col: 3 });
            assert_eq!(n_moves, 5);
            assert_eq!(flip_ratio, (0, 1));
            assert_eq!(rotation_ratio, (0, 1));
        }
        other => panic!("expected a new puzzle, got {:?}", other),
    }
    // Each round grows the board one row and column.
    match menu_event_handler(MenuEntry::NewPuzzle, Some(Coord { row: 4, col: 4 })) {
        MenuCommand::StartPuzzle { size, n_moves, flip_ratio, rotation_ratio } => {
            assert_eq!(size, Coord { row: 5, col: 5 });
            assert_eq!(n_moves, 100);
            assert_eq!(flip_ratio, (0, 1));
            assert_eq!(rotation_ratio, (1, 5));
        }
        other => panic!("expected a new puzzle, got {:?}", other),
    }
    match menu_event_handler(MenuEntry::NewPuzzle, Some(Coord { row: 5, col: 5 })) {
        MenuCommand::StartPuzzle { size, n_moves, flip_ratio, rotation_ratio } => {
            assert_eq!(size, Coord { row: 6, col: 6 });
            assert_eq!(n_moves, 1000);
            assert_eq!(flip_ratio, (1, 1));
            assert_eq!(rotation_ratio, (1, 1));
        }
        other => panic!("expected a new puzzle, got {:?}", other),
    }
    // The largest board wraps back to the smallest.
    match menu_event_handler(MenuEntry::NewPuzzle, Some(Coord { row: 7, col: 7 })) {
        MenuCommand::StartPuzzle { size, n_moves, .. } => {
            assert_eq!(size, Coord { row: 3, col: 3 });
            assert_eq!(n_moves, 5);
        }
        other => panic!("expected a new puzzle, got {:?}", other),
    }
}

#[test]
fn setup_menu_offers_continue_only_with_unsolved_puzzle() {
    assert_eq!(
        setup_menu(true),
        vec![MenuEntry::Continue, MenuEntry::NewPuzzle, MenuEntry::Exit]
    );
    assert_eq!(setup_menu(false), vec![MenuEntry::NewPuzzle, MenuEntry::Exit]);
}

#[test]
fn game_state_transitions() {
    assert_eq!(GameState::default(), GameState::Setup);
    assert_eq!(transition_setup_to_menu(), GameState::Menu);
    assert_eq!(puzzle_solved_interaction(false), None);
    assert_eq!(puzzle_solved_interaction(true), Some(GameState::Menu));
}
