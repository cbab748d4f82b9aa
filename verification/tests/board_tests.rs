use tatic_client::Board;
use tatic_client::BoardRenderer;
use tatic_client::Cell;
use tatic_client::Coord;
use tatic_client::Unit;

#[test]
fn test_board_renderer_ascii() {
    let board = Board::with_initial_setup();
    let ascii = BoardRenderer::render_ascii(&board);

    assert!(ascii.contains("X")); // Player 1 units
    assert!(ascii.contains("O")); // Player 2 units
    assert!(ascii.contains("0 1 2 3 4 5 6 7")); // Header
}

#[test]
fn initial_setup_exact_picture() {
    let board = Board::with_initial_setup();
    let ascii = BoardRenderer::render_ascii(&board);
    let expected = "  0 1 2 3 4 5 6 7\n\
                    0 . . O O O O . .\n\
                    1 . . . . . . . .\n\
                    2 . . . . . . . .\n\
                    3 . . . . . . . .\n\
                    4 . . . . . . . .\n\
                    5 . . . . . . . .\n\
                    6 . . . . . . . .\n\
                    7 . . X X X X . .";
    assert_eq!(ascii, expected);
}

#[test]
fn initial_setup_ownership() {
    let board = Board::with_initial_setup();
    match board.get(&Coord::new(2, 7)) {
        Some(Cell::Unit(u)) => {
            assert_eq!(u.owner, "player1");
            assert_eq!(u.symbol, 'X');
        }
        other => panic!("expected a unit at (2,7), found {:?}", other),
    }
    match board.get(&Coord::new(5, 0)) {
        Some(Cell::Unit(u)) => {
            assert_eq!(u.owner, "player2");
            assert_eq!(u.symbol, 'O');
        }
        other => panic!("expected a unit at (5,0), found {:?}", other),
    }
    assert_eq!(board.get(&Coord::new(4, 4)), Some(&Cell::Empty));
}

#[test]
fn empty_board_renders_dots() {
    let board = Board::empty();
    let ascii = BoardRenderer::render_ascii(&board);
    assert!(!ascii.contains('X'));
    assert!(!ascii.contains('O'));
    assert!(ascii.starts_with("  0 1 2 3 4 5 6 7\n0 . . . . . . . ."));
    assert_eq!(ascii.lines().count(), 9);
}

#[test]
fn from_cells_demands_full_grid() {
    assert!(Board::from_cells(vec![Cell::Empty; 64]).is_some());
    assert!(Board::from_cells(vec![Cell::Empty; 63]).is_none());
    assert!(Board::from_cells(Vec::new()).is_none());
}

#[test]
fn get_out_of_bounds_is_none() {
    let board = Board::empty();
    assert_eq!(board.get(&Coord::new(8, 0)), None);
    assert_eq!(board.get(&Coord::new(0, 8)), None);
    assert!(board.get(&Coord::new(7, 7)).is_some());
}

#[test]
fn set_cell_replaces_one_square() {
    let mut board = Board::empty();
    let unit = Unit { owner: String::from("player1"), symbol: 'X' };
    board.set_cell(Coord::new(3, 4), Cell::Unit(unit.clone()));
    assert_eq!(board.get(&Coord::new(3, 4)), Some(&Cell::Unit(unit)));
    assert_eq!(board.get(&Coord::new(4, 3)), Some(&Cell::Empty));
}
