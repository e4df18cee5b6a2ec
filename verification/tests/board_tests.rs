use tetris_core::board::Board;
use tetris_core::shape::{Rgb, Shape};

const GRAY: Rgb = Rgb { r: 128, g: 128, b: 128 };

fn full_row(y: i32) -> Vec<(i32, i32)> {
    (0..10).map(|x| (x, y)).collect()
}

#[test]
fn boundaries_respect_the_upper_flag() {
    assert!(Board::is_on_board(0, 0, false));
    assert!(Board::is_on_board(9, 19, false));
    assert!(!Board::is_on_board(-1, 5, false));
    assert!(!Board::is_on_board(10, 5, false));
    assert!(!Board::is_on_board(5, -1, false));
    assert!(!Board::is_on_board(5, 20, false));
    assert!(Board::is_on_board(5, 20, true));
    assert!(Board::is_on_board(5, 100, true));
    assert!(!Board::is_on_board(-1, 100, true));
}

#[test]
fn clamping_binds_to_the_board_range() {
    let mut x = -3;
    let mut y = -2;
    Board::clamp_to_board(&mut x, &mut y);
    assert_eq!((x, y), (0, 0));
    let mut x = 12;
    let mut y = 25;
    Board::clamp_to_board(&mut x, &mut y);
    assert_eq!((x, y), (9, 25));
    let mut x = 4;
    let mut y = 7;
    Board::clamp_to_board(&mut x, &mut y);
    assert_eq!((x, y), (4, 7));
}

#[test]
fn placed_cells_become_occupied_with_their_color() {
    let mut board = Board::new();
    assert!(!board.is_occupied(3, 5));
    board.place(&vec![(3, 5), (4, 5)], GRAY);
    assert!(board.is_occupied(3, 5));
    assert!(board.is_occupied(4, 5));
    assert!(!board.is_occupied(5, 5));
    assert_eq!(board.cell(3, 5), Some(GRAY));
    assert_eq!(board.cell(5, 5), None);
    assert_eq!(board.count_occupied_in_row(5), 2);
    assert_eq!(board.count_occupied_in_row(4), 0);
}

#[test]
fn positions_outside_the_grid_are_free() {
    let board = Board::new();
    assert!(!board.is_occupied(-1, 0));
    assert!(!board.is_occupied(10, 0));
    assert!(!board.is_occupied(0, -1));
    assert!(!board.is_occupied(0, 24));
}

#[test]
fn tenth_cell_triggers_exactly_one_clear_and_a_single_shift() {
    let mut board = Board::new();
    // nine cells in row 0, plus a cell resting above in rows 1 and 5
    board.place(&(0..9).map(|x| (x, 0)).collect(), GRAY);
    board.place(&vec![(3, 1), (3, 5)], GRAY);
    let none = board.clear_full_rows();
    assert_eq!(none, 0);
    // the tenth cell fills row 0
    board.place(&vec![(9, 0)], GRAY);
    assert_eq!(board.count_occupied_in_row(0), 10);
    let cleared = board.clear_full_rows();
    assert_eq!(cleared, 1);
    // everything above dropped by exactly one row
    assert!(board.is_occupied(3, 0));
    assert!(!board.is_occupied(3, 1));
    assert!(board.is_occupied(3, 4));
    assert!(!board.is_occupied(3, 5));
    assert_eq!(board.count_occupied_in_row(0), 1);
}

#[test]
fn four_rows_clear_simultaneously() {
    let mut board = Board::new();
    for y in 0..4 {
        board.place(&full_row(y), GRAY);
    }
    board.place(&vec![(7, 4), (7, 6)], GRAY);
    let cleared = board.clear_full_rows();
    assert_eq!(cleared, 4);
    // the stack above dropped by four rows in one step
    assert!(board.is_occupied(7, 0));
    assert!(board.is_occupied(7, 2));
    assert!(!board.is_occupied(7, 4));
    assert!(!board.is_occupied(7, 6));
    for y in 3..20 {
        if y != 7 {
            assert_eq!(board.count_occupied_in_row(y as usize), 0);
        }
    }
}

#[test]
fn gapped_full_rows_shift_by_their_own_count() {
    let mut board = Board::new();
    board.place(&full_row(1), GRAY);
    board.place(&full_row(3), GRAY);
    board.place(&vec![(0, 0), (1, 2), (2, 4)], GRAY);
    let cleared = board.clear_full_rows();
    assert_eq!(cleared, 2);
    assert!(board.is_occupied(0, 0));
    assert!(board.is_occupied(1, 1));
    assert!(board.is_occupied(2, 2));
    assert_eq!(board.count_occupied_in_row(3), 0);
}
