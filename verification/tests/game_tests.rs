use tetris_core::board::Board;
use tetris_core::game::{
    check_lines, level_up, place_piece, restart, spawn_pieces, Game, GameState,
    PieceSelectionResource, Sound,
};
use tetris_core::input::{piece_movement_input, InputState};
use tetris_core::motion::move_pieces;
use tetris_core::piece::Piece;
use tetris_core::score::ScoreResource;
use tetris_core::shape::{Rgb, Shape};
use tetris_core::timer::{DropInputTimer, FallTimer, InputTimer, TickTimer};

const GRAY: Rgb = Rgb { r: 128, g: 128, b: 128 };

fn timers() -> (FallTimer, InputTimer, DropInputTimer) {
    (
        FallTimer(TickTimer::new(1_000_000)),
        InputTimer(TickTimer::new(125_000)),
        DropInputTimer(TickTimer::new(50_000)),
    )
}

#[test]
fn gravity_moves_the_piece_down_one_row() {
    let mut piece = Piece::spawn(Shape::O, 0);
    let board = Board::new();
    let (mut ft, mut it, mut dt) = timers();
    let input = InputState::none();
    let placed = move_pieces(&mut piece, &board, &mut ft, &mut it, &mut dt, &input, 1_000_000);
    assert!(!placed);
    assert_eq!(piece.y, 17);
    assert_eq!(piece.x, 4);
    assert_eq!(piece.dropped_pixels, 0);
}

#[test]
fn sideways_movement_stops_at_the_wall() {
    let mut piece = Piece::spawn(Shape::O, 0);
    let board = Board::new();
    let (mut ft, mut it, mut dt) = timers();
    let mut input = InputState::none();
    input.left_jp = true;
    for _ in 0..10 {
        move_pieces(&mut piece, &board, &mut ft, &mut it, &mut dt, &input, 0);
    }
    assert_eq!(piece.x, 0);
    for seg in &piece.segments {
        assert!(seg.0 >= 0 && seg.0 <= 9);
    }
}

#[test]
fn rotation_is_rejected_when_a_cell_would_leave_the_board() {
    let mut piece = Piece::spawn(Shape::I, 0);
    let board = Board::new();
    let (mut ft, mut it, mut dt) = timers();
    let mut input = InputState::none();
    input.left_jp = true;
    for _ in 0..3 {
        move_pieces(&mut piece, &board, &mut ft, &mut it, &mut dt, &input, 0);
    }
    assert_eq!(piece.x, 1);
    // the horizontal orientation would reach column -1 from here
    let mut input = InputState::none();
    input.rotate_clockwise_jp = true;
    move_pieces(&mut piece, &board, &mut ft, &mut it, &mut dt, &input, 0);
    assert_eq!(piece.rotation, 0);
    // one column to the right it fits
    let mut input = InputState::none();
    input.right_jp = true;
    move_pieces(&mut piece, &board, &mut ft, &mut it, &mut dt, &input, 0);
    let mut input = InputState::none();
    input.rotate_clockwise_jp = true;
    move_pieces(&mut piece, &board, &mut ft, &mut it, &mut dt, &input, 0);
    assert_eq!(piece.rotation, 1);
    assert_eq!(piece.segments, vec![(0, 18), (1, 18), (2, 18), (3, 18)]);
}

#[test]
fn rotation_is_rejected_when_a_cell_would_overlap_the_stack() {
    let mut board = Board::new();
    board.place(&vec![(5, 18)], GRAY);
    let mut piece = Piece::spawn(Shape::T, 0);
    let (mut ft, mut it, mut dt) = timers();
    let mut input = InputState::none();
    input.rotate_anticlockwise_jp = true;
    move_pieces(&mut piece, &board, &mut ft, &mut it, &mut dt, &input, 0);
    assert_eq!(piece.rotation, 0);
    // on an empty board the same rotation is accepted
    let empty = Board::new();
    let mut piece = Piece::spawn(Shape::T, 0);
    move_pieces(&mut piece, &empty, &mut ft, &mut it, &mut dt, &input, 0);
    assert_eq!(piece.rotation, 3);
}

#[test]
fn horizontal_move_into_the_stack_is_blocked_without_placement() {
    let mut board = Board::new();
    board.place(&vec![(6, 18), (6, 19)], GRAY);
    let mut piece = Piece::spawn(Shape::O, 0);
    let (mut ft, mut it, mut dt) = timers();
    let mut input = InputState::none();
    input.right_jp = true;
    let placed = move_pieces(&mut piece, &board, &mut ft, &mut it, &mut dt, &input, 0);
    assert!(!placed);
    assert_eq!(piece.x, 4);
}

#[test]
fn diagonal_move_into_the_stack_places_the_piece() {
    let mut board = Board::new();
    board.place(&vec![(6, 17)], GRAY);
    let mut piece = Piece::spawn(Shape::O, 0);
    let (mut ft, mut it, mut dt) = timers();
    let mut input = InputState::none();
    input.right_jp = true;
    // gravity fires in the same tick, so the move is diagonal
    let placed = move_pieces(&mut piece, &board, &mut ft, &mut it, &mut dt, &input, 1_000_000);
    assert!(placed);
    assert_eq!(piece.x, 5);
    assert_eq!(piece.y, 18);
}

#[test]
fn input_edges_reset_the_repeat_timers() {
    let mut it = InputTimer(TickTimer::new(100));
    let mut dt = DropInputTimer(TickTimer::new(100));
    it.0.tick(60);
    dt.0.tick(60);
    let mut input = InputState::none();
    input.left_jp = true;
    piece_movement_input(&input, &mut it, &mut dt);
    assert!(!it.0.tick(50));
    assert!(dt.0.tick(50));
}

#[test]
fn a_held_key_repeats_on_the_input_cadence() {
    let mut piece = Piece::spawn(Shape::O, 0);
    let board = Board::new();
    let (mut ft, mut it, mut dt) = timers();
    let mut edge = InputState::none();
    edge.left = true;
    edge.left_jp = true;
    piece_movement_input(&edge, &mut it, &mut dt);
    move_pieces(&mut piece, &board, &mut ft, &mut it, &mut dt, &edge, 1);
    assert_eq!(piece.x, 3);
    let mut held = InputState::none();
    held.left = true;
    // the repeat delay has not elapsed yet
    move_pieces(&mut piece, &board, &mut ft, &mut it, &mut dt, &held, 100_000);
    assert_eq!(piece.x, 3);
    // it elapses within this tick
    move_pieces(&mut piece, &board, &mut ft, &mut it, &mut dt, &held, 30_000);
    assert_eq!(piece.x, 2);
}

#[test]
fn spawning_promotes_the_queued_piece_and_refills_the_queue() {
    let mut gs = GameState { started: true, starting_level: 0, level: 0, has_piece: false };
    let mut sel = PieceSelectionResource { next_piece: None };
    let mut active: Option<Piece> = None;
    spawn_pieces(&mut gs, &mut sel, &mut active);
    assert!(gs.has_piece);
    let p = active.take().unwrap();
    assert!(p.rotation <= 3);
    assert_eq!((p.x, p.y), (4, 18));
    assert_eq!(p.dropped_pixels, 0);
    let queued = sel.next_piece.as_ref().unwrap();
    let (qs, qr) = (queued.shape, queued.rotation);
    assert!(qr <= 3);
    gs.has_piece = false;
    spawn_pieces(&mut gs, &mut sel, &mut active);
    let p2 = active.take().unwrap();
    assert_eq!(p2.shape, qs);
    assert_eq!(p2.rotation, qr);
}

#[test]
fn placement_near_the_spawn_row_loses_the_game() {
    let mut active = Some(Piece::spawn(Shape::O, 0));
    let mut board = Board::new();
    let mut gs = GameState { started: true, starting_level: 1, level: 1, has_piece: true };
    let mut score = ScoreResource::new();
    let lost = place_piece(&mut active, &mut board, &mut gs, &mut score);
    assert!(lost);
    assert!(active.is_none());
    assert!(gs.has_piece);
    assert!(board.is_occupied(4, 18));
    restart(&mut active, &mut board, &mut gs, &mut score);
    assert!(!gs.has_piece);
    assert_eq!(gs.level, 1);
    assert!(!board.is_occupied(4, 18));
    assert_eq!(score.score(), 0);
}

#[test]
fn placement_low_on_the_board_keeps_playing() {
    let mut piece = Piece::spawn(Shape::O, 0);
    piece.y = 0;
    piece.segments = vec![(4, 0), (4, 1), (5, 0), (5, 1)];
    piece.dropped_pixels = 3;
    let mut active = Some(piece);
    let mut board = Board::new();
    let mut gs = GameState { started: true, starting_level: 1, level: 1, has_piece: true };
    let mut score = ScoreResource::new();
    let lost = place_piece(&mut active, &mut board, &mut gs, &mut score);
    assert!(!lost);
    assert!(!gs.has_piece);
    assert_eq!(score.score(), 3 * 2);
    assert!(board.is_occupied(4, 0));
    assert!(board.is_occupied(5, 1));
}

#[test]
fn first_level_up_fires_exactly_at_twenty_lines() {
    // nineteen cumulative lines do not level up from starting level one
    let gs = GameState { started: true, starting_level: 1, level: 1, has_piece: false };
    let mut score = ScoreResource::new();
    for _ in 0..4 {
        score.reward_line_score(4, 1);
    }
    let mut board = Board::new();
    for y in 0..3 {
        board.place(&(0..10).map(|x| (x, y)).collect(), GRAY);
    }
    let (cleared, leveled) = check_lines(&mut board, &gs, &mut score);
    assert_eq!(cleared, 3);
    assert_eq!(score.lines(), 19);
    assert!(!leveled);
    // the twentieth line triggers it
    let mut board = Board::new();
    board.place(&(0..10).map(|x| (x, 0)).collect(), GRAY);
    let (cleared, leveled) = check_lines(&mut board, &gs, &mut score);
    assert_eq!(cleared, 1);
    assert_eq!(score.lines(), 20);
    assert!(leveled);
}

#[test]
fn level_up_divides_the_fall_interval() {
    let mut gs = GameState { started: true, starting_level: 1, level: 1, has_piece: false };
    let mut fall = FallTimer(TickTimer::new(1_000_000));
    level_up(&mut gs, &mut fall);
    assert_eq!(gs.level, 2);
    // one second divided by 1.26, truncated to whole milliseconds
    assert_eq!(fall.0.duration_us(), 793_000);
    level_up(&mut gs, &mut fall);
    assert_eq!(gs.level, 3);
    assert_eq!(fall.0.duration_us(), 629_000);
}

#[test]
fn tetris_clear_awards_the_tetris_score_through_check_lines() {
    let gs = GameState { started: true, starting_level: 0, level: 2, has_piece: false };
    let mut score = ScoreResource::new();
    let mut board = Board::new();
    for y in 0..4 {
        board.place(&(0..10).map(|x| (x, y)).collect(), GRAY);
    }
    let (cleared, leveled) = check_lines(&mut board, &gs, &mut score);
    assert_eq!(cleared, 4);
    assert_eq!(score.score(), 50 * 26 * 3);
    assert_eq!(score.lines(), 4);
    assert!(!leveled);
    for y in 0..20 {
        assert_eq!(board.count_occupied_in_row(y), 0);
    }
}

#[test]
fn soft_dropping_a_piece_awards_one_point_per_cell() {
    let mut game = Game::new(0);
    game.active_piece = Some(Piece::spawn(Shape::O, 0));
    game.game_state.has_piece = true;
    game.piece_selection.next_piece = Some(Piece::spawn(Shape::T, 0));
    let mut input = InputState::none();
    input.down_jp = true;
    let mut placed = false;
    for _ in 0..30 {
        let events = game.tick(&input, 1);
        if events.placed {
            placed = true;
            assert!(!events.lost);
            assert_eq!(events.lines_cleared, 0);
            break;
        }
    }
    assert!(placed);
    // eighteen cells of manual drop at level zero
    assert_eq!(game.score.score(), 18);
    assert_eq!(game.score.lines(), 0);
}

#[test]
fn i_piece_falls_and_locks_in_its_spawn_column() {
    let mut game = Game::new(0);
    game.active_piece = Some(Piece::spawn(Shape::I, 0));
    game.game_state.has_piece = true;
    game.piece_selection.next_piece = Some(Piece::spawn(Shape::O, 0));
    let input = InputState::none();
    let mut placed = false;
    for _ in 0..40 {
        let events = game.tick(&input, 1_000_000);
        if events.placed {
            placed = true;
            assert_eq!(events.lines_cleared, 0);
            assert!(!events.lost);
            assert_eq!(events.sounds, vec![Sound::PiecePlace]);
            break;
        }
    }
    assert!(placed);
    for y in 0..4 {
        assert_eq!(game.board.count_occupied_in_row(y), 1);
        assert!(game.board.is_occupied(4, y as i32));
    }
    for y in 4..20 {
        assert_eq!(game.board.count_occupied_in_row(y), 0);
    }
    assert_eq!(game.score.lines(), 0);
    assert!(game.active_piece.is_some());
}

#[test]
fn completing_a_row_through_a_tick_clears_and_scores_it() {
    let mut game = Game::new(0);
    game.board.place(&(0..8).map(|x| (x, 0)).collect(), GRAY);
    let mut piece = Piece::spawn(Shape::O, 0);
    piece.x = 8;
    piece.segments = vec![(8, 18), (8, 19), (9, 18), (9, 19)];
    game.active_piece = Some(piece);
    game.game_state.has_piece = true;
    game.piece_selection.next_piece = Some(Piece::spawn(Shape::T, 0));
    let input = InputState::none();
    let mut placed = false;
    for _ in 0..25 {
        let events = game.tick(&input, 1_000_000);
        if events.placed {
            placed = true;
            assert_eq!(events.lines_cleared, 1);
            assert_eq!(events.sounds, vec![Sound::PiecePlace, Sound::LineClear]);
            break;
        }
    }
    assert!(placed);
    assert_eq!(game.score.score(), 50);
    assert_eq!(game.score.lines(), 1);
    // the second row of the pair dropped into the cleared row
    assert_eq!(game.board.count_occupied_in_row(0), 2);
    assert!(game.board.is_occupied(8, 0));
    assert!(game.board.is_occupied(9, 0));
}

#[test]
fn losing_tick_resets_the_session() {
    let mut game = Game::new(1);
    game.board.place(&vec![(4, 17), (5, 17)], GRAY);
    game.active_piece = Some(Piece::spawn(Shape::O, 0));
    game.game_state.has_piece = true;
    game.piece_selection.next_piece = Some(Piece::spawn(Shape::T, 0));
    game.score.reward_line_score(1, 1);
    assert!(game.score.score() > 0);
    let events = game.tick(&InputState::none(), 1_000_000);
    assert!(events.placed);
    assert!(events.lost);
    assert_eq!(events.sounds, vec![Sound::PiecePlace, Sound::GameOver]);
    assert_eq!(game.score.score(), 0);
    assert_eq!(game.score.lines(), 0);
    assert_eq!(game.game_state.level, 1);
    for y in 0..20 {
        assert_eq!(game.board.count_occupied_in_row(y), 0);
    }
    assert!(game.active_piece.is_some());
}

#[test]
fn an_unstarted_session_does_nothing() {
    let mut game = Game::new(0);
    game.game_state.started = false;
    let events = game.tick(&InputState::none(), 1_000_000);
    assert!(!events.placed);
    assert!(!events.lost);
    assert!(events.sounds.is_empty());
    assert!(game.active_piece.is_none());
    assert_eq!(game.score.score(), 0);
}
