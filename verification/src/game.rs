//! The game session: spawning, placement and the loss check, line
//! clearing with scoring and level-ups, the restart after a loss, and the
//! tick that drives one frame of the simulation.

use vstd::prelude::*;

use crate::board::{full_rows_below, is_full_row, row_is_empty, Board};
use crate::consts::{
    BOARD_WIDTH, DROP_DELAY_US, FALL_DELAY_US, GRID_ROWS, LINES_PER_LEVEL, MOVE_DELAY_US,
    PIECE_SPAWN_XP, PIECE_SPAWN_YP,
};
use crate::input::{piece_movement_input, InputState};
use crate::motion::{move_outcome, move_pieces};
use crate::piece::{piece_cells, Piece};
use crate::rng::random_int_inclusive;
use crate::score::{drop_score, line_score, ScoreResource};
use crate::shape::{shape_color, Rgb, Shape};
use crate::timer::{timer_fires, DropInputTimer, FallTimer, InputTimer, TickTimer};

verus! {

/// The session state: whether play has begun, the configured starting
/// level, the current level, and whether an active piece exists.
pub struct GameState {
    pub started: bool,
    pub starting_level: usize,
    pub level: usize,
    pub has_piece: bool,
}

/// The single look-ahead: the piece queued to spawn next.
pub struct PieceSelectionResource {
    pub next_piece: Option<Piece>,
}

/// The kinds of sound the simulation asks its audio collaborator to play.
#[derive(Clone, Copy, Debug, PartialEq, Eq, Structural)]
pub enum Sound {
    GameBegin,
    PiecePlace,
    LineClear,
    TetrisClear,
    GameOver,
}

/// A grid with the given cells turned into permanent entries of the
/// given color.
pub open spec fn grid_place(g: Seq<Seq<Option<Rgb>>>, cells: Seq<(int, int)>, c: Rgb) -> Seq<
    Seq<Option<Rgb>>,
> {
    Seq::new(
        g.len(),
        |y: int|
            Seq::new(
                g[y].len(),
                |x: int|
                    if exists|i: int| 0 <= i < cells.len() && #[trigger] cells[i] == (x, y) {
                        Some(c)
                    } else {
                        g[y][x]
                    },
            ),
    )
}

/// Whether the cumulative line count has reached the next level-up
/// threshold: the first level-up needs ten lines per level of the
/// starting level plus ten, and each further level-up needs ten more.
pub open spec fn level_up_ready(lines: int, level: int, starting: int) -> bool {
    if level == starting {
        lines >= (starting + 1) * LINES_PER_LEVEL
    } else if level > starting {
        lines >= (starting + 1) * LINES_PER_LEVEL + (level - starting) * LINES_PER_LEVEL
    } else {
        false
    }
}

/// The fall delay after a level-up: the delay in whole milliseconds is
/// divided by 1.26 in hundredths and truncated.
pub open spec fn next_fall_delay(d: int) -> int {
    ((d / 1000) * 100 / 126) * 1000
}

/// Spawns a piece when the active slot is empty: the queued piece is
/// promoted, or a random one is drawn if nothing is queued, and a fresh
/// random piece is queued for next time.
pub fn spawn_pieces(
    game_state: &mut GameState,
    piece_selection: &mut PieceSelectionResource,
    active: &mut Option<Piece>,
)
    requires
        (old(piece_selection).next_piece matches Some(np) ==> np.wf()),
    ensures
        final(game_state).started == old(game_state).started,
        final(game_state).starting_level == old(game_state).starting_level,
        final(game_state).level == old(game_state).level,
        old(game_state).has_piece ==> *final(game_state) == *old(game_state) && *final(active)
            == *old(active) && *final(piece_selection) == *old(piece_selection),
        !old(game_state).has_piece ==> {
            &&& final(game_state).has_piece
            &&& (*final(active) matches Some(p) && p.wf() && p.x == PIECE_SPAWN_XP
                && p.y == PIECE_SPAWN_YP && p.dropped_pixels == 0)
            &&& (old(piece_selection).next_piece matches Some(np) ==> (*final(active))
                matches Some(p) && p.shape == np.shape && p.rotation == np.rotation)
            &&& (final(piece_selection).next_piece matches Some(np) && np.wf())
        },
{
    if game_state.has_piece == false {
        let shape: Shape;
        let rotation: usize;
        match &piece_selection.next_piece {
            Some(next_piece) => {
                shape = next_piece.shape;
                rotation = next_piece.rotation;
            },
            None => {
                shape = Shape::get_random();
                rotation = random_int_inclusive(0, 3) as usize;
            },
        }
        *active = Some(Piece::spawn(shape, rotation));
        let next_shape = Shape::get_random();
        let next_rotation = random_int_inclusive(0, 3) as usize;
        piece_selection.next_piece = Some(Piece::spawn(next_shape, next_rotation));
        game_state.has_piece = true;
    }
}

/// Locks the active piece: its cells become permanent grid entries with
/// the piece's color, the accumulated soft-drop distance is rewarded, and
/// the loss check fires when the piece's anchor row is within two rows of
/// the spawn row. On a loss the active-piece flag stays set until the
/// restart clears it; otherwise the slot is freed for the next spawn.
pub fn place_piece(
    active: &mut Option<Piece>,
    board: &mut Board,
    game_state: &mut GameState,
    score_resource: &mut ScoreResource,
) -> (lost: bool)
    requires
        (*old(active)) matches Some(p) && p.wf(),
        old(board).wf(),
        old(game_state).level < usize::MAX,
        old(score_resource).spec_score() + drop_score(
            (PIECE_SPAWN_YP + 3) as int,
            old(game_state).level as int,
        ) <= usize::MAX,
    ensures
        final(board).wf(),
        *final(active) is None,
        final(game_state).started == old(game_state).started,
        final(game_state).starting_level == old(game_state).starting_level,
        final(game_state).level == old(game_state).level,
        ({
            let p = old(active).unwrap();
            &&& lost == (p.y >= PIECE_SPAWN_YP - 2)
            &&& final(game_state).has_piece == (if lost {
                old(game_state).has_piece
            } else {
                false
            })
            &&& final(board)@ == grid_place(old(board)@, piece_cells(p), shape_color(p.shape))
            &&& final(score_resource).spec_score() == old(score_resource).spec_score()
                + drop_score(p.dropped_pixels as int, old(game_state).level as int)
            &&& final(score_resource).spec_lines() == old(score_resource).spec_lines()
        }),
{
    let piece = active.take().unwrap();
    let ghost g0 = board@;
    let color = piece.shape.get_color();
    board.place(&piece.segments, color);
    proof {
        assert forall|y: int, x: int|
            0 <= y < GRID_ROWS && 0 <= x < BOARD_WIDTH implies board@[y][x]
            == grid_place(g0, piece_cells(piece), shape_color(piece.shape))[y][x] by {
            if exists|i: int|
                0 <= i < piece_cells(piece).len() && #[trigger] piece_cells(piece)[i] == (x, y) {
                let i = choose|i: int|
                    0 <= i < piece_cells(piece).len() && #[trigger] piece_cells(piece)[i] == (
                    x,
                    y,
                );
                assert((piece.segments@[i]).0 == x && (piece.segments@[i]).1 == y);
            } else {
                assert(forall|i: int|
                    0 <= i < piece.segments@.len() && (#[trigger] piece.segments@[i]).0 == x
                        && piece.segments@[i].1 == y ==> piece_cells(piece)[i] == (x, y));
            }
        };
        assert(board@ =~~= grid_place(g0, piece_cells(piece), shape_color(piece.shape)));
        assert(0 <= piece.segments@[0].1 <= piece.y + 3);
        assert(piece.dropped_pixels <= PIECE_SPAWN_YP + 3);
        assert(drop_score(piece.dropped_pixels as int, game_state.level as int) <= drop_score(
            (PIECE_SPAWN_YP + 3) as int,
            game_state.level as int,
        )) by (nonlinear_arith)
            requires
                0 <= piece.dropped_pixels <= PIECE_SPAWN_YP + 3,
                game_state.level >= 0,
        ;
    }
    score_resource.reward_drop_score(piece.dropped_pixels, game_state.level);
    let mut lost = false;
    if piece.y >= PIECE_SPAWN_YP - 2 {
        lost = true;
    }
    if !lost {
        game_state.has_piece = false;
    }
    lost
}

/// Detects and clears full rows: every row with a full count of occupied
/// cells is removed in one simultaneous shift, the line score is awarded
/// at the current level, and the cumulative line count decides whether a
/// level-up fires. Returns the number of cleared rows and the level-up
/// flag.
pub fn check_lines(
    board: &mut Board,
    game_state: &GameState,
    score_resource: &mut ScoreResource,
) -> (r: (usize, bool))
    requires
        old(board).wf(),
        game_state.starting_level <= game_state.level < usize::MAX,
        (game_state.starting_level + 1) * LINES_PER_LEVEL + (game_state.level
            - game_state.starting_level) * LINES_PER_LEVEL <= usize::MAX,
        old(score_resource).spec_score() + line_score(4, game_state.level as int) + line_score(
            GRID_ROWS as int,
            game_state.level as int,
        ) <= usize::MAX,
        old(score_resource).spec_lines() + GRID_ROWS <= usize::MAX,
    ensures
        final(board).wf(),
        r.0 == full_rows_below(old(board)@, GRID_ROWS as int),
        forall|y: int|
            0 <= y < GRID_ROWS && !is_full_row(old(board)@, y) ==> final(board)@[y
                - full_rows_below(old(board)@, y)] == old(board)@[y],
        forall|y: int|
            GRID_ROWS - r.0 <= y < GRID_ROWS ==> row_is_empty(#[trigger] final(board)@[y]),
        final(score_resource).spec_score() == old(score_resource).spec_score() + line_score(
            r.0 as int,
            game_state.level as int,
        ),
        final(score_resource).spec_lines() == old(score_resource).spec_lines() + r.0,
        r.1 == level_up_ready(
            old(score_resource).spec_lines() + r.0,
            game_state.level as int,
            game_state.starting_level as int,
        ),
{
    let cleared = board.clear_full_rows();
    proof {
        crate::board::lemma_full_rows_below_bound(old(board)@, GRID_ROWS as int);
        assert(line_score(cleared as int, game_state.level as int) <= line_score(
            4,
            game_state.level as int,
        ) + line_score(GRID_ROWS as int, game_state.level as int)) by (nonlinear_arith)
            requires
                0 <= cleared <= GRID_ROWS,
                game_state.level >= 0,
        ;
    }
    score_resource.reward_line_score(cleared, game_state.level);
    let mut leveled = false;
    if game_state.level == game_state.starting_level {
        if score_resource.lines() >= (game_state.starting_level + 1) * LINES_PER_LEVEL {
            leveled = true;
        }
    } else if game_state.level > game_state.starting_level {
        if score_resource.lines() >= (game_state.starting_level + 1) * LINES_PER_LEVEL + (
        game_state.level - game_state.starting_level) * LINES_PER_LEVEL {
            leveled = true;
        }
    }
    (cleared, leveled)
}

/// Raises the level by one and shortens the fall delay: the delay in
/// whole milliseconds is divided by 1.26 and truncated, compounding with
/// every level and with no lower floor.
pub fn level_up(game_state: &mut GameState, fall_timer: &mut FallTimer)
    requires
        old(game_state).level < usize::MAX,
    ensures
        final(game_state).level == old(game_state).level + 1,
        final(game_state).started == old(game_state).started,
        final(game_state).starting_level == old(game_state).starting_level,
        final(game_state).has_piece == old(game_state).has_piece,
        final(fall_timer).0.spec_duration() == next_fall_delay(old(fall_timer).0.spec_duration()),
        final(fall_timer).0.spec_elapsed() == old(fall_timer).0.spec_elapsed(),
{
    game_state.level = game_state.level + 1;
    let ms = fall_timer.0.duration_us() / 1000;
    proof {
        assert(ms * 100 <= u64::MAX) by (nonlinear_arith)
            requires
                0 <= ms <= u64::MAX as int / 1000,
        ;
        assert((ms * 100 / 126) * 1000 <= u64::MAX) by (nonlinear_arith)
            requires
                0 <= ms <= u64::MAX as int / 1000,
        ;
    }
    let new_ms = ms * 100 / 126;
    fall_timer.0.set_duration(new_ms * 1000);
}

/// Processes a loss: the grid and the active piece are erased, score and
/// lines reset to zero, the level returns to the starting level, and the
/// spawn flag is cleared so play resumes at once.
pub fn restart(
    active: &mut Option<Piece>,
    board: &mut Board,
    game_state: &mut GameState,
    score_resource: &mut ScoreResource,
)
    ensures
        *final(active) is None,
        final(board).wf(),
        forall|y: int| 0 <= y < GRID_ROWS ==> row_is_empty(#[trigger] final(board)@[y]),
        final(score_resource).spec_score() == 0,
        final(score_resource).spec_lines() == 0,
        final(game_state).level == old(game_state).starting_level,
        final(game_state).starting_level == old(game_state).starting_level,
        final(game_state).started == old(game_state).started,
        final(game_state).has_piece == false,
{
    *active = None;
    *board = Board::new();
    score_resource.reset();
    game_state.level = game_state.starting_level;
    game_state.has_piece = false;
}

/// The events one tick publishes to its collaborators, fully drained
/// every tick.
pub struct TickEvents {
    pub placed: bool,
    pub lines_cleared: usize,
    pub leveled_up: bool,
    pub lost: bool,
    pub sounds: Vec<Sound>,
}

/// The sounds a tick asks for, in order: a placement sound, then the
/// line-clear or tetris-clear sound, then the game-over sound.
pub open spec fn tick_sounds(placed: bool, cleared: int, lost: bool) -> Seq<Sound> {
    let s1 = if placed {
        seq![Sound::PiecePlace]
    } else {
        Seq::<Sound>::empty()
    };
    let s2 = if cleared == 4 {
        s1.push(Sound::TetrisClear)
    } else if cleared > 0 {
        s1.push(Sound::LineClear)
    } else {
        s1
    };
    if lost {
        s2.push(Sound::GameOver)
    } else {
        s2
    }
}

/// The whole simulation state, exclusively owned by the tick function.
pub struct Game {
    pub board: Board,
    pub active_piece: Option<Piece>,
    pub piece_selection: PieceSelectionResource,
    pub game_state: GameState,
    pub score: ScoreResource,
    pub fall_timer: FallTimer,
    pub input_timer: InputTimer,
    pub drop_input_timer: DropInputTimer,
}

impl Game {
    /// Well-formedness: the grid has its fixed dimensions, any active or
    /// queued piece is itself well formed, and the level never falls
    /// under the starting level.
    pub open spec fn wf(&self) -> bool {
        &&& self.board.wf()
        &&& (self.active_piece matches Some(p) ==> p.wf())
        &&& (self.piece_selection.next_piece matches Some(p) ==> p.wf())
        &&& self.game_state.starting_level <= self.game_state.level
        &&& self.game_state.has_piece == (self.active_piece is Some)
    }

    /// A fresh session at the given starting level: an empty grid, no
    /// piece yet, zero score, and the timers at their configured delays.
    pub fn new(starting_level: usize) -> (g: Game)
        ensures
            g.wf(),
            g.game_state.started,
            g.game_state.starting_level == starting_level,
            g.game_state.level == starting_level,
            !g.game_state.has_piece,
            g.active_piece is None,
            g.piece_selection.next_piece is None,
            g.score.spec_score() == 0,
            g.score.spec_lines() == 0,
            forall|y: int| 0 <= y < GRID_ROWS ==> row_is_empty(#[trigger] g.board@[y]),
            g.fall_timer.0.spec_duration() == FALL_DELAY_US,
            g.input_timer.0.spec_duration() == MOVE_DELAY_US,
            g.drop_input_timer.0.spec_duration() == DROP_DELAY_US,
            g.fall_timer.0.spec_elapsed() == 0,
            g.input_timer.0.spec_elapsed() == 0,
            g.drop_input_timer.0.spec_elapsed() == 0,
    {
        Game {
            board: Board::new(),
            active_piece: None,
            piece_selection: PieceSelectionResource { next_piece: None },
            game_state: GameState {
                started: true,
                starting_level,
                level: starting_level,
                has_piece: false,
            },
            score: ScoreResource::new(),
            fall_timer: FallTimer(TickTimer::new(FALL_DELAY_US)),
            input_timer: InputTimer(TickTimer::new(MOVE_DELAY_US)),
            drop_input_timer: DropInputTimer(TickTimer::new(DROP_DELAY_US)),
        }
    }

    /// One tick of the simulation: input timing, then the active piece's
    /// movement against the grid, then on a placement the lock, the line
    /// clear with its score and level bookkeeping, the loss transition,
    /// and finally the next spawn.
    pub fn tick(&mut self, input_state: &InputState, delta_us: u64) -> (events: TickEvents)
        requires
            old(self).wf(),
            old(self).game_state.level < usize::MAX - 1,
            old(self).score.spec_score() + drop_score(
                (PIECE_SPAWN_YP + 3) as int,
                old(self).game_state.level as int,
            ) + line_score(4, old(self).game_state.level as int) + line_score(
                GRID_ROWS as int,
                old(self).game_state.level as int,
            ) <= usize::MAX,
            old(self).score.spec_lines() + GRID_ROWS <= usize::MAX,
            (old(self).game_state.starting_level + 1) * LINES_PER_LEVEL + (
            old(self).game_state.level - old(self).game_state.starting_level) * LINES_PER_LEVEL
                <= usize::MAX,
        ensures
            final(self).wf(),
            final(self).game_state.started == old(self).game_state.started,
            final(self).game_state.starting_level == old(self).game_state.starting_level,
            events.sounds@ == tick_sounds(events.placed, events.lines_cleared as int,
                events.lost),
            !old(self).game_state.started ==> *final(self) == *old(self) && !events.placed
                && events.lines_cleared == 0 && !events.leveled_up && !events.lost,
            old(self).game_state.started ==> {
                &&& (*final(self)).active_piece matches Some(p2) && p2.wf()
                &&& events.lost ==> final(self).score.spec_score() == 0 && final(self).score.spec_lines() == 0
                    && final(self).game_state.level == final(self).game_state.starting_level
                &&& !events.lost ==> final(self).score.spec_score() >= old(self).score.spec_score()
                    && final(self).score.spec_lines() >= old(self).score.spec_lines()
                    && old(self).game_state.level <= final(self).game_state.level <= old(self).game_state.level + 1
                &&& !events.placed ==> events.lines_cleared == 0 && !events.leveled_up
                    && !events.lost && final(self).board@ == old(self).board@
                    && final(self).score.spec_score() == old(self).score.spec_score()
                    && final(self).score.spec_lines() == old(self).score.spec_lines()
                    && final(self).game_state.level == old(self).game_state.level
                &&& events.placed ==> old(self).active_piece is Some
                &&& events.leveled_up && !events.lost ==> final(self).game_state.level == old(self).game_state.level + 1 && final(self).fall_timer.0.spec_duration() == next_fall_delay(
                    old(self).fall_timer.0.spec_duration(),
                )
                &&& (old(self).active_piece matches Some(p) ==> ({
                    let it_el = if input_state.left_jp || input_state.right_jp {
                        0int
                    } else {
                        old(self).input_timer.0.spec_elapsed()
                    };
                    let dt_el = if input_state.down_jp {
                        0int
                    } else {
                        old(self).drop_input_timer.0.spec_elapsed()
                    };
                    let it_fired = timer_fires(it_el, old(self).input_timer.0.spec_duration(),
                        delta_us as int);
                    let dt_fired = timer_fires(
                        dt_el,
                        old(self).drop_input_timer.0.spec_duration(),
                        delta_us as int,
                    );
                    let fall_fired = timer_fires(
                        old(self).fall_timer.0.spec_elapsed(),
                        old(self).fall_timer.0.spec_duration(),
                        delta_us as int,
                    );
                    let out = move_outcome(old(self).board@, p, *input_state, it_fired,
                        dt_fired, fall_fired);
                    &&& events.placed == out.placed
                    &&& !out.placed ==> ((*final(self)).active_piece matches Some(p2) && p2.shape
                        == p.shape && p2.rotation == out.rotation && p2.x == out.x && p2.y
                        == out.y && piece_cells(p2) == out.cells && p2.dropped_pixels
                        == out.dropped)
                    &&& out.placed ==> ({
                        let g1 = grid_place(old(self).board@, out.cells, shape_color(p.shape));
                        &&& events.lost == (out.y >= PIECE_SPAWN_YP - 2)
                        &&& events.lines_cleared == full_rows_below(g1, GRID_ROWS as int)
                        &&& events.leveled_up == level_up_ready(
                            old(self).score.spec_lines() + events.lines_cleared,
                            old(self).game_state.level as int,
                            old(self).game_state.starting_level as int,
                        )
                        &&& !events.lost ==> final(self).score.spec_score() == old(self).score.spec_score() + drop_score(
                            out.dropped,
                            old(self).game_state.level as int,
                        ) + line_score(
                            events.lines_cleared as int,
                            old(self).game_state.level as int,
                        ) && final(self).score.spec_lines() == old(self).score.spec_lines()
                            + events.lines_cleared
                    })
                }))
            },
    {
        let mut events = TickEvents {
            placed: false,
            lines_cleared: 0,
            leveled_up: false,
            lost: false,
            sounds: Vec::new(),
        };
        if !self.game_state.started {
            return events;
        }
        piece_movement_input(input_state, &mut self.input_timer, &mut self.drop_input_timer);
        let piece_opt = self.active_piece.take();
        match piece_opt {
            Some(mut piece) => {
                let placed = move_pieces(
                    &mut piece,
                    &self.board,
                    &mut self.fall_timer,
                    &mut self.input_timer,
                    &mut self.drop_input_timer,
                    input_state,
                    delta_us,
                );
                let ghost pmoved = piece;
                if placed {
                    events.placed = true;
                    self.active_piece = Some(piece);
                    proof {
                        assert(0 <= pmoved.segments@[0].1 <= pmoved.y + 3);
                        assert(pmoved.dropped_pixels <= PIECE_SPAWN_YP + 3);
                        assert(drop_score(
                            pmoved.dropped_pixels as int,
                            self.game_state.level as int,
                        ) <= drop_score((PIECE_SPAWN_YP + 3) as int, self.game_state.level as int))
                            by (nonlinear_arith)
                            requires
                                0 <= pmoved.dropped_pixels <= PIECE_SPAWN_YP + 3,
                                self.game_state.level >= 0,
                        ;
                    }
                    let lost = place_piece(
                        &mut self.active_piece,
                        &mut self.board,
                        &mut self.game_state,
                        &mut self.score,
                    );
                    events.sounds.push(Sound::PiecePlace);
                    let (cleared, leveled) = check_lines(
                        &mut self.board,
                        &self.game_state,
                        &mut self.score,
                    );
                    events.lines_cleared = cleared;
                    if cleared == 4 {
                        events.sounds.push(Sound::TetrisClear);
                    } else if cleared > 0 {
                        events.sounds.push(Sound::LineClear);
                    }
                    if leveled {
                        events.leveled_up = true;
                        level_up(&mut self.game_state, &mut self.fall_timer);
                    }
                    if lost {
                        events.lost = true;
                        restart(
                            &mut self.active_piece,
                            &mut self.board,
                            &mut self.game_state,
                            &mut self.score,
                        );
                        events.sounds.push(Sound::GameOver);
                    }
                } else {
                    self.active_piece = Some(piece);
                }
            },
            None => {
                // The timers still accumulate this tick's elapsed time
                // while no piece is falling.
                let _ = self.fall_timer.0.tick(delta_us);
                let _ = self.input_timer.0.tick(delta_us);
                let _ = self.drop_input_timer.0.tick(delta_us);
            },
        }
        spawn_pieces(&mut self.game_state, &mut self.piece_selection, &mut self.active_piece);
        proof {
            assert(events.sounds@ =~= tick_sounds(events.placed, events.lines_cleared as int,
                events.lost));
        }
        events
    }
}

} // verus!
