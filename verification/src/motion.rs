//! The per-tick movement of the active piece: translation intents,
//! rotation with its validity check, and the ordered, per-segment
//! collision resolution against the occupancy grid.

use vstd::prelude::*;

use crate::board::{grid_occupied, Board};
use crate::consts::{BOARD_WIDTH, PIECE_SPAWN_YP};
use crate::input::InputState;
use crate::piece::{lemma_offset_range, piece_cells, Piece};
use crate::shape::{shape_offset, Rgb, Shape};
use crate::timer::{timer_fires, timer_next_elapsed, DropInputTimer, FallTimer, InputTimer};

verus! {

/// The state of a tick's collision resolution: the surviving movement
/// components and the flags the segment passes have raised.
pub struct Resolution {
    pub dx: int,
    pub dy: int,
    pub place: bool,
    pub blocked: bool,
    pub diag: bool,
}

/// One segment's pass of collision resolution, in order: the horizontal
/// boundary, the floor, a vertical-only drop onto an occupied cell, a
/// horizontal-only move into an occupied cell, a diagonal move into an
/// occupied cell, and finally the rule that a horizontal block cancels a
/// diagonal placement.
pub open spec fn resolve_seg(g: Seq<Seq<Option<Rgb>>>, cx: int, cy: int, st: Resolution)
    -> Resolution {
    let dx1 = if cx + st.dx < 0 || cx + st.dx > BOARD_WIDTH - 1 {
        0int
    } else {
        st.dx
    };
    let hit_floor = cy + st.dy < 0;
    let dy2 = if hit_floor {
        0int
    } else {
        st.dy
    };
    let place2 = if hit_floor {
        true
    } else {
        st.place
    };
    let dropped_onto = dx1 == 0 && grid_occupied(g, cx, cy + dy2);
    let dy3 = if dropped_onto {
        0int
    } else {
        dy2
    };
    let place3 = if dropped_onto {
        true
    } else {
        place2
    };
    let side_hit = dy3 == 0 && grid_occupied(g, cx + dx1, cy);
    let dx4 = if side_hit {
        0int
    } else {
        dx1
    };
    let blocked4 = if side_hit {
        true
    } else {
        st.blocked
    };
    let diag_hit = dx4 != 0 && dy3 != 0 && grid_occupied(g, cx + dx4, cy + dy3);
    let dy5 = if diag_hit {
        0int
    } else {
        dy3
    };
    let diag5 = if diag_hit {
        true
    } else {
        st.diag
    };
    let diag6 = if blocked4 {
        false
    } else {
        diag5
    };
    Resolution { dx: dx4, dy: dy5, place: place3, blocked: blocked4, diag: diag6 }
}

/// The collision resolution state after the first `n` segments' passes.
pub open spec fn resolve_upto(
    g: Seq<Seq<Option<Rgb>>>,
    cells: Seq<(int, int)>,
    n: int,
    st: Resolution,
) -> Resolution
    decreases n,
{
    if n <= 0 {
        st
    } else {
        resolve_seg(g, cells[n - 1].0, cells[n - 1].1, resolve_upto(g, cells, n - 1, st))
    }
}

/// A movement component is only ever kept or zeroed, never altered.
pub proof fn lemma_resolve_monotone(
    g: Seq<Seq<Option<Rgb>>>,
    cells: Seq<(int, int)>,
    n: int,
    st: Resolution,
)
    requires
        n >= 0,
    ensures
        resolve_upto(g, cells, n, st).dx == st.dx || resolve_upto(g, cells, n, st).dx == 0,
        resolve_upto(g, cells, n, st).dy == st.dy || resolve_upto(g, cells, n, st).dy == 0,
    decreases n,
{
    if n > 0 {
        lemma_resolve_monotone(g, cells, n - 1, st);
    }
}

/// If the horizontal component survives resolution, every segment's
/// horizontal move was checked against it and stays on the board.
pub proof fn lemma_resolve_dx_survives(
    g: Seq<Seq<Option<Rgb>>>,
    cells: Seq<(int, int)>,
    n: int,
    st: Resolution,
)
    requires
        n >= 0,
        resolve_upto(g, cells, n, st).dx != 0,
    ensures
        resolve_upto(g, cells, n, st).dx == st.dx,
        forall|i: int|
            0 <= i < n ==> 0 <= (#[trigger] cells[i]).0 + st.dx <= BOARD_WIDTH - 1,
    decreases n,
{
    if n > 0 {
        lemma_resolve_monotone(g, cells, n - 1, st);
        lemma_resolve_dx_survives(g, cells, n - 1, st);
    }
}

/// If the vertical component survives resolution, every segment's
/// vertical move was checked against it and stays at or above the floor.
pub proof fn lemma_resolve_dy_survives(
    g: Seq<Seq<Option<Rgb>>>,
    cells: Seq<(int, int)>,
    n: int,
    st: Resolution,
)
    requires
        n >= 0,
        resolve_upto(g, cells, n, st).dy != 0,
    ensures
        resolve_upto(g, cells, n, st).dy == st.dy,
        forall|i: int| 0 <= i < n ==> (#[trigger] cells[i]).1 + st.dy >= 0,
    decreases n,
{
    if n > 0 {
        lemma_resolve_monotone(g, cells, n - 1, st);
        lemma_resolve_dy_survives(g, cells, n - 1, st);
    }
}

/// The horizontal translation intent of a tick: left and right edges move
/// at once, held keys repeat when the horizontal repeat timer fires, and
/// left wins over right.
pub open spec fn horizontal_intent(inp: InputState, it_fired: bool) -> int {
    if inp.left_jp || (inp.left && it_fired) {
        -1int
    } else if inp.right_jp || (inp.right && it_fired) {
        1int
    } else {
        0int
    }
}

/// Whether this tick carries a manual soft drop: a fresh down press, or a
/// held down key when the soft-drop repeat timer fires.
pub open spec fn manual_drop(inp: InputState, dt_fired: bool) -> bool {
    inp.down_jp || (inp.down && dt_fired)
}

/// The vertical translation of a tick: one cell down on a manual soft
/// drop or when gravity fires, never more.
pub open spec fn vertical_intent(inp: InputState, dt_fired: bool, fall_fired: bool) -> int {
    if manual_drop(inp, dt_fired) || fall_fired {
        -1int
    } else {
        0int
    }
}

/// The rotation index a rotate intent asks for: one step clockwise or
/// anticlockwise, wrapping within the four orientations.
pub open spec fn desired_rotation(rot: int, clockwise: bool) -> int {
    if clockwise {
        if rot + 1 > 3 {
            0int
        } else {
            rot + 1
        }
    } else {
        if rot > 0 {
            rot - 1
        } else {
            3int
        }
    }
}

/// Whether one segment lets a rotation to `desired` pass: its candidate
/// cell at the anchor plus the pending movement plus the new offset must
/// stay in the board's columns and above the floor, and must not coincide
/// with an occupied grid cell at the position offset once more by the
/// pending movement.
pub open spec fn rotation_seg_ok(
    g: Seq<Seq<Option<Rgb>>>,
    s: Shape,
    x: int,
    y: int,
    dx: int,
    dy: int,
    desired: int,
    i: int,
) -> bool {
    let o = shape_offset(s, i, desired);
    &&& 0 <= x + dx + o.0 < BOARD_WIDTH
    &&& 0 <= y + dy + o.1
    &&& !grid_occupied(g, x + dx + o.0 + dx, y + dy + o.1 + dy)
}

/// Whether a rotation to `desired` is allowed: every segment must let it
/// pass. A rejected rotation leaves the orientation unchanged for the
/// tick; there is no alternate-offset retry.
pub open spec fn rotation_ok(
    g: Seq<Seq<Option<Rgb>>>,
    s: Shape,
    x: int,
    y: int,
    dx: int,
    dy: int,
    desired: int,
) -> bool {
    forall|i: int| 0 <= i < 4 ==> #[trigger] rotation_seg_ok(g, s, x, y, dx, dy, desired, i)
}

/// The segment cells a piece shows right after a rotation is applied:
/// the anchor plus the new offsets.
pub open spec fn rotated_cells(s: Shape, x: int, y: int, r: int) -> Seq<(int, int)> {
    Seq::new(4, |i: int| (x + shape_offset(s, i, r).0, y + shape_offset(s, i, r).1))
}

/// A cell's horizontal position bound to the board's columns.
pub open spec fn clamp_x(v: int) -> int {
    if v < 0 {
        0int
    } else if v > BOARD_WIDTH - 1 {
        BOARD_WIDTH - 1
    } else {
        v
    }
}

/// A cell's vertical position bound to the floor.
pub open spec fn clamp_y(v: int) -> int {
    if v < 0 {
        0int
    } else {
        v
    }
}

/// Everything one tick of movement does to the active piece.
pub struct MoveOutcome {
    pub rotation: int,
    pub x: int,
    pub y: int,
    pub cells: Seq<(int, int)>,
    pub dropped: int,
    pub placed: bool,
}

/// The outcome of one movement tick: the rotation intent is resolved
/// first against the pending movement, then the possibly rotated cells go
/// through per-segment collision resolution, the surviving movement is
/// applied to the anchor and to every cell, and a manual soft drop that
/// actually moved the piece down counts toward the drop distance.
pub open spec fn move_outcome(
    g: Seq<Seq<Option<Rgb>>>,
    p: Piece,
    inp: InputState,
    it_fired: bool,
    dt_fired: bool,
    fall_fired: bool,
) -> MoveOutcome {
    let dx0 = horizontal_intent(inp, it_fired);
    let dy0 = vertical_intent(inp, dt_fired, fall_fired);
    let requested = inp.rotate_clockwise_jp || inp.rotate_anticlockwise_jp;
    let desired = desired_rotation(p.rotation as int, inp.rotate_clockwise_jp);
    let rotated = requested && rotation_ok(g, p.shape, p.x as int, p.y as int, dx0, dy0, desired);
    let rot1 = if rotated {
        desired
    } else {
        p.rotation as int
    };
    let cells1 = if rotated {
        rotated_cells(p.shape, p.x as int, p.y as int, desired)
    } else {
        piece_cells(p)
    };
    let st = resolve_upto(
        g,
        cells1,
        4,
        Resolution { dx: dx0, dy: dy0, place: false, blocked: false, diag: false },
    );
    let placed = st.place || st.diag;
    MoveOutcome {
        rotation: rot1,
        x: p.x + st.dx,
        y: p.y + st.dy,
        cells: Seq::new(4, |i: int| (clamp_x(cells1[i].0 + st.dx), clamp_y(cells1[i].1 + st.dy))),
        dropped: p.dropped_pixels + if manual_drop(inp, dt_fired) && !placed && st.dy != 0 {
            1int
        } else {
            0int
        },
        placed,
    }
}


/// A rotation request is rejected, leaving the orientation unchanged,
/// exactly when some resulting cell would leave the board's columns,
/// fall under the floor, or overlap an occupied cell given the pending
/// movement; otherwise the requested orientation is taken.
pub proof fn lemma_rotation_accepted_or_rejected(
    g: Seq<Seq<Option<Rgb>>>,
    p: Piece,
    inp: InputState,
    it_fired: bool,
    dt_fired: bool,
    fall_fired: bool,
)
    requires
        inp.rotate_clockwise_jp || inp.rotate_anticlockwise_jp,
    ensures
        ({
            let dx0 = horizontal_intent(inp, it_fired);
            let dy0 = vertical_intent(inp, dt_fired, fall_fired);
            let desired = desired_rotation(p.rotation as int, inp.rotate_clockwise_jp);
            let out = move_outcome(g, p, inp, it_fired, dt_fired, fall_fired);
            &&& !rotation_ok(g, p.shape, p.x as int, p.y as int, dx0, dy0, desired)
                ==> out.rotation == p.rotation as int
            &&& rotation_ok(g, p.shape, p.x as int, p.y as int, dx0, dy0, desired)
                ==> out.rotation == desired
        }),
{
}

/// The cells a piece shows after the rotation phase stay near the board
/// and near the anchor: one column past either edge at most, on or above
/// the floor, and within the offset table's span of the anchor.
proof fn lemma_cells1_bounds(
    g: Seq<Seq<Option<Rgb>>>,
    p0: Piece,
    dx0: int,
    dy0: int,
    desired: int,
    rotated: bool,
    cells1: Seq<(int, int)>,
)
    requires
        p0.wf(),
        -1 <= dx0 <= 1,
        -1 <= dy0 <= 0,
        rotated ==> rotation_ok(g, p0.shape, p0.x as int, p0.y as int, dx0, dy0, desired),
        cells1 == (if rotated {
            rotated_cells(p0.shape, p0.x as int, p0.y as int, desired)
        } else {
            piece_cells(p0)
        }),
    ensures
        forall|k: int|
            0 <= k < 4 ==> -1 <= (#[trigger] cells1[k]).0 <= BOARD_WIDTH && 0 <= cells1[k].1
                <= p0.y + 3,
        rotated ==> forall|k: int|
            0 <= k < 4 ==> p0.x - 2 <= (#[trigger] cells1[k]).0 <= p0.x + 1,
        !rotated ==> forall|k: int|
            0 <= k < 4 ==> 0 <= (#[trigger] cells1[k]).0 <= BOARD_WIDTH - 1 && p0.x - 3
                <= cells1[k].0 <= p0.x + 3,
{
    assert forall|k: int|
        0 <= k < 4 implies -1 <= (#[trigger] cells1[k]).0 <= BOARD_WIDTH && 0 <= cells1[k].1
        <= p0.y + 3 && (rotated ==> p0.x - 2 <= cells1[k].0 <= p0.x + 1) && (!rotated ==> 0
        <= cells1[k].0 <= BOARD_WIDTH - 1 && p0.x - 3 <= cells1[k].0 <= p0.x + 3) by {
        if rotated {
            assert(rotation_seg_ok(g, p0.shape, p0.x as int, p0.y as int, dx0, dy0, desired, k));
            lemma_offset_range(p0.shape, k, desired);
        }
    };
}

/// After the surviving movement is applied and each cell bound to the
/// board range, every cell is on the board's columns, above the floor,
/// and still within three columns and three rows of the moved anchor.
proof fn lemma_clamped_cells_wf(
    p0x: int,
    p0y: int,
    cells1: Seq<(int, int)>,
    st: Resolution,
    rotated: bool,
)
    requires
        -1 <= st.dx <= 1,
        -1 <= st.dy <= 0,
        forall|k: int|
            0 <= k < 4 ==> -1 <= (#[trigger] cells1[k]).0 <= BOARD_WIDTH && 0 <= cells1[k].1
                <= p0y + 3,
        rotated ==> forall|k: int|
            0 <= k < 4 ==> p0x - 2 <= (#[trigger] cells1[k]).0 <= p0x + 1,
        !rotated ==> forall|k: int|
            0 <= k < 4 ==> 0 <= (#[trigger] cells1[k]).0 <= BOARD_WIDTH - 1 && p0x - 3
                <= cells1[k].0 <= p0x + 3,
        st.dx != 0 ==> forall|k: int|
            0 <= k < 4 ==> 0 <= (#[trigger] cells1[k]).0 + st.dx <= BOARD_WIDTH - 1,
        st.dy != 0 ==> forall|k: int| 0 <= k < 4 ==> (#[trigger] cells1[k]).1 + st.dy >= 0,
    ensures
        forall|k: int|
            0 <= k < 4 ==> {
                let cx = clamp_x((#[trigger] cells1[k]).0 + st.dx);
                let cy = clamp_y(cells1[k].1 + st.dy);
                &&& 0 <= cx < BOARD_WIDTH
                &&& 0 <= cy
                &&& p0x + st.dx - 3 <= cx <= p0x + st.dx + 3
                &&& cy <= p0y + st.dy + 3
            },
{
}

/// Handles the active piece being moved by the player and by gravity for
/// one tick: the three timers accumulate the elapsed time, a rotate
/// intent is checked and applied, the translation is resolved segment by
/// segment against the grid, and the piece moves by what survives. On a
/// placement tick all three timers restart. Returns whether the piece
/// locked this tick.
#[verifier::rlimit(100)]
#[verifier::spinoff_prover]
pub fn move_pieces(
    piece: &mut Piece,
    board: &Board,
    fall_timer: &mut FallTimer,
    input_timer: &mut InputTimer,
    drop_input_timer: &mut DropInputTimer,
    input_state: &InputState,
    delta_us: u64,
) -> (placed: bool)
    requires
        old(piece).wf(),
        board.wf(),
    ensures
        final(piece).wf(),
        ({
            let it_fired = timer_fires(
                old(input_timer).0.spec_elapsed(),
                old(input_timer).0.spec_duration(),
                delta_us as int,
            );
            let dt_fired = timer_fires(
                old(drop_input_timer).0.spec_elapsed(),
                old(drop_input_timer).0.spec_duration(),
                delta_us as int,
            );
            let fall_fired = timer_fires(
                old(fall_timer).0.spec_elapsed(),
                old(fall_timer).0.spec_duration(),
                delta_us as int,
            );
            let out = move_outcome(board@, *old(piece), *input_state, it_fired, dt_fired,
                fall_fired);
            &&& placed == out.placed
            &&& final(piece).shape == old(piece).shape
            &&& final(piece).rotation == out.rotation
            &&& final(piece).x == out.x
            &&& final(piece).y == out.y
            &&& piece_cells(*final(piece)) == out.cells
            &&& final(piece).dropped_pixels == out.dropped
            &&& final(fall_timer).0.spec_duration() == old(fall_timer).0.spec_duration()
            &&& final(input_timer).0.spec_duration() == old(input_timer).0.spec_duration()
            &&& final(drop_input_timer).0.spec_duration() == old(
                drop_input_timer,
            ).0.spec_duration()
            &&& final(fall_timer).0.spec_elapsed() == if out.placed {
                0int
            } else {
                timer_next_elapsed(
                    old(fall_timer).0.spec_elapsed(),
                    old(fall_timer).0.spec_duration(),
                    delta_us as int,
                )
            }
            &&& final(input_timer).0.spec_elapsed() == if out.placed {
                0int
            } else {
                timer_next_elapsed(
                    old(input_timer).0.spec_elapsed(),
                    old(input_timer).0.spec_duration(),
                    delta_us as int,
                )
            }
            &&& final(drop_input_timer).0.spec_elapsed() == if out.placed {
                0int
            } else {
                timer_next_elapsed(
                    old(drop_input_timer).0.spec_elapsed(),
                    old(drop_input_timer).0.spec_duration(),
                    delta_us as int,
                )
            }
        }),
{
    let ghost g = board@;
    let ghost p0 = *old(piece);
    proof {
        assert(0 <= p0.segments@[0].0 < BOARD_WIDTH);
        assert(p0.x - 3 <= p0.segments@[0].0 <= p0.x + 3);
        assert(0 <= p0.segments@[0].1 <= p0.y + 3);
        assert(-3 <= p0.x <= BOARD_WIDTH + 2);
        assert(-3 <= p0.y <= PIECE_SPAWN_YP);
    }
    let fall_fired = fall_timer.0.tick(delta_us);
    let it_fired = input_timer.0.tick(delta_us);
    let dt_fired = drop_input_timer.0.tick(delta_us);

    let dropping = input_state.down_jp || (input_state.down && dt_fired);
    let mut movement_x: i32 = if input_state.left_jp || (input_state.left && it_fired) {
        -1
    } else if input_state.right_jp || (input_state.right && it_fired) {
        1
    } else {
        0
    };
    let mut movement_y: i32 = if dropping {
        -1
    } else {
        0
    };
    if fall_fired {
        movement_y = -1;
    }
    let ghost dx0 = movement_x as int;
    let ghost dy0 = movement_y as int;
    proof {
        assert(dx0 == horizontal_intent(*input_state, it_fired));
        assert(dy0 == vertical_intent(*input_state, dt_fired, fall_fired));
    }

    // Rotation, with its collision and edge check against the pending
    // movement.
    let requested = input_state.rotate_clockwise_jp || input_state.rotate_anticlockwise_jp;
    let desired: usize = if input_state.rotate_clockwise_jp {
        if piece.rotation + 1 > 3 {
            0
        } else {
            piece.rotation + 1
        }
    } else {
        if piece.rotation > 0 {
            piece.rotation - 1
        } else {
            3
        }
    };
    let ghost desired_g = desired_rotation(p0.rotation as int, input_state.rotate_clockwise_jp);
    proof {
        assert(desired as int == desired_g);
    }
    let mut rotated = false;
    if requested {
        let mut can_rotate = true;
        let mut i: usize = 0;
        while i < 4
            invariant
                board.wf(),
                g == board@,
                *piece == p0,
                p0.wf(),
                -3 <= p0.x <= BOARD_WIDTH + 2,
                -3 <= p0.y <= PIECE_SPAWN_YP,
                desired < 4,
                desired as int == desired_g,
                -1 <= movement_x <= 1,
                -1 <= movement_y <= 0,
                movement_x as int == dx0,
                movement_y as int == dy0,
                i <= 4,
                can_rotate == (forall|k: int|
                    0 <= k < i ==> #[trigger] rotation_seg_ok(
                        g,
                        p0.shape,
                        p0.x as int,
                        p0.y as int,
                        dx0,
                        dy0,
                        desired_g,
                        k,
                    )),
            decreases 4 - i,
        {
            let off = piece.shape.get_rotation_offset(i, desired);
            proof {
                lemma_offset_range(p0.shape, i as int, desired_g);
            }
            let rx = piece.x + movement_x + off.0;
            let ry = piece.y + movement_y + off.1;
            let mut seg_ok = false;
            if Board::is_on_board(rx, ry, true) {
                if !board.is_occupied(rx + movement_x, ry + movement_y) {
                    seg_ok = true;
                }
            }
            proof {
                assert(seg_ok == rotation_seg_ok(g, p0.shape, p0.x as int, p0.y as int, dx0,
                    dy0, desired_g, i as int));
            }
            if !seg_ok {
                can_rotate = false;
            }
            i = i + 1;
        }
        if can_rotate {
            rotated = true;
            piece.rotation = desired;
            let mut i: usize = 0;
            while i < 4
                invariant
                    piece.shape == p0.shape,
                    piece.x == p0.x,
                    piece.y == p0.y,
                    piece.rotation == desired,
                    piece.dropped_pixels == p0.dropped_pixels,
                    -3 <= p0.x <= BOARD_WIDTH + 2,
                    -3 <= p0.y <= PIECE_SPAWN_YP,
                    desired < 4,
                    desired as int == desired_g,
                    piece.segments@.len() == 4,
                    i <= 4,
                    forall|k: int|
                        0 <= k < i ==> ((#[trigger] piece.segments@[k]).0 as int, piece.segments@[
                            k
                        ].1 as int) == rotated_cells(p0.shape, p0.x as int, p0.y as int,
                            desired_g)[k],
                    forall|k: int|
                        i <= k < 4 ==> #[trigger] piece.segments@[k] == p0.segments@[k],
                decreases 4 - i,
            {
                let off = piece.shape.get_rotation_offset(i, desired);
                proof {
                    lemma_offset_range(p0.shape, i as int, desired_g);
                }
                piece.segments.set(i, (piece.x + off.0, piece.y + off.1));
                i = i + 1;
            }
        }
    }
    let ghost cells1 = if rotated {
        rotated_cells(p0.shape, p0.x as int, p0.y as int, desired_g)
    } else {
        piece_cells(p0)
    };
    proof {
        assert(rotated == (requested && rotation_ok(g, p0.shape, p0.x as int, p0.y as int, dx0,
            dy0, desired_g)));
        assert(piece.segments@.len() == 4);
        assert forall|k: int|
            0 <= k < 4 implies ((#[trigger] piece.segments@[k]).0 as int, piece.segments@[k].1
            as int) == cells1[k] by {};
        lemma_cells1_bounds(g, p0, dx0, dy0, desired_g, rotated, cells1);
    }

    // Collision resolution, segment by segment, against the current grid.
    let ghost st0 = Resolution { dx: dx0, dy: dy0, place: false, blocked: false, diag: false };
    let mut place_piece = false;
    let mut place_diagonal = false;
    let mut was_blocked = false;
    let mut i: usize = 0;
    while i < 4
        invariant
            board.wf(),
            g == board@,
            piece.segments@.len() == 4,
            forall|k: int|
                0 <= k < 4 ==> ((#[trigger] piece.segments@[k]).0 as int, piece.segments@[k].1
                    as int) == cells1[k],
            forall|k: int|
                0 <= k < 4 ==> -1 <= (#[trigger] cells1[k]).0 <= BOARD_WIDTH && 0 <= cells1[k].1
                    <= p0.y + 3,
            -3 <= p0.y <= PIECE_SPAWN_YP,
            i <= 4,
            -1 <= movement_x <= 1,
            -1 <= movement_y <= 0,
            (Resolution {
                dx: movement_x as int,
                dy: movement_y as int,
                place: place_piece,
                blocked: was_blocked,
                diag: place_diagonal,
            }) == resolve_upto(g, cells1, i as int, st0),
        decreases 4 - i,
    {
        let (sx, sy) = piece.segments[i];
        let ghost st_in = Resolution {
            dx: movement_x as int,
            dy: movement_y as int,
            place: place_piece,
            blocked: was_blocked,
            diag: place_diagonal,
        };
        if sx + movement_x < 0 {
            movement_x = 0;
        } else if sx + movement_x > BOARD_WIDTH as i32 - 1 {
            movement_x = 0;
        }
        if sy + movement_y < 0 {
            place_piece = true;
            movement_y = 0;
        }
        if movement_x == 0 && board.is_occupied(sx, sy + movement_y) {
            movement_y = 0;
            place_piece = true;
        }
        if movement_y == 0 && board.is_occupied(sx + movement_x, sy) {
            movement_x = 0;
            was_blocked = true;
        }
        if movement_x != 0 && movement_y != 0 && board.is_occupied(sx + movement_x, sy
            + movement_y) {
            movement_y = 0;
            place_diagonal = true;
        }
        if was_blocked {
            place_diagonal = false;
        }
        proof {
            assert((Resolution {
                dx: movement_x as int,
                dy: movement_y as int,
                place: place_piece,
                blocked: was_blocked,
                diag: place_diagonal,
            }) == resolve_seg(g, sx as int, sy as int, st_in));
            assert(resolve_upto(g, cells1, i as int + 1, st0) == resolve_seg(g, cells1[i as
                int].0, cells1[i as int].1, resolve_upto(g, cells1, i as int, st0)));
        }
        i = i + 1;
    }
    let ghost st = resolve_upto(g, cells1, 4, st0);
    proof {
        lemma_resolve_monotone(g, cells1, 4, st0);
        if movement_x != 0 {
            lemma_resolve_dx_survives(g, cells1, 4, st0);
        }
        if movement_y != 0 {
            lemma_resolve_dy_survives(g, cells1, 4, st0);
        }
    }

    // Apply what survives of the movement to the anchor and every
    // segment, binding each segment to the valid board range.
    piece.x = piece.x + movement_x;
    piece.y = piece.y + movement_y;
    let mut i: usize = 0;
    while i < 4
        invariant
            piece.shape == p0.shape,
            piece.rotation as int == (if rotated {
                desired_g
            } else {
                p0.rotation as int
            }),
            piece.rotation < 4,
            piece.x == p0.x + st.dx,
            piece.y == p0.y + st.dy,
            piece.dropped_pixels == p0.dropped_pixels,
            piece.segments@.len() == 4,
            i <= 4,
            movement_x as int == st.dx,
            movement_y as int == st.dy,
            -1 <= movement_x <= 1,
            -1 <= movement_y <= 0,
            st.dx != 0 ==> forall|k: int|
                0 <= k < 4 ==> 0 <= (#[trigger] cells1[k]).0 + st.dx <= BOARD_WIDTH - 1,
            st.dy != 0 ==> forall|k: int| 0 <= k < 4 ==> (#[trigger] cells1[k]).1 + st.dy >= 0,
            forall|k: int|
                0 <= k < 4 ==> -1 <= (#[trigger] cells1[k]).0 <= BOARD_WIDTH && 0 <= cells1[k].1
                    <= p0.y + 3,
            rotated ==> forall|k: int|
                0 <= k < 4 ==> p0.x - 2 <= (#[trigger] cells1[k]).0 <= p0.x + 1,
            !rotated ==> forall|k: int|
                0 <= k < 4 ==> 0 <= (#[trigger] cells1[k]).0 <= BOARD_WIDTH - 1 && p0.x - 3
                    <= cells1[k].0 <= p0.x + 3,
            -3 <= p0.x <= BOARD_WIDTH + 2,
            -3 <= p0.y <= PIECE_SPAWN_YP,
            forall|k: int|
                i <= k < 4 ==> ((#[trigger] piece.segments@[k]).0 as int, piece.segments@[k].1
                    as int) == cells1[k],
            forall|k: int|
                0 <= k < i ==> ((#[trigger] piece.segments@[k]).0 as int, piece.segments@[k].1
                    as int) == (clamp_x(cells1[k].0 + st.dx), clamp_y(cells1[k].1 + st.dy)),
        decreases 4 - i,
    {
        let (sx0, sy0) = piece.segments[i];
        let mut sx = sx0 + movement_x;
        let mut sy = sy0 + movement_y;
        Board::clamp_to_board(&mut sx, &mut sy);
        piece.segments.set(i, (sx, sy));
        i = i + 1;
    }

    let placed = place_piece || place_diagonal;
    if placed {
        fall_timer.0.reset();
        input_timer.0.reset();
        drop_input_timer.0.reset();
    }
    if dropping && !place_piece && !place_diagonal && movement_y != 0 {
        proof {
            assert(piece.dropped_pixels <= PIECE_SPAWN_YP + 3);
        }
        piece.dropped_pixels = piece.dropped_pixels + 1;
    }
    proof {
        let out = move_outcome(g, p0, *input_state, it_fired, dt_fired, fall_fired);
        assert(piece_cells(*piece) =~= out.cells);
        lemma_clamped_cells_wf(p0.x as int, p0.y as int, cells1, st, rotated);
        assert forall|k: int|
            0 <= k < 4 implies 0 <= (#[trigger] piece.segments@[k]).0 < BOARD_WIDTH && 0
            <= piece.segments@[k].1 && piece.x - 3 <= piece.segments@[k].0 <= piece.x + 3
            && piece.segments@[k].1 <= piece.y + 3 by {
            assert((piece.segments@[k].0 as int, piece.segments@[k].1 as int) == (clamp_x(
                cells1[k].0 + st.dx,
            ), clamp_y(cells1[k].1 + st.dy)));
        };
        assert(piece.wf());
    }
    placed
}

} // verus!

