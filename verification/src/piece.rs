//! The active piece: the single falling tetromino, its anchor, rotation,
//! segment cells and soft-drop distance.

use vstd::prelude::*;

use crate::consts::{BOARD_WIDTH, PIECE_SPAWN_XP, PIECE_SPAWN_YP};
use crate::shape::{shape_offset, Shape};

verus! {

/// The single currently-falling piece. The segment cells are the four
/// world positions of its blocks; they follow the anchor and the offset
/// table, and stay within the board's horizontal range and above the floor.
pub struct Piece {
    pub shape: Shape,
    pub rotation: usize,
    pub x: i32,
    pub y: i32,
    pub segments: Vec<(i32, i32)>,
    pub dropped_pixels: usize,
}

/// The four segment cells of a piece, as mathematical pairs.
pub open spec fn piece_cells(p: Piece) -> Seq<(int, int)> {
    Seq::new(4, |i: int| (p.segments@[i].0 as int, p.segments@[i].1 as int))
}

impl Piece {
    /// Well-formedness: a valid rotation index, exactly four segment
    /// cells, every cell inside the board's columns and at or above the
    /// floor, every cell within three columns and three rows of the
    /// anchor, and a soft-drop count that never exceeds the distance
    /// fallen from the spawn row.
    pub open spec fn wf(&self) -> bool {
        &&& self.rotation < 4
        &&& self.segments@.len() == 4
        &&& forall|i: int|
            0 <= i < 4 ==> 0 <= (#[trigger] self.segments@[i]).0 < BOARD_WIDTH
        &&& forall|i: int| 0 <= i < 4 ==> 0 <= (#[trigger] self.segments@[i]).1
        &&& forall|i: int|
            0 <= i < 4 ==> self.x - 3 <= (#[trigger] self.segments@[i]).0 <= self.x + 3
        &&& forall|i: int| 0 <= i < 4 ==> (#[trigger] self.segments@[i]).1 <= self.y + 3
        &&& self.y + self.dropped_pixels <= PIECE_SPAWN_YP
    }

    /// A fresh piece of the given shape and rotation at the spawn anchor.
    pub fn spawn(shape: Shape, rotation: usize) -> (p: Piece)
        requires
            rotation < 4,
        ensures
            p.wf(),
            p.shape == shape,
            p.rotation == rotation,
            p.x == PIECE_SPAWN_XP,
            p.y == PIECE_SPAWN_YP,
            p.dropped_pixels == 0,
            forall|i: int|
                0 <= i < 4 ==> #[trigger] piece_cells(p)[i] == (
                    PIECE_SPAWN_XP + shape_offset(shape, i, rotation as int).0,
                    PIECE_SPAWN_YP + shape_offset(shape, i, rotation as int).1,
                ),
    {
        let mut segments: Vec<(i32, i32)> = Vec::new();
        let mut i: usize = 0;
        while i < 4
            invariant
                rotation < 4,
                i <= 4,
                segments@.len() == i,
                forall|k: int|
                    0 <= k < i ==> #[trigger] segments@[k] == (
                        (PIECE_SPAWN_XP + shape_offset(shape, k, rotation as int).0) as i32,
                        (PIECE_SPAWN_YP + shape_offset(shape, k, rotation as int).1) as i32,
                    ),
            decreases 4 - i,
        {
            let off = shape.get_rotation_offset(i, rotation);
            proof {
                lemma_offset_range(shape, i as int, rotation as int);
            }
            segments.push((PIECE_SPAWN_XP + off.0, PIECE_SPAWN_YP + off.1));
            i = i + 1;
        }
        let p = Piece { shape, rotation, x: PIECE_SPAWN_XP, y: PIECE_SPAWN_YP, segments,
            dropped_pixels: 0 };
        proof {
            assert forall|k: int| 0 <= k < 4 implies 0 <= (#[trigger] p.segments@[k]).0
                < BOARD_WIDTH && 0 <= p.segments@[k].1 && p.x - 3 <= p.segments@[k].0 <= p.x + 3
                && p.segments@[k].1 <= p.y + 3 by {
                lemma_offset_range(shape, k, rotation as int);
            }
        }
        p
    }
}

/// No cell of a well-formed active piece ever leaves the board's columns
/// or falls under the floor.
pub proof fn lemma_piece_cells_on_board(p: Piece)
    requires
        p.wf(),
    ensures
        forall|i: int|
            0 <= i < 4 ==> 0 <= (#[trigger] piece_cells(p)[i]).0 < BOARD_WIDTH && 0
                <= piece_cells(p)[i].1,
{
}

/// Every offset of the table is small: within two columns to the left,
/// one to the right, one row down and three rows up of the anchor.
pub proof fn lemma_offset_range(s: Shape, seg: int, rot: int)
    ensures
        -2 <= shape_offset(s, seg, rot).0 <= 1,
        -1 <= shape_offset(s, seg, rot).1 <= 3,
{
}

} // verus!
