//! The seven tetromino shapes and their per-rotation cell offset table.

use vstd::prelude::*;

use crate::rng::random_int_inclusive;

verus! {

/// One of the seven tetromino shapes.
#[derive(Clone, Copy, Debug, PartialEq, Eq, Structural)]
pub enum Shape {
    L,
    J,
    S,
    Z,
    O,
    T,
    I,
}

/// A display color, one channel byte each.
#[derive(Clone, Copy, Debug, PartialEq, Eq, Structural)]
pub struct Rgb {
    pub r: u8,
    pub g: u8,
    pub b: u8,
}

/// The cell offset of one segment of a shape, relative to the piece anchor,
/// for a given rotation. Indexes outside the four segments or the four
/// rotations fall back to the anchor itself.
pub open spec fn shape_offset(s: Shape, seg: int, rot: int) -> (int, int) {
    match s {
        Shape::L => {
            if rot == 0 {
                if seg == 0 { (0, 1) } else if seg == 1 { (0, 0) }
                else if seg == 2 { (0, -1) } else if seg == 3 { (1, -1) } else { (0, 0) }
            } else if rot == 1 {
                if seg == 0 { (1, 0) } else if seg == 1 { (0, 0) }
                else if seg == 2 { (-1, 0) } else if seg == 3 { (-1, -1) } else { (0, 0) }
            } else if rot == 2 {
                if seg == 0 { (0, -1) } else if seg == 1 { (0, 0) }
                else if seg == 2 { (0, 1) } else if seg == 3 { (-1, 1) } else { (0, 0) }
            } else if rot == 3 {
                if seg == 0 { (-1, 0) } else if seg == 1 { (0, 0) }
                else if seg == 2 { (1, 0) } else if seg == 3 { (1, 1) } else { (0, 0) }
            } else {
                (0, 0)
            }
        },
        Shape::J => {
            if rot == 0 {
                if seg == 0 { (0, 1) } else if seg == 1 { (0, 0) }
                else if seg == 2 { (0, -1) } else if seg == 3 { (-1, -1) } else { (0, 0) }
            } else if rot == 1 {
                if seg == 0 { (1, 0) } else if seg == 1 { (0, 0) }
                else if seg == 2 { (-1, 0) } else if seg == 3 { (-1, 1) } else { (0, 0) }
            } else if rot == 2 {
                if seg == 0 { (0, -1) } else if seg == 1 { (0, 0) }
                else if seg == 2 { (0, 1) } else if seg == 3 { (1, 1) } else { (0, 0) }
            } else if rot == 3 {
                if seg == 0 { (-1, 0) } else if seg == 1 { (0, 0) }
                else if seg == 2 { (1, 0) } else if seg == 3 { (1, -1) } else { (0, 0) }
            } else {
                (0, 0)
            }
        },
        Shape::S => {
            if rot == 0 || rot == 2 {
                if seg == 0 { (-1, 0) } else if seg == 1 { (0, 0) }
                else if seg == 2 { (0, 1) } else if seg == 3 { (1, 1) } else { (0, 0) }
            } else if rot == 1 || rot == 3 {
                if seg == 0 { (-1, 2) } else if seg == 1 { (-1, 1) }
                else if seg == 2 { (0, 1) } else if seg == 3 { (0, 0) } else { (0, 0) }
            } else {
                (0, 0)
            }
        },
        Shape::Z => {
            if rot == 0 || rot == 2 {
                if seg == 0 { (-1, 1) } else if seg == 1 { (0, 1) }
                else if seg == 2 { (0, 0) } else if seg == 3 { (1, 0) } else { (0, 0) }
            } else if rot == 1 || rot == 3 {
                if seg == 0 { (0, 2) } else if seg == 1 { (0, 1) }
                else if seg == 2 { (-1, 1) } else if seg == 3 { (-1, 0) } else { (0, 0) }
            } else {
                (0, 0)
            }
        },
        Shape::T => {
            if rot == 0 {
                if seg == 0 { (-1, 0) } else if seg == 1 { (0, 0) }
                else if seg == 2 { (1, 0) } else if seg == 3 { (0, -1) } else { (0, 0) }
            } else if rot == 1 {
                if seg == 0 { (0, 1) } else if seg == 1 { (0, 0) }
                else if seg == 2 { (0, -1) } else if seg == 3 { (-1, 0) } else { (0, 0) }
            } else if rot == 2 {
                if seg == 0 { (1, 0) } else if seg == 1 { (0, 0) }
                else if seg == 2 { (-1, 0) } else if seg == 3 { (0, 1) } else { (0, 0) }
            } else if rot == 3 {
                if seg == 0 { (0, -1) } else if seg == 1 { (0, 0) }
                else if seg == 2 { (0, 1) } else if seg == 3 { (1, 0) } else { (0, 0) }
            } else {
                (0, 0)
            }
        },
        Shape::O => {
            if seg == 0 { (0, 0) } else if seg == 1 { (0, 1) }
            else if seg == 2 { (1, 0) } else if seg == 3 { (1, 1) } else { (0, 0) }
        },
        Shape::I => {
            if rot == 0 || rot == 2 {
                if seg == 0 { (0, 0) } else if seg == 1 { (0, 1) }
                else if seg == 2 { (0, 2) } else if seg == 3 { (0, 3) } else { (0, 0) }
            } else if rot == 1 || rot == 3 {
                if seg == 0 { (-2, 0) } else if seg == 1 { (-1, 0) }
                else if seg == 2 { (0, 0) } else if seg == 3 { (1, 0) } else { (0, 0) }
            } else {
                (0, 0)
            }
        },
    }
}

/// The display color of each shape.
pub open spec fn shape_color(s: Shape) -> Rgb {
    match s {
        Shape::L => Rgb { r: 255, g: 0, b: 0 },
        Shape::J => Rgb { r: 0, g: 0, b: 255 },
        Shape::S => Rgb { r: 255, g: 255, b: 255 },
        Shape::Z => Rgb { r: 255, g: 255, b: 0 },
        Shape::O => Rgb { r: 0, g: 255, b: 255 },
        Shape::T => Rgb { r: 255, g: 0, b: 255 },
        Shape::I => Rgb { r: 0, g: 255, b: 0 },
    }
}

impl Shape {
    /// Maps the integers 0 through 6 onto the seven shapes; any other value
    /// is clamped to a valid shape rather than rejected.
    pub fn from_int(n: i32) -> (s: Shape)
        ensures
            s == spec_shape_from_int(n as int),
    {
        match n {
            0 => Shape::L,
            1 => Shape::J,
            2 => Shape::S,
            3 => Shape::Z,
            4 => Shape::O,
            5 => Shape::T,
            6 => Shape::I,
            _ => Shape::I,
        }
    }

    /// Draws a shape uniformly at random, with no anti-repeat scheme.
    pub fn get_random() -> Shape {
        Shape::from_int(random_int_inclusive(0, 6))
    }

    /// The offset of one of the shape's four segments at a given rotation.
    pub fn get_rotation_offset(&self, segment_index: usize, rotation_index: usize) -> (o: (
        i32,
        i32,
    ))
        ensures
            (o.0 as int, o.1 as int) == shape_offset(*self, segment_index as int,
                rotation_index as int),
    {
        match self {
            Shape::L => {
                match rotation_index {
                    0 => match segment_index {
                        0 => (0, 1),
                        1 => (0, 0),
                        2 => (0, -1),
                        3 => (1, -1),
                        _ => (0, 0),
                    },
                    1 => match segment_index {
                        0 => (1, 0),
                        1 => (0, 0),
                        2 => (-1, 0),
                        3 => (-1, -1),
                        _ => (0, 0),
                    },
                    2 => match segment_index {
                        0 => (0, -1),
                        1 => (0, 0),
                        2 => (0, 1),
                        3 => (-1, 1),
                        _ => (0, 0),
                    },
                    3 => match segment_index {
                        0 => (-1, 0),
                        1 => (0, 0),
                        2 => (1, 0),
                        3 => (1, 1),
                        _ => (0, 0),
                    },
                    _ => (0, 0),
                }
            },
            Shape::J => {
                match rotation_index {
                    0 => match segment_index {
                        0 => (0, 1),
                        1 => (0, 0),
                        2 => (0, -1),
                        3 => (-1, -1),
                        _ => (0, 0),
                    },
                    1 => match segment_index {
                        0 => (1, 0),
                        1 => (0, 0),
                        2 => (-1, 0),
                        3 => (-1, 1),
                        _ => (0, 0),
                    },
                    2 => match segment_index {
                        0 => (0, -1),
                        1 => (0, 0),
                        2 => (0, 1),
                        3 => (1, 1),
                        _ => (0, 0),
                    },
                    3 => match segment_index {
                        0 => (-1, 0),
                        1 => (0, 0),
                        2 => (1, 0),
                        3 => (1, -1),
                        _ => (0, 0),
                    },
                    _ => (0, 0),
                }
            },
            Shape::S => {
                match rotation_index {
                    0 | 2 => match segment_index {
                        0 => (-1, 0),
                        1 => (0, 0),
                        2 => (0, 1),
                        3 => (1, 1),
                        _ => (0, 0),
                    },
                    1 | 3 => match segment_index {
                        0 => (-1, 2),
                        1 => (-1, 1),
                        2 => (0, 1),
                        3 => (0, 0),
                        _ => (0, 0),
                    },
                    _ => (0, 0),
                }
            },
            Shape::Z => {
                match rotation_index {
                    0 | 2 => match segment_index {
                        0 => (-1, 1),
                        1 => (0, 1),
                        2 => (0, 0),
                        3 => (1, 0),
                        _ => (0, 0),
                    },
                    1 | 3 => match segment_index {
                        0 => (0, 2),
                        1 => (0, 1),
                        2 => (-1, 1),
                        3 => (-1, 0),
                        _ => (0, 0),
                    },
                    _ => (0, 0),
                }
            },
            Shape::T => {
                match rotation_index {
                    0 => match segment_index {
                        0 => (-1, 0),
                        1 => (0, 0),
                        2 => (1, 0),
                        3 => (0, -1),
                        _ => (0, 0),
                    },
                    1 => match segment_index {
                        0 => (0, 1),
                        1 => (0, 0),
                        2 => (0, -1),
                        3 => (-1, 0),
                        _ => (0, 0),
                    },
                    2 => match segment_index {
                        0 => (1, 0),
                        1 => (0, 0),
                        2 => (-1, 0),
                        3 => (0, 1),
                        _ => (0, 0),
                    },
                    3 => match segment_index {
                        0 => (0, -1),
                        1 => (0, 0),
                        2 => (0, 1),
                        3 => (1, 0),
                        _ => (0, 0),
                    },
                    _ => (0, 0),
                }
            },
            Shape::O => {
                match segment_index {
                    0 => (0, 0),
                    1 => (0, 1),
                    2 => (1, 0),
                    3 => (1, 1),
                    _ => (0, 0),
                }
            },
            Shape::I => {
                match rotation_index {
                    0 | 2 => match segment_index {
                        0 => (0, 0),
                        1 => (0, 1),
                        2 => (0, 2),
                        3 => (0, 3),
                        _ => (0, 0),
                    },
                    1 | 3 => match segment_index {
                        0 => (-2, 0),
                        1 => (-1, 0),
                        2 => (0, 0),
                        3 => (1, 0),
                        _ => (0, 0),
                    },
                    _ => (0, 0),
                }
            },
        }
    }

    /// The display color associated with the shape.
    pub fn get_color(&self) -> (c: Rgb)
        ensures
            c == shape_color(*self),
    {
        match self {
            Shape::L => Rgb { r: 255, g: 0, b: 0 },
            Shape::J => Rgb { r: 0, g: 0, b: 255 },
            Shape::S => Rgb { r: 255, g: 255, b: 255 },
            Shape::Z => Rgb { r: 255, g: 255, b: 0 },
            Shape::O => Rgb { r: 0, g: 255, b: 255 },
            Shape::T => Rgb { r: 255, g: 0, b: 255 },
            Shape::I => Rgb { r: 0, g: 255, b: 0 },
        }
    }
}

/// Whether two cells share an edge.
pub open spec fn cells_adjacent(a: (int, int), b: (int, int)) -> bool {
    ||| a.0 == b.0 && (a.1 == b.1 + 1 || a.1 + 1 == b.1)
    ||| a.1 == b.1 && (a.0 == b.0 + 1 || a.0 + 1 == b.0)
}

/// Whether four cells form a single edge-connected group. Reachability from
/// the first cell is grown for three rounds, enough to cover a chain of four.
pub open spec fn four_connected(c0: (int, int), c1: (int, int), c2: (int, int), c3: (
    int,
    int,
)) -> bool {
    let a1 = cells_adjacent(c1, c0);
    let a2 = cells_adjacent(c2, c0);
    let a3 = cells_adjacent(c3, c0);
    let b1 = a1 || (a2 && cells_adjacent(c1, c2)) || (a3 && cells_adjacent(c1, c3));
    let b2 = a2 || (a1 && cells_adjacent(c2, c1)) || (a3 && cells_adjacent(c2, c3));
    let b3 = a3 || (a1 && cells_adjacent(c3, c1)) || (a2 && cells_adjacent(c3, c2));
    let d1 = b1 || (b2 && cells_adjacent(c1, c2)) || (b3 && cells_adjacent(c1, c3));
    let d2 = b2 || (b1 && cells_adjacent(c2, c1)) || (b3 && cells_adjacent(c2, c3));
    let d3 = b3 || (b1 && cells_adjacent(c3, c1)) || (b2 && cells_adjacent(c3, c2));
    d1 && d2 && d3
}

/// Whether the four segment offsets of a shape at a rotation are pairwise
/// distinct.
pub open spec fn offsets_distinct(s: Shape, rot: int) -> bool {
    forall|i: int, j: int|
        0 <= i < j < 4 ==> shape_offset(s, i, rot) != shape_offset(s, j, rot)
}

/// For every shape and rotation, the offset table yields four distinct cells
/// that form one edge-connected tetromino.
pub proof fn lemma_offsets_form_tetromino(s: Shape, rot: int)
    requires
        0 <= rot < 4,
    ensures
        offsets_distinct(s, rot),
        four_connected(
            shape_offset(s, 0, rot),
            shape_offset(s, 1, rot),
            shape_offset(s, 2, rot),
            shape_offset(s, 3, rot),
        ),
{
}

/// O's offsets are identical across all four rotations.
pub proof fn lemma_o_rotation_invariant(seg: int, r1: int, r2: int)
    requires
        0 <= r1 < 4,
        0 <= r2 < 4,
    ensures
        shape_offset(Shape::O, seg, r1) == shape_offset(Shape::O, seg, r2),
{
}

/// For S, Z and I, rotation 0 offsets equal rotation 2 offsets, and
/// rotation 1 offsets equal rotation 3 offsets.
pub proof fn lemma_two_fold_symmetry(s: Shape, seg: int)
    requires
        s == Shape::S || s == Shape::Z || s == Shape::I,
    ensures
        shape_offset(s, seg, 0) == shape_offset(s, seg, 2),
        shape_offset(s, seg, 1) == shape_offset(s, seg, 3),
{
}

/// The value `Shape::from_int` returns for each integer.
pub open spec fn spec_shape_from_int(n: int) -> Shape {
    if n == 0 { Shape::L }
    else if n == 1 { Shape::J }
    else if n == 2 { Shape::S }
    else if n == 3 { Shape::Z }
    else if n == 4 { Shape::O }
    else if n == 5 { Shape::T }
    else if n == 6 { Shape::I }
    else { Shape::I }
}

} // verus!
