//! The occupancy grid: which cells of the playfield hold locked segments,
//! and the line-clear engine that removes full rows and compacts the stack.

use vstd::prelude::*;

use crate::consts::{BOARD_HEIGHT, BOARD_WIDTH, GRID_ROWS};
use crate::shape::Rgb;

verus! {

/// Well-formedness of a grid: the fixed number of rows, each of the fixed
/// width.
pub open spec fn grid_wf(g: Seq<Seq<Option<Rgb>>>) -> bool {
    &&& g.len() == GRID_ROWS
    &&& forall|y: int| 0 <= y < GRID_ROWS ==> (#[trigger] g[y]).len() == BOARD_WIDTH
}

/// Whether the grid holds a locked segment at the given cell. Cells outside
/// the grid are never occupied.
pub open spec fn grid_occupied(g: Seq<Seq<Option<Rgb>>>, x: int, y: int) -> bool {
    &&& 0 <= x < BOARD_WIDTH
    &&& 0 <= y < GRID_ROWS
    &&& g[y][x] is Some
}

/// The number of occupied cells among the first `n` of a row.
pub open spec fn row_count_upto(row: Seq<Option<Rgb>>, n: int) -> int
    decreases n,
{
    if n <= 0 {
        0
    } else {
        row_count_upto(row, n - 1) + if row[n - 1] is Some {
            1int
        } else {
            0
        }
    }
}

/// The number of occupied cells in a row.
pub open spec fn row_occupied_count(row: Seq<Option<Rgb>>) -> int {
    row_count_upto(row, BOARD_WIDTH as int)
}

/// Whether every cell of a row is occupied.
pub open spec fn row_is_full(row: Seq<Option<Rgb>>) -> bool {
    forall|x: int| 0 <= x < BOARD_WIDTH ==> (#[trigger] row[x]) is Some
}

/// Whether every cell of a row is empty.
pub open spec fn row_is_empty(row: Seq<Option<Rgb>>) -> bool {
    forall|x: int| 0 <= x < BOARD_WIDTH ==> (#[trigger] row[x]) is None
}

/// Whether row `y` of the grid is full. Only rows of the visible board can
/// clear.
pub open spec fn is_full_row(g: Seq<Seq<Option<Rgb>>>, y: int) -> bool {
    &&& 0 <= y < BOARD_HEIGHT
    &&& row_is_full(g[y])
}

/// The number of full rows strictly below row `y`.
pub open spec fn full_rows_below(g: Seq<Seq<Option<Rgb>>>, y: int) -> int
    decreases y,
{
    if y <= 0 {
        0
    } else {
        full_rows_below(g, y - 1) + if is_full_row(g, y - 1) {
            1int
        } else {
            0
        }
    }
}

/// A row's occupied count never exceeds the prefix length, and reaches it
/// exactly when the whole prefix is occupied.
pub proof fn lemma_row_count_full(row: Seq<Option<Rgb>>, n: int)
    requires
        n >= 0,
    ensures
        0 <= row_count_upto(row, n) <= n,
        row_count_upto(row, n) == n <==> (forall|x: int|
            0 <= x < n ==> (#[trigger] row[x]) is Some),
    decreases n,
{
    if n > 0 {
        lemma_row_count_full(row, n - 1);
    }
}

/// There are never more full rows below a row than there are rows below it.
pub proof fn lemma_full_rows_below_bound(g: Seq<Seq<Option<Rgb>>>, y: int)
    requires
        y >= 0,
    ensures
        0 <= full_rows_below(g, y) <= y,
    decreases y,
{
    if y > 0 {
        lemma_full_rows_below_bound(g, y - 1);
    }
}

/// A surviving row keeps a place below the surviving rows above it: its
/// compacted index is below the number of rows surviving under `n`.
pub proof fn lemma_compacted_index_bound(g: Seq<Seq<Option<Rgb>>>, k: int, n: int)
    requires
        0 <= k < n,
        !is_full_row(g, k),
    ensures
        k - full_rows_below(g, k) < n - full_rows_below(g, n),
    decreases n - k,
{
    if n > k + 1 {
        lemma_compacted_index_bound(g, k, n - 1);
    }
}

/// When exactly one row of the grid is full, clearing removes exactly
/// that one row: every row above it compacts down by exactly one, and
/// every row below keeps its place.
pub proof fn lemma_single_full_row_shift(g: Seq<Seq<Option<Rgb>>>, r: int)
    requires
        0 <= r < BOARD_HEIGHT,
        is_full_row(g, r),
        forall|k: int| 0 <= k < GRID_ROWS && k != r ==> !is_full_row(g, k),
    ensures
        full_rows_below(g, GRID_ROWS as int) == 1,
        forall|y: int| r < y < GRID_ROWS ==> y - full_rows_below(g, y) == y - 1,
        forall|y: int| 0 <= y <= r ==> y - full_rows_below(g, y) == y,
{
    assert forall|y: int| 0 <= y <= GRID_ROWS implies full_rows_below(g, y) == (if y > r {
        1int
    } else {
        0int
    }) by {
        lemma_full_rows_below_single(g, r, y);
    }
}

/// Counting full rows under `y` when only row `r` is full gives one
/// exactly when `y` lies above `r`.
proof fn lemma_full_rows_below_single(g: Seq<Seq<Option<Rgb>>>, r: int, y: int)
    requires
        0 <= r < GRID_ROWS,
        is_full_row(g, r),
        forall|k: int| 0 <= k < GRID_ROWS && k != r ==> !is_full_row(g, k),
        0 <= y <= GRID_ROWS,
    ensures
        full_rows_below(g, y) == (if y > r {
            1int
        } else {
            0int
        }),
    decreases y,
{
    if y > 0 {
        lemma_full_rows_below_single(g, r, y - 1);
    }
}

/// The playfield cell state: empty cells, or cells filled with the color of
/// the piece that locked there.
pub struct Board {
    cells: Vec<Vec<Option<Rgb>>>,
}

impl View for Board {
    type V = Seq<Seq<Option<Rgb>>>;

    closed spec fn view(&self) -> Seq<Seq<Option<Rgb>>> {
        self.cells@.map_values(|row: Vec<Option<Rgb>>| row@)
    }
}

impl Board {

    /// Well-formedness: the fixed grid dimensions.
    pub open spec fn wf(&self) -> bool {
        grid_wf(self@)
    }

    /// The view reads the underlying rows one to one.
    proof fn lemma_view(&self)
        ensures
            self@.len() == self.cells@.len(),
            forall|y: int| 0 <= y < self.cells@.len() ==> #[trigger] self@[y] == self.cells@[y]@,
    {
    }

    /// A fresh, fully empty grid.
    pub fn new() -> (b: Board)
        ensures
            b.wf(),
            forall|y: int| 0 <= y < GRID_ROWS ==> row_is_empty(#[trigger] b@[y]),
    {
        let mut cells: Vec<Vec<Option<Rgb>>> = Vec::new();
        let mut y: usize = 0;
        while y < GRID_ROWS
            invariant
                y <= GRID_ROWS,
                cells@.len() == y,
                forall|k: int| 0 <= k < y ==> (#[trigger] cells@[k])@.len() == BOARD_WIDTH,
                forall|k: int| 0 <= k < y ==> row_is_empty((#[trigger] cells@[k])@),
            decreases GRID_ROWS - y,
        {
            let mut row: Vec<Option<Rgb>> = Vec::new();
            let mut x: usize = 0;
            while x < BOARD_WIDTH
                invariant
                    x <= BOARD_WIDTH,
                    row@.len() == x,
                    forall|j: int| 0 <= j < x ==> (#[trigger] row@[j]) is None,
                decreases BOARD_WIDTH - x,
            {
                row.push(None);
                x = x + 1;
            }
            cells.push(row);
            y = y + 1;
        }
        let b = Board { cells };
        proof {
            b.lemma_view();
        }
        b
    }

    /// Checks whether or not a certain position is within the board's
    /// boundaries.
    pub fn is_on_board(x: i32, y: i32, ignore_upper_boundary: bool) -> (r: bool)
        ensures
            r == (x >= 0 && x < BOARD_WIDTH && y >= 0 && (ignore_upper_boundary || y
                < BOARD_HEIGHT)),
    {
        x >= 0 && x < BOARD_WIDTH as i32 && y >= 0 && (ignore_upper_boundary || y < BOARD_HEIGHT
            as i32)
    }

    /// Clamps a cell position between the board's edges: the columns are
    /// clamped to the board's width and the row to the floor.
    pub fn clamp_to_board(x: &mut i32, y: &mut i32)
        ensures
            *final(x) == if *old(x) < 0 {
                0int
            } else if *old(x) > BOARD_WIDTH - 1 {
                BOARD_WIDTH - 1
            } else {
                *old(x) as int
            },
            *final(y) == if *old(y) < 0 {
                0int
            } else {
                *old(y) as int
            },
    {
        if *x < 0 {
            *x = 0;
        } else if *x > BOARD_WIDTH as i32 - 1 {
            *x = BOARD_WIDTH as i32 - 1;
        }
        if *y < 0 {
            *y = 0;
        }
    }

    /// Whether the given cell holds a locked segment; positions outside the
    /// grid are reported free.
    pub fn is_occupied(&self, x: i32, y: i32) -> (r: bool)
        requires
            self.wf(),
        ensures
            r == grid_occupied(self@, x as int, y as int),
    {
        if x >= 0 && x < BOARD_WIDTH as i32 && y >= 0 && y < GRID_ROWS as i32 {
            let xu = x as usize;
            let yu = y as usize;
            proof {
                self.lemma_view();
                assert(self@[yu as int] == self.cells@[yu as int]@);
                assert(self@[yu as int].len() == BOARD_WIDTH);
            }
            self.cells[yu][xu].is_some()
        } else {
            false
        }
    }

    /// The color of the given cell, if a locked segment occupies it.
    pub fn cell(&self, x: usize, y: usize) -> (c: Option<Rgb>)
        requires
            self.wf(),
            x < BOARD_WIDTH,
            y < GRID_ROWS,
        ensures
            c == self@[y as int][x as int],
    {
        proof {
            self.lemma_view();
            assert(self@[y as int] == self.cells@[y as int]@);
            assert(self@[y as int].len() == BOARD_WIDTH);
        }
        self.cells[y][x]
    }

    /// Converts the given cells into permanent grid entries with the given
    /// color. Cells already occupied keep the new color.
    pub fn place(&mut self, cells: &Vec<(i32, i32)>, color: Rgb)
        requires
            old(self).wf(),
            forall|i: int|
                0 <= i < cells@.len() ==> 0 <= (#[trigger] cells@[i]).0 < BOARD_WIDTH && 0
                    <= cells@[i].1 < GRID_ROWS,
        ensures
            final(self).wf(),
            forall|x: int, y: int|
                0 <= x < BOARD_WIDTH && 0 <= y < GRID_ROWS ==> #[trigger] final(self)@[y][x] == (
                if exists|i: int|
                    0 <= i < cells@.len() && (#[trigger] cells@[i]).0 == x && cells@[i].1 == y {
                    Some(color)
                } else {
                    old(self)@[y][x]
                }),
    {
        let ghost g0 = self@;
        let mut i: usize = 0;
        while i < cells.len()
            invariant
                self.wf(),
                i <= cells@.len(),
                forall|k: int|
                    0 <= k < cells@.len() ==> 0 <= (#[trigger] cells@[k]).0 < BOARD_WIDTH && 0
                        <= cells@[k].1 < GRID_ROWS,
                forall|x: int, y: int|
                    0 <= x < BOARD_WIDTH && 0 <= y < GRID_ROWS ==> #[trigger] self@[y][x] == (
                    if exists|k: int|
                        0 <= k < i && (#[trigger] cells@[k]).0 == x && cells@[k].1 == y {
                        Some(color)
                    } else {
                        g0[y][x]
                    }),
            decreases cells@.len() - i,
        {
            proof {
                self.lemma_view();
            }
            let (cx, cy) = cells[i];
            let ghost prev = self@;
            let ghost prevcells = self.cells@;
            let x = cx as usize;
            let y = cy as usize;
            let mut row: Vec<Option<Rgb>> = Vec::new();
            let mut j: usize = 0;
            while j < BOARD_WIDTH
                invariant
                    self.wf(),
                    x < BOARD_WIDTH,
                    y < GRID_ROWS,
                    j <= BOARD_WIDTH,
                    row@.len() == j,
                    forall|t: int|
                        0 <= t < j ==> #[trigger] row@[t] == (if t == x {
                            Some(color)
                        } else {
                            self@[y as int][t]
                        }),
                decreases BOARD_WIDTH - j,
            {
                proof {
                    self.lemma_view();
                    assert(self@[y as int] == self.cells@[y as int]@);
                    assert(self@[y as int].len() == BOARD_WIDTH);
                }
                if j == x {
                    row.push(Some(color));
                } else {
                    row.push(self.cells[y][j]);
                }
                j = j + 1;
            }
            let ghost rowsnap = row@;
            self.cells.set(y, row);
            proof {
                self.lemma_view();
                assert forall|t: int| 0 <= t < GRID_ROWS implies #[trigger] self@[t] == (if t
                    == y as int {
                    rowsnap
                } else {
                    prev[t]
                }) by {
                    assert(self@[t] == self.cells@[t]@);
                    if t != y as int {
                        assert(self.cells@[t] == prevcells[t]);
                        assert(prev[t] == prevcells[t]@);
                    }
                }
                assert(self.wf());
                assert forall|xx: int, yy: int|
                    0 <= xx < BOARD_WIDTH && 0 <= yy < GRID_ROWS implies #[trigger] self@[yy][xx]
                    == (if exists|k: int|
                        0 <= k < i + 1 && (#[trigger] cells@[k]).0 == xx && cells@[k].1 == yy {
                        Some(color)
                    } else {
                        g0[yy][xx]
                    }) by {
                    if xx == x as int && yy == y as int {
                        assert(self@[yy][xx] == rowsnap[xx]);
                        assert((cells@[i as int]).0 == xx && cells@[i as int].1 == yy);
                    } else {
                        if yy == y as int {
                            assert(self@[yy][xx] == rowsnap[xx]);
                            assert(rowsnap[xx] == prev[yy][xx]);
                        } else {
                            assert(self@[yy][xx] == prev[yy][xx]);
                        }
                        assert(forall|k: int|
                            0 <= k < i + 1 && (#[trigger] cells@[k]).0 == xx && cells@[k].1 == yy
                                ==> k < i);
                    }
                }
            }
            i = i + 1;
        }
    }

    /// Counts the occupied cells in row `y` of the grid.
    pub fn count_occupied_in_row(&self, y: usize) -> (c: usize)
        requires
            self.wf(),
            y < GRID_ROWS,
        ensures
            c == row_occupied_count(self@[y as int]),
            c <= BOARD_WIDTH,
    {
        let mut c: usize = 0;
        let mut x: usize = 0;
        while x < BOARD_WIDTH
            invariant
                self.wf(),
                y < GRID_ROWS,
                x <= BOARD_WIDTH,
                c == row_count_upto(self@[y as int], x as int),
                c <= x,
            decreases BOARD_WIDTH - x,
        {
            proof {
                self.lemma_view();
                assert(self@[y as int] == self.cells@[y as int]@);
                assert(self@[y as int].len() == BOARD_WIDTH);
            }
            if self.cells[y][x].is_some() {
                c = c + 1;
            }
            x = x + 1;
        }
        c
    }

    /// Removes every full row and drops each surviving row by the number of
    /// full rows below it, in one simultaneous shift; the vacated rows at
    /// the top are left empty. Returns how many rows cleared.
    pub fn clear_full_rows(&mut self) -> (cleared: usize)
        requires
            old(self).wf(),
        ensures
            final(self).wf(),
            cleared == full_rows_below(old(self)@, GRID_ROWS as int),
            forall|y: int|
                0 <= y < GRID_ROWS && !is_full_row(old(self)@, y) ==> final(self)@[y
                    - full_rows_below(old(self)@, y)] == old(self)@[y],
            forall|y: int|
                GRID_ROWS - cleared <= y < GRID_ROWS ==> row_is_empty(#[trigger] final(self)@[y]),
    {
        let ghost g0 = self@;
        let mut kept: Vec<Vec<Option<Rgb>>> = Vec::new();
        let mut cleared: usize = 0;
        let mut y: usize = 0;
        while y < GRID_ROWS
            invariant
                self.wf(),
                self@ == g0,
                y <= GRID_ROWS,
                cleared == full_rows_below(g0, y as int),
                cleared <= y,
                kept@.len() + cleared == y,
                forall|k: int| 0 <= k < kept@.len() ==> (#[trigger] kept@[k])@.len() == BOARD_WIDTH,
                forall|k: int|
                    0 <= k < y && !is_full_row(g0, k) ==> 0 <= k - #[trigger] full_rows_below(
                        g0,
                        k,
                    ) < kept@.len(),
                forall|k: int|
                    0 <= k < y && !is_full_row(g0, k) ==> (#[trigger] kept@[k - full_rows_below(
                        g0,
                        k,
                    )])@ == g0[k],
            decreases GRID_ROWS - y,
        {
            let count = self.count_occupied_in_row(y);
            let full = y < BOARD_HEIGHT && count >= BOARD_WIDTH;
            proof {
                lemma_row_count_full(g0[y as int], BOARD_WIDTH as int);
                assert(full == is_full_row(g0, y as int));
            }
            if full {
                cleared = cleared + 1;
                proof {
                    assert(full_rows_below(g0, y as int + 1) == full_rows_below(g0, y as int)
                        + 1);
                    assert forall|k: int| 0 <= k < y as int + 1 && !is_full_row(g0, k) implies 0
                        <= k - #[trigger] full_rows_below(g0, k) < kept@.len() by {
                        lemma_full_rows_below_bound(g0, k);
                        lemma_compacted_index_bound(g0, k, y as int + 1);
                    }
                }
            } else {
                let mut row: Vec<Option<Rgb>> = Vec::new();
                let mut x: usize = 0;
                while x < BOARD_WIDTH
                    invariant
                        self.wf(),
                        self@ == g0,
                        y < GRID_ROWS,
                        x <= BOARD_WIDTH,
                        row@.len() == x,
                        forall|j: int| 0 <= j < x ==> row@[j] == g0[y as int][j],
                    decreases BOARD_WIDTH - x,
                {
                    proof {
                        self.lemma_view();
                        assert(self@[y as int] == self.cells@[y as int]@);
                        assert(self@[y as int].len() == BOARD_WIDTH);
                    }
                    row.push(self.cells[y][x]);
                    x = x + 1;
                }
                proof {
                    assert(row@ =~= g0[y as int]);
                }
                let ghost kept0 = kept@;
                kept.push(row);
                proof {
                    assert(full_rows_below(g0, y as int + 1) == full_rows_below(g0, y as int));
                    assert(kept@[kept@.len() - 1]@ == g0[y as int]);
                    assert forall|k: int| 0 <= k < y as int + 1 && !is_full_row(g0, k) implies 0
                        <= k - #[trigger] full_rows_below(g0, k) < kept@.len() by {
                        lemma_full_rows_below_bound(g0, k);
                        lemma_compacted_index_bound(g0, k, y as int + 1);
                    }
                    assert forall|k: int| 0 <= k < y as int + 1 && !is_full_row(g0, k) implies (
                    #[trigger] kept@[k - full_rows_below(g0, k)])@ == g0[k] by {
                        lemma_full_rows_below_bound(g0, k);
                        lemma_compacted_index_bound(g0, k, y as int + 1);
                        if k < y as int {
                            assert(0 <= k - full_rows_below(g0, k) < kept0.len());
                            assert(kept@[k - full_rows_below(g0, k)] == kept0[k
                                - full_rows_below(g0, k)]);
                            assert(kept0[k - full_rows_below(g0, k)]@ == g0[k]);
                        } else {
                            assert(full_rows_below(g0, k) == cleared as int);
                        }
                    }
                }
            }
            y = y + 1;
        }
        proof {
            lemma_full_rows_below_bound(g0, GRID_ROWS as int);
            assert(kept@.len() == GRID_ROWS - cleared);
        }
        let mut filled: usize = kept.len();
        while filled < GRID_ROWS
            invariant
                filled == kept@.len(),
                filled <= GRID_ROWS,
                cleared == full_rows_below(g0, GRID_ROWS as int),
                cleared <= GRID_ROWS,
                GRID_ROWS - cleared <= filled,
                forall|k: int| 0 <= k < kept@.len() ==> (#[trigger] kept@[k])@.len() == BOARD_WIDTH,
                forall|k: int|
                    0 <= k < GRID_ROWS && !is_full_row(g0, k) ==> 0 <= k
                        - #[trigger] full_rows_below(g0, k) < GRID_ROWS - cleared,
                forall|k: int|
                    0 <= k < GRID_ROWS && !is_full_row(g0, k) ==> (#[trigger] kept@[k
                        - full_rows_below(g0, k)])@ == g0[k],
                forall|k: int|
                    GRID_ROWS - cleared <= k < kept@.len() ==> row_is_empty(
                        (#[trigger] kept@[k])@,
                    ),
            decreases GRID_ROWS - filled,
        {
            let mut row: Vec<Option<Rgb>> = Vec::new();
            let mut x: usize = 0;
            while x < BOARD_WIDTH
                invariant
                    x <= BOARD_WIDTH,
                    row@.len() == x,
                    forall|j: int| 0 <= j < x ==> (#[trigger] row@[j]) is None,
                decreases BOARD_WIDTH - x,
            {
                row.push(None);
                x = x + 1;
            }
            proof {
                assert(row_is_empty(row@));
            }
            let ghost kept0 = kept@;
            kept.push(row);
            proof {
                assert forall|k: int| 0 <= k < GRID_ROWS && !is_full_row(g0, k) implies (
                #[trigger] kept@[k - full_rows_below(g0, k)])@ == g0[k] by {
                    assert(0 <= k - full_rows_below(g0, k) < GRID_ROWS - cleared);
                    assert(GRID_ROWS - cleared <= kept0.len());
                    assert(kept@[k - full_rows_below(g0, k)] == kept0[k - full_rows_below(
                        g0,
                        k,
                    )]);
                }
                assert forall|k: int| GRID_ROWS - cleared <= k < kept@.len() implies row_is_empty(
                    (#[trigger] kept@[k])@,
                ) by {
                    if k < kept@.len() - 1 {
                        assert(kept@[k] == kept0[k]);
                    }
                }
            }
            filled = filled + 1;
        }
        self.cells = kept;
        proof {
            self.lemma_view();
        }
        cleared
    }
}

} // verus!
