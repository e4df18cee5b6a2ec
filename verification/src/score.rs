//! Cumulative score and cleared-line count, with the scoring formulas.

use vstd::prelude::*;

use crate::consts::{LINE_SCORE_BASE, PLACE_SCORE_BASE, TETRIS_MULTIPLIER};

verus! {

/// The score a line clear is worth: the base is multiplied by the number of
/// lines, except that four lines at once use the tetris multiplier, and the
/// whole is scaled by the level.
pub open spec fn line_score(lines: int, level: int) -> int {
    LINE_SCORE_BASE * (if lines == 4 { TETRIS_MULTIPLIER as int } else { lines }) * (level + 1)
}

/// The score a manual soft drop is worth: one base point per cell dropped,
/// scaled by the level.
pub open spec fn drop_score(dropped: int, level: int) -> int {
    dropped * PLACE_SCORE_BASE * (level + 1)
}

/// Cumulative score and cleared-lines count. Reset only on loss.
pub struct ScoreResource {
    score: usize,
    lines: usize,
}

impl ScoreResource {
    /// The cumulative score.
    pub fn score(&self) -> (s: usize)
        ensures
            s == self.spec_score(),
    {
        self.score
    }

    /// The cumulative number of cleared lines.
    pub fn lines(&self) -> (l: usize)
        ensures
            l == self.spec_lines(),
    {
        self.lines
    }

    /// The cumulative score, for contracts.
    pub closed spec fn spec_score(&self) -> int {
        self.score as int
    }

    /// The cumulative number of cleared lines, for contracts.
    pub closed spec fn spec_lines(&self) -> int {
        self.lines as int
    }

    /// A fresh zero score.
    pub fn new() -> (s: ScoreResource)
        ensures
            s.spec_score() == 0,
            s.spec_lines() == 0,
    {
        ScoreResource { score: 0, lines: 0 }
    }

    /// Increase score depending on how many lines were cleared and the
    /// current level, and count the cleared lines.
    pub fn reward_line_score(&mut self, lines: usize, level: usize)
        requires
            level < usize::MAX,
            old(self).spec_score() + line_score(lines as int, level as int) <= usize::MAX,
            old(self).spec_lines() + lines <= usize::MAX,
        ensures
            final(self).spec_score() == old(self).spec_score() + line_score(
                lines as int,
                level as int,
            ),
            final(self).spec_lines() == old(self).spec_lines() + lines,
    {
        proof {
            let m: int = if lines == 4 { TETRIS_MULTIPLIER as int } else { lines as int };
            assert(LINE_SCORE_BASE * m <= LINE_SCORE_BASE * m * (level as int + 1))
                by (nonlinear_arith)
                requires
                    m >= 0,
                    level as int >= 0,
            ;
        }
        self.score = self.score + LINE_SCORE_BASE * (if lines == 4 {
            TETRIS_MULTIPLIER
        } else {
            lines
        }) * (level + 1);
        self.lines = self.lines + lines;
    }

    /// Increase score depending on how many cells a piece was manually
    /// dropped.
    pub fn reward_drop_score(&mut self, dropped_pixels: usize, level: usize)
        requires
            level < usize::MAX,
            old(self).spec_score() + drop_score(dropped_pixels as int, level as int) <= usize::MAX,
        ensures
            final(self).spec_score() == old(self).spec_score() + drop_score(
                dropped_pixels as int,
                level as int,
            ),
            final(self).spec_lines() == old(self).spec_lines(),
    {
        proof {
            assert(dropped_pixels * PLACE_SCORE_BASE <= dropped_pixels * PLACE_SCORE_BASE * (
            level as int + 1)) by (nonlinear_arith)
                requires
                    dropped_pixels as int >= 0,
                    level as int >= 0,
            ;
        }
        self.score = self.score + dropped_pixels * PLACE_SCORE_BASE * (level + 1);
    }

    /// Reset score and lines to zero.
    pub fn reset(&mut self)
        ensures
            final(self).spec_score() == 0,
            final(self).spec_lines() == 0,
    {
        self.score = 0;
        self.lines = 0;
    }
}

impl Default for ScoreResource {
    fn default() -> (s: ScoreResource)
        ensures
            s.spec_score() == 0,
            s.spec_lines() == 0,
    {
        ScoreResource::new()
    }
}

} // verus!
