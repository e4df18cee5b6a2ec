use tetris_core::score::ScoreResource;

#[test]
fn line_scores_scale_with_count_and_level() {
    let mut score = ScoreResource::new();
    score.reward_line_score(1, 0);
    assert_eq!(score.score(), 50);
    assert_eq!(score.lines(), 1);
    score.reward_line_score(2, 0);
    assert_eq!(score.score(), 50 + 100);
    assert_eq!(score.lines(), 3);
    score.reward_line_score(3, 1);
    assert_eq!(score.score(), 150 + 50 * 3 * 2);
    assert_eq!(score.lines(), 6);
}

#[test]
fn tetris_clear_awards_the_tetris_multiplier() {
    let mut score = ScoreResource::new();
    score.reward_line_score(4, 0);
    assert_eq!(score.score(), 50 * 26);
    assert_eq!(score.lines(), 4);
    let mut score = ScoreResource::new();
    score.reward_line_score(4, 2);
    assert_eq!(score.score(), 50 * 26 * 3);
}

#[test]
fn drop_score_is_one_point_per_cell_scaled_by_level() {
    let mut score = ScoreResource::new();
    score.reward_drop_score(7, 0);
    assert_eq!(score.score(), 7);
    assert_eq!(score.lines(), 0);
    score.reward_drop_score(5, 3);
    assert_eq!(score.score(), 7 + 5 * 4);
}

#[test]
fn zero_lines_award_nothing() {
    let mut score = ScoreResource::new();
    score.reward_line_score(0, 5);
    assert_eq!(score.score(), 0);
    assert_eq!(score.lines(), 0);
}

#[test]
fn reset_returns_to_zero() {
    let mut score = ScoreResource::new();
    score.reward_line_score(4, 1);
    score.reward_drop_score(9, 1);
    assert!(score.score() > 0);
    score.reset();
    assert_eq!(score.score(), 0);
    assert_eq!(score.lines(), 0);
}

#[test]
fn default_score_is_empty() {
    let score = ScoreResource::default();
    assert_eq!(score.score(), 0);
    assert_eq!(score.lines(), 0);
}
