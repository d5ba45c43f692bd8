use cli_flappy::obstacles::update_obstacles;
use cli_flappy::state::GameState;

fn state_at(clock: u32, height: u8, score: u32) -> GameState {
    GameState {
        alive: true,
        x: 2,
        y_tenths: 10,
        score,
        clock,
        obstacle_height: height,
        obstacle_width: 5,
        obstacle_spacing: 50,
        obstacle_inner: 10,
    }
}

fn empty_grid(h: usize, w: usize) -> Vec<Vec<char>> {
    vec![vec![' '; w]; h]
}

#[test]
fn boundary_rolls_gap_height_in_range() {
    // Entering the wall phase re-rolls the gap height into [1, h/2].
    let (_, s) = update_obstacles(empty_grid(20, 40), state_at(0, 0, 0));
    assert!(s.obstacle_height >= 1);
    assert!(s.obstacle_height <= 10);
    assert_ne!(s.obstacle_height, 0);
}

#[test]
fn boundary_clears_pending_gap_height() {
    let (_, s) = update_obstacles(empty_grid(20, 40), state_at(55, 7, 1));
    assert_eq!(s.obstacle_height, 0);
    assert_eq!(s.score, 2);
}

#[test]
fn score_increments_only_on_period_boundaries() {
    // Two full periods of 55 ticks score exactly two points.
    let mut score = 0u32;
    let mut height = 0u8;
    for clock in 1..=110u32 {
        let (_, s) = update_obstacles(empty_grid(20, 40), state_at(clock, height, score));
        score = s.score;
        height = s.obstacle_height;
        let expected = clock / 55;
        assert_eq!(score, expected, "at clock {}", clock);
    }
    assert_eq!(score, 2);
}

#[test]
fn full_period_walkthrough() {
    // Grid height 20, width 5, spacing 50. The opening phase at tick 0
    // rolls a gap height in [1, 10]; the column stays fully open through
    // the spacing stretch; the wall ticks draw around the opening; the
    // next boundary clears the height and scores again.
    let h = 20usize;
    let w = 40usize;
    let last = w - 1;
    let mut height = 0u8;
    let mut score = 0u32;

    let (g, s) = update_obstacles(empty_grid(h, w), state_at(0, height, score));
    height = s.obstacle_height;
    score = s.score;
    assert!((1..=10).contains(&height));
    assert_eq!(score, 1);
    assert!(g.iter().all(|row| row[last] == ' '));

    for clock in 1..=50u32 {
        let (g, s) = update_obstacles(empty_grid(h, w), state_at(clock, height, score));
        assert_eq!(s.obstacle_height, height, "at clock {}", clock);
        assert_eq!(s.score, score, "at clock {}", clock);
        assert!(g.iter().all(|row| row[last] == ' '), "at clock {}", clock);
    }

    for clock in 51..=54u32 {
        let (g, s) = update_obstacles(empty_grid(h, w), state_at(clock, height, score));
        assert_eq!(s.obstacle_height, height);
        let gap = height as usize;
        for y in 0..h {
            let expect = if y < gap {
                'X'
            } else if y < gap + 10 {
                ' '
            } else {
                'X'
            };
            assert_eq!(g[y][last], expect, "at clock {} row {}", clock, y);
        }
    }

    let (g, s) = update_obstacles(empty_grid(h, w), state_at(55, height, score));
    assert_eq!(s.obstacle_height, 0);
    assert_eq!(s.score, 2);
    assert!(g.iter().all(|row| row[last] == ' '));
}

#[test]
fn opening_is_clipped_at_the_bottom() {
    // Gap height 9 with an opening of 10 rows on a 12-row grid: the
    // opening runs off the bottom edge without failing.
    let mut st = state_at(51, 9, 0);
    st.obstacle_height = 6;
    let (g, _) = update_obstacles(empty_grid(12, 30), st);
    for y in 0..6 {
        assert_eq!(g[y][29], 'X');
    }
    for y in 6..12 {
        assert_eq!(g[y][29], ' ');
    }
}

#[test]
fn cells_off_the_last_column_are_untouched() {
    let mut grid = empty_grid(8, 10);
    grid[3][4] = 'X';
    grid[7][0] = 'X';
    let (g, _) = update_obstacles(grid, state_at(51, 3, 0));
    assert_eq!(g[3][4], 'X');
    assert_eq!(g[7][0], 'X');
    assert_eq!(g[0][9], 'X');
    assert_eq!(g[3][9], ' ');
}
