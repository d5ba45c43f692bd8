use cli_flappy::grid::make_grid;
use cli_flappy::sim::{game_over_tier, session_ok, tick};
use cli_flappy::state::{initial_state, update_player, update_state, Res};

#[test]
fn initial_state_defaults() {
    let s = initial_state(None);
    assert!(s.alive);
    assert_eq!(s.x, 20);
    assert_eq!(s.y_tenths, 200);
    assert_eq!(s.score, 0);
    assert_eq!(s.clock, 0);
    assert_eq!(s.obstacle_height, 0);
    assert_eq!(s.obstacle_width, 5);
    assert_eq!(s.obstacle_spacing, 50);
    assert_eq!(s.obstacle_inner, 10);
}

#[test]
fn spacing_override_is_honored() {
    let s = initial_state(Some(80));
    assert_eq!(s.obstacle_spacing, 80);
}

#[test]
fn flap_rises_fall_sinks() {
    let res = Res { x: 40, y: 30 };
    let s = initial_state(None);
    let up = update_player(s, &res, true);
    assert_eq!(up.y_tenths, 191);
    assert!(up.alive);
    let down = update_player(s, &res, false);
    assert_eq!(down.y_tenths, 205);
    assert!(down.alive);
}

#[test]
fn player_above_top_edge_sits_on_row_zero() {
    let res = Res { x: 40, y: 30 };
    let mut s = initial_state(None);
    s.y_tenths = -4;
    let s = update_player(s, &res, true);
    assert_eq!(s.y_tenths, -13);
    assert!(s.alive);
}

#[test]
fn clock_advances_by_one() {
    let s = update_state(initial_state(None));
    assert_eq!(s.clock, 1);
}

#[test]
fn bounds_death_without_collision_lookup() {
    // The player sinks to row res.y - 2 with no flap: dead on that tick,
    // before any grid cell is consulted.
    let res = Res { x: 40, y: 20 };
    let grid = make_grid(&res);
    let mut s = initial_state(None);
    s.y_tenths = 175;  // row 17 == res.y - 3: the last living row
    assert!(session_ok(&s, &grid, &res));
    let (s2, _) = tick(s, grid, &res, false);
    assert_eq!(s2.y_tenths, 180);  // row 18: past the margin
    assert!(!s2.alive);
    assert_eq!(s2.clock, 1);
    assert_eq!(s2.score, 0);
}

#[test]
fn death_is_terminal() {
    // A dead state passes through a tick untouched: score and position
    // never move again.
    let res = Res { x: 40, y: 20 };
    let grid = make_grid(&res);
    let mut s = initial_state(None);
    s.alive = false;
    s.y_tenths = 90;
    s.score = 7;
    let before_grid = grid.clone();
    let (s2, g2) = tick(s, grid, &res, true);
    assert_eq!(s2, s);
    assert_eq!(g2, before_grid);
}

#[test]
fn two_full_periods_score_two() {
    // A wide grid keeps the walls away from the player's column for the
    // whole run; an alternating flap keeps the player airborne. After two
    // full 55-tick periods the score is exactly 2.
    let res = Res { x: 500, y: 30 };
    let mut grid = make_grid(&res);
    let mut s = initial_state(None);
    assert!(session_ok(&s, &grid, &res));
    for t in 1..=110u32 {
        let flap = t % 2 == 1;
        let (s2, g2) = tick(s, grid, &res, flap);
        s = s2;
        grid = g2;
        assert!(s.alive, "died at tick {}", t);
        assert_eq!(s.clock, t);
        assert_eq!(s.score, t / 55, "at tick {}", t);
        // The tick hands the frame back with the player stamped for
        // rendering; erase it before the next scroll, as a session does.
        grid = cli_flappy::grid::remove_character(grid, &s);
    }
    assert_eq!(s.score, 2);
}

#[test]
fn collision_with_scrolled_wall_kills() {
    // A wall one column right of the player scrolls onto its column; when
    // the player then sinks a row into an un-erased wall cell, the
    // collision test against the previous frame kills.
    let res = Res { x: 40, y: 20 };
    let mut grid = make_grid(&res);
    let mut s = initial_state(None);
    s.y_tenths = 100;  // row 10; one fall keeps row 10, the next reaches row 11
    grid[10][21] = 'X';
    grid[11][21] = 'X';
    assert!(session_ok(&s, &grid, &res));
    let (s1, g1) = tick(s, grid, &res, false);
    assert!(s1.alive);
    let g1 = cli_flappy::grid::remove_character(g1, &s1);
    let (s2, _) = tick(s1, g1, &res, false);
    assert_eq!(s2.y_tenths, 110);
    assert!(!s2.alive);
    assert_eq!(s2.clock, 2);
}

#[test]
fn session_ok_rejects_broken_setups() {
    let res = Res { x: 40, y: 30 };
    let grid = make_grid(&res);
    let good = initial_state(None);
    assert!(session_ok(&good, &grid, &res));

    let mut tiny = good;
    tiny.x = 40;  // off the right edge
    assert!(!session_ok(&tiny, &grid, &res));

    let mut zero_period = good;
    zero_period.obstacle_width = 0;
    zero_period.obstacle_spacing = 0;
    assert!(!session_ok(&zero_period, &grid, &res));

    let short = Res { x: 40, y: 3 };
    assert!(!session_ok(&good, &grid, &short));

    let wrong_grid: Vec<Vec<char>> = vec![vec![' '; 40]; 29];
    assert!(!session_ok(&good, &wrong_grid, &res));
}

#[test]
fn farewell_tiers() {
    assert_eq!(game_over_tier(0), 0);
    assert_eq!(game_over_tier(10), 0);
    assert_eq!(game_over_tier(11), 1);
    assert_eq!(game_over_tier(100), 1);
    assert_eq!(game_over_tier(101), 2);
}

#[test]
fn update_grid_public_under_its_name() {
    let g: Vec<Vec<char>> = vec![vec!['p', 'q']];
    let g = cli_flappy::grid::update_grid(g);
    assert_eq!(g[0], vec!['q', 'p']);
}
