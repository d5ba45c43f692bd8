use cli_flappy::grid::{
    collision_detection, make_grid, remove_character, update_character, update_grid,
};
use cli_flappy::state::{GameState, Res};

fn base_state() -> GameState {
    GameState {
        alive: true,
        x: 2,
        y_tenths: 10,
        score: 0,
        clock: 0,
        obstacle_height: 0,
        obstacle_width: 5,
        obstacle_spacing: 50,
        obstacle_inner: 10,
    }
}

#[test]
fn scroll_left_rotates_each_row() {
    let grid = vec![
        vec!['a', 'b', 'c', 'd'],
        vec!['e', 'f', 'g', 'h'],
    ];
    let out = update_grid(grid);
    assert_eq!(out[0], vec!['b', 'c', 'd', 'a']);
    assert_eq!(out[1], vec!['f', 'g', 'h', 'e']);
}

#[test]
fn scroll_shifts_columns_left_independent_of_content() {
    // Columns [0, w-1) after the scroll equal columns [1, w) before it.
    let grid = vec![
        vec![' ', 'X', ' ', 'X', 'X'],
        vec!['X', ' ', 'X', ' ', ' '],
        vec![' ', ' ', 'X', 'X', ' '],
    ];
    let before = grid.clone();
    let out = update_grid(grid);
    for y in 0..before.len() {
        for x in 0..before[y].len() - 1 {
            assert_eq!(out[y][x], before[y][x + 1]);
        }
    }
}

#[test]
fn scroll_of_empty_and_single_rows() {
    let out = update_grid(vec![vec![], vec!['z']]);
    assert_eq!(out[0], Vec::<char>::new());
    assert_eq!(out[1], vec!['z']);
}

#[test]
fn make_grid_is_all_empty() {
    let res = Res { x: 7, y: 5 };
    let g = make_grid(&res);
    assert_eq!(g.len(), 5);
    for row in &g {
        assert_eq!(row.len(), 7);
        assert!(row.iter().all(|&c| c == ' '));
    }
}

#[test]
fn stamp_and_erase_player() {
    let res = Res { x: 6, y: 4 };
    let g = make_grid(&res);
    let s = base_state();
    // y_tenths = 10 -> row 1; x = 2
    let g = update_character(g, &s);
    assert_eq!(g[1][2], 'X');
    let g = remove_character(g, &s);
    assert_eq!(g[1][2], ' ');
    for row in &g {
        assert!(row.iter().all(|&c| c == ' '));
    }
}

#[test]
fn collision_on_wall_cell_kills() {
    let res = Res { x: 6, y: 4 };
    let mut g = make_grid(&res);
    g[1][2] = 'X';
    let s = base_state();
    let s2 = collision_detection(&g, s);
    assert!(!s2.alive);
    assert_eq!(s2.score, 0);
    assert_eq!(s2.y_tenths, 10);
}

#[test]
fn collision_on_empty_cell_spares() {
    let res = Res { x: 6, y: 4 };
    let g = make_grid(&res);
    let s = base_state();
    let s2 = collision_detection(&g, s);
    assert!(s2.alive);
}
