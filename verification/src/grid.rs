//! The character grid behind the terminal frame: the left scroll that
//! simulates forward motion, the player stamp and its erasure, and the
//! collision test against the scrolled field.
//!
//! A cell holds `'X'` for a wall or the player and `' '` for empty space.

use vstd::prelude::*;
use crate::state::{GameState, Res, player_row};

verus! {

/// The grid is `h` rows of `w` cells each.
pub open spec fn grid_dims(g: Seq<Vec<char>>, h: int, w: int) -> bool {
    &&& g.len() == h
    &&& forall|i: int| 0 <= i < g.len() ==> #[trigger] g[i]@.len() == w
}

/// One row after the scroll: every cell moves one column left, and the
/// vacated rightmost cell takes the old leftmost one (a true rotation, so
/// obstacle data in flight is preserved until overwritten).
pub open spec fn spec_rotate_left(r: Seq<char>) -> Seq<char> {
    if r.len() == 0 {
        r
    } else {
        r.subrange(1, r.len() as int).push(r[0])
    }
}

/// Scroll the whole grid one column left. Columns `[0, w-1)` of the result
/// equal columns `[1, w)` of the argument, row by row, independent of what
/// the cells hold.
pub fn update_grid(grid: Vec<Vec<char>>) -> (r: Vec<Vec<char>>)
    ensures
        r@.len() == grid@.len(),
        forall|i: int| 0 <= i < grid@.len() ==> #[trigger] r@[i]@ == spec_rotate_left(grid@[i]@),
        forall|i: int| 0 <= i < grid@.len() ==> #[trigger] r@[i]@.len() == grid@[i]@.len(),
        forall|i: int, j: int|
            0 <= i < grid@.len() && 0 <= j < grid@[i]@.len() - 1 ==> r@[i]@[j] == #[trigger] grid@[i]@[j
                + 1],
{
    let ghost g0 = grid@;
    let mut grid = grid;
    let mut y: usize = 0;
    while y < grid.len()
        invariant
            y <= grid@.len(),
            grid@.len() == g0.len(),
            forall|i: int| y <= i < g0.len() ==> #[trigger] grid@[i]@ == g0[i]@,
            forall|i: int| 0 <= i < y ==> #[trigger] grid@[i]@ == spec_rotate_left(g0[i]@),
        decreases grid@.len() - y,
    {
        let mut row = grid.remove(y);
        if row.len() > 0 {
            let c = row.remove(0);
            row.push(c);
            proof {
                assert(row@ =~= spec_rotate_left(g0[y as int]@));
            }
        }
        grid.insert(y, row);
        y = y + 1;
    }
    proof {
        assert forall|i: int, j: int|
            0 <= i < g0.len() && 0 <= j < g0[i]@.len() - 1 implies grid@[i]@[j] == #[trigger] g0[i]@[j
            + 1] by {
            assert(grid@[i]@ == spec_rotate_left(g0[i]@));
        }
    }
    grid
}

/// A fresh, fully empty grid of the session's dimensions.
pub fn make_grid(res: &Res) -> (g: Vec<Vec<char>>)
    ensures
        grid_dims(g@, res.y as int, res.x as int),
        forall|i: int, j: int| 0 <= i < res.y && 0 <= j < res.x ==> #[trigger] g@[i]@[j] == ' ',
{
    let mut g: Vec<Vec<char>> = Vec::new();
    let mut i: usize = 0;
    while i < res.y as usize
        invariant
            i <= res.y,
            g@.len() == i,
            forall|k: int| 0 <= k < i ==> #[trigger] g@[k]@.len() == res.x,
            forall|k: int, j: int| 0 <= k < i && 0 <= j < res.x ==> #[trigger] g@[k]@[j] == ' ',
        decreases res.y - i,
    {
        let mut row: Vec<char> = Vec::new();
        let mut j: usize = 0;
        while j < res.x as usize
            invariant
                j <= res.x,
                row@.len() == j,
                forall|l: int| 0 <= l < j ==> #[trigger] row@[l] == ' ',
            decreases res.x - j,
        {
            row.push(' ');
            j = j + 1;
        }
        g.push(row);
        i = i + 1;
    }
    g
}

/// Write one cell, leaving the rest of the grid as it was.
pub fn set_cell(grid: &mut Vec<Vec<char>>, y: usize, x: usize, c: char)
    requires
        y < old(grid)@.len(),
        x < old(grid)@[y as int]@.len(),
    ensures
        final(grid)@.len() == old(grid)@.len(),
        final(grid)@[y as int]@ == old(grid)@[y as int]@.update(x as int, c),
        forall|i: int|
            0 <= i < old(grid)@.len() && i != y ==> #[trigger] final(grid)@[i] == old(grid)@[i],
{
    let mut row = grid.remove(y);
    row.set(x, c);
    grid.insert(y, row);
}

/// Stamp the player glyph at its current (row, column) cell.
pub fn update_character(grid: Vec<Vec<char>>, state: &GameState) -> (r: Vec<Vec<char>>)
    requires
        0 <= player_row(state.y_tenths as int) < grid@.len(),
        (state.x as int) < grid@[player_row(state.y_tenths as int)]@.len(),
    ensures
        r@.len() == grid@.len(),
        r@[player_row(state.y_tenths as int)]@ == grid@[player_row(state.y_tenths as int)]@.update(
            state.x as int,
            'X',
        ),
        forall|i: int|
            0 <= i < grid@.len() && i != player_row(state.y_tenths as int) ==> r@[i] == #[trigger] grid@[i],
{
    let mut grid = grid;
    let row = player_row_usize(state, grid.len());
    set_cell(&mut grid, row, state.x as usize, 'X');
    grid
}

/// Erase the player glyph from its current cell, restoring empty space, so
/// that the next scroll never carries a stale player mark along.
pub fn remove_character(grid: Vec<Vec<char>>, state: &GameState) -> (r: Vec<Vec<char>>)
    requires
        0 <= player_row(state.y_tenths as int) < grid@.len(),
        (state.x as int) < grid@[player_row(state.y_tenths as int)]@.len(),
    ensures
        r@.len() == grid@.len(),
        r@[player_row(state.y_tenths as int)]@ == grid@[player_row(state.y_tenths as int)]@.update(
            state.x as int,
            ' ',
        ),
        forall|i: int|
            0 <= i < grid@.len() && i != player_row(state.y_tenths as int) ==> r@[i] == #[trigger] grid@[i],
{
    let mut grid = grid;
    let row = player_row_usize(state, grid.len());
    set_cell(&mut grid, row, state.x as usize, ' ');
    grid
}

/// The player's row as a `usize` index, valid against a grid of `len`
/// rows.
fn player_row_usize(state: &GameState, len: usize) -> (r: usize)
    requires
        0 <= player_row(state.y_tenths as int) < len,
    ensures
        r == player_row(state.y_tenths as int),
{
    let row = crate::state::player_row_of(state.y_tenths);
    row as usize
}

/// The state after the collision test: death when the cell under the
/// player holds anything but empty space.
pub open spec fn spec_collision(g: Seq<Vec<char>>, s: GameState) -> GameState {
    GameState {
        alive: if g[player_row(s.y_tenths as int)]@[s.x as int] != ' ' {
            false
        } else {
            s.alive
        },
        ..s
    }
}

/// Test the cell under the player against the grid of the previous tick:
/// any non-empty cell there kills the player. Runs only after the bounds
/// check of the physics step, so the row index is always in range.
pub fn collision_detection(grid: &Vec<Vec<char>>, state: GameState) -> (r: GameState)
    requires
        0 <= player_row(state.y_tenths as int) < grid@.len(),
        (state.x as int) < grid@[player_row(state.y_tenths as int)]@.len(),
    ensures
        r == spec_collision(grid@, state),
{
    let mut state = state;
    let row = player_row_usize(&state, grid.len());
    if grid[row][state.x as usize] != ' ' {
        state.alive = false;
    }
    state
}

} // verus!
