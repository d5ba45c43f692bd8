//! The simulation step: one fixed-cadence tick of the session state
//! machine, in strict order — physics and its bounds check, the clock,
//! collision against the previous grid, the scroll, the obstacle column,
//! and the player stamp. Death is terminal: a dead state passes through a
//! tick unchanged.

use vstd::prelude::*;
use crate::state::{
    GameState, Res, spec_period, player_row, spec_physics_y, spec_update_player, update_player,
    update_state,
};
use crate::grid::{grid_dims, update_grid, update_character, collision_detection};
use crate::obstacles::{at_boundary, in_spacing_phase, spec_obstacle_cell, spec_score_inc, update_obstacles};

verus! {

/// What holds of a live session between ticks: the grid matches the
/// resolution, the player's column is on the grid, the obstacle period is
/// a usable modulus, a living player sits above the bottom safety margin,
/// and the pending gap height fits the grid. The resolution itself is at
/// least four rows tall and no taller than 511 rows, the largest height
/// whose half still fits the gap-height field.
pub open spec fn session_inv(s: GameState, g: Seq<Vec<char>>, res: Res) -> bool {
    &&& grid_dims(g, res.y as int, res.x as int)
    &&& res.y >= 4
    &&& (res.y as int) / 2 <= u8::MAX
    &&& (s.x as int) < res.x
    &&& spec_period(s) > 0
    &&& (s.alive ==> player_row(s.y_tenths as int) <= res.y - 3)
    &&& (s.obstacle_height as int) <= (res.y as int) / 2
}

/// The state with the tick clock advanced by one.
pub open spec fn spec_after_clock(s: GameState) -> GameState {
    GameState { clock: (s.clock + 1) as u32, ..s }
}

/// One cell of the grid a tick leaves behind: the player stamp at its
/// (row, column); the obstacle rule in the rightmost column; everything
/// else shifted one column left by the scroll. `s2` is the returned state,
/// `g` the grid the tick started from.
pub open spec fn spec_tick_cell(
    s: GameState,
    s2: GameState,
    g: Seq<Vec<char>>,
    res: Res,
    flap: bool,
    y: int,
    x: int,
) -> char {
    let row = player_row(spec_physics_y(s.y_tenths as int, flap));
    if y == row && x == s.x {
        'X'
    } else if x == res.x - 1 {
        if in_spacing_phase(spec_after_clock(s)) {
            ' '
        } else {
            spec_obstacle_cell(s2.obstacle_height, s.obstacle_inner, y)
        }
    } else {
        g[y]@[x + 1]
    }
}

/// Decide whether a state, grid and resolution form a playable session:
/// the executable test of the invariant every tick keeps. A caller that
/// assembled the pieces itself runs this once before the loop.
pub fn session_ok(s: &GameState, grid: &Vec<Vec<char>>, res: &Res) -> (b: bool)
    ensures
        b == session_inv(*s, grid@, *res),
{
    if res.y < 4 || res.y / 2 > 255 {
        return false;
    }
    if s.x >= res.x {
        return false;
    }
    if s.obstacle_width as u32 + s.obstacle_spacing as u32 == 0 {
        return false;
    }
    if (s.obstacle_height as u32) > (res.y / 2) as u32 {
        return false;
    }
    if s.alive && crate::state::player_row_of(s.y_tenths) > (res.y - 3) as i64 {
        return false;
    }
    if grid.len() != res.y as usize {
        return false;
    }
    let mut i: usize = 0;
    while i < grid.len()
        invariant
            grid@.len() == res.y,
            i <= grid@.len(),
            forall|k: int| 0 <= k < i ==> #[trigger] grid@[k]@.len() == res.x,
        decreases grid@.len() - i,
    {
        if grid[i].len() != res.x as usize {
            return false;
        }
        i = i + 1;
    }
    true
}

/// The tier of the end-of-session farewell: 2 past a hundred points, 1
/// past ten, 0 otherwise.
pub fn game_over_tier(score: u32) -> (t: u8)
    ensures
        t == (if score > 100 {
            2int
        } else if score > 10 {
            1int
        } else {
            0int
        }),
{
    if score > 100 {
        2
    } else if score > 10 {
        1
    } else {
        0
    }
}

/// One tick of the session. In order: the physics step with its
/// bounds-death check, the clock, the collision test against the previous
/// grid (skipped when the bounds check already killed, so an out-of-range
/// row never reaches a grid lookup), the scroll, the obstacle column, and
/// the player stamp. A dead state passes through unchanged, so death is
/// terminal: neither `score` nor `y_tenths` moves again.
pub fn tick(state: GameState, grid: Vec<Vec<char>>, res: &Res, flap: bool) -> (r: (
    GameState,
    Vec<Vec<char>>,
))
    requires
        session_inv(state, grid@, *res),
        state.clock < u32::MAX,
        state.score < u32::MAX,
    ensures
        session_inv(r.0, r.1@, *res),
        !state.alive ==> r.0 == state && r.1@ == grid@,
        state.alive ==> {
            let s1 = spec_update_player(state, *res, flap);
            &&& r.0.y_tenths == spec_physics_y(state.y_tenths as int, flap)
            &&& r.0.clock == state.clock + 1
            &&& r.0.score == state.score + spec_score_inc(
                state.clock + 1,
                spec_period(state),
            )
            &&& r.0.x == state.x
            &&& r.0.obstacle_width == state.obstacle_width
            &&& r.0.obstacle_spacing == state.obstacle_spacing
            &&& r.0.obstacle_inner == state.obstacle_inner
            &&& (!s1.alive ==> !r.0.alive)
            &&& (s1.alive ==> r.0.alive == (grid@[player_row(s1.y_tenths as int)]@[state.x as int]
                == ' '))
            &&& (!at_boundary(spec_after_clock(state)) ==> r.0.obstacle_height
                == state.obstacle_height)
            &&& (at_boundary(spec_after_clock(state)) && state.obstacle_height != 0
                ==> r.0.obstacle_height == 0)
            &&& (at_boundary(spec_after_clock(state)) && state.obstacle_height == 0 ==> 1
                <= r.0.obstacle_height <= (res.y as int) / 2)
            &&& forall|y: int, x: int|
                0 <= y < res.y && 0 <= x < res.x ==> #[trigger] r.1@[y]@[x] == spec_tick_cell(
                    state,
                    r.0,
                    grid@,
                    *res,
                    flap,
                    y,
                    x,
                )
        },
{
    if !state.alive {
        return (state, grid);
    }
    let sp = update_player(state, res, flap);
    proof {
        assert(player_row(sp.y_tenths as int) <= player_row(state.y_tenths as int) + 1)
            by (nonlinear_arith)
            requires
                sp.y_tenths == spec_physics_y(state.y_tenths as int, flap),
        ;
    }
    let sc = update_state(sp);
    let sd = if sc.alive {
        collision_detection(&grid, sc)
    } else {
        sc
    };
    let g1 = update_grid(grid);
    let (g2, so) = update_obstacles(g1, sd);
    let g3 = update_character(g2, &so);
    proof {
        let w = res.x as int;
        let row1 = player_row(spec_physics_y(state.y_tenths as int, flap));
        assert forall|i: int| 0 <= i < res.y as int implies #[trigger] g3@[i]@.len() == w by {
            assert(g1@[i]@.len() == grid@[i]@.len());
            assert(g2@[i]@.len() == g1@[i]@.len());
            if i != row1 {
                assert(g3@[i] == g2@[i]);
            }
        }
        assert forall|y: int, x: int| 0 <= y < res.y as int && 0 <= x < w implies #[trigger] g3@[y]@[x]
            == spec_tick_cell(state, so, grid@, *res, flap, y, x) by {
            assert(g1@[y]@ == crate::grid::spec_rotate_left(grid@[y]@));
            assert(grid@[y]@.len() == w);
            assert(g1@[y]@.len() == w);
            assert(g2@[y]@.len() == w);
            if y == row1 {
                assert(g3@[y]@ == g2@[y]@.update(so.x as int, 'X'));
            } else {
                assert(g3@[y] == g2@[y]);
            }
            if !(y == row1 && x == state.x as int) {
                if x == w - 1 {
                    assert(g1@[0]@.len() == w);
                    assert(g2@[y]@[g1@[0]@.len() - 1] == (if in_spacing_phase(sd) {
                        ' '
                    } else {
                        spec_obstacle_cell(so.obstacle_height, sd.obstacle_inner, y)
                    }));
                } else {
                    assert(g2@[y]@[x] == g1@[y]@[x]);
                    assert(g1@[y]@[x] == grid@[y]@[x + 1]);
                }
            }
        }
    }
    (so, g3)
}

} // verus!
