//! The obstacle generator: once per period it toggles between the open
//! stretch and a fresh wall, scores the period boundary, and writes the
//! rightmost column of the scrolled grid.

use vstd::prelude::*;
use rand::Rng;
use crate::state::{GameState, spec_period};
use crate::grid::set_cell;

verus! {

/// True on the tick that starts an obstacle period.
pub open spec fn at_boundary(s: GameState) -> bool {
    (s.clock as int) % spec_period(s) == 0
}

/// True on the ticks whose rightmost column is fully open (the spacing
/// stretch of the period); the remaining ticks of the period draw a wall.
pub open spec fn in_spacing_phase(s: GameState) -> bool {
    (s.clock as int) % spec_period(s) <= s.obstacle_spacing
}

/// One cell of a wall column: wall above the opening, the opening itself
/// for `inner` rows, wall below. Rows past the grid's bottom simply do not
/// exist, so an opening reaching past the bottom is clipped there.
pub open spec fn spec_obstacle_cell(height: u8, inner: u8, y: int) -> char {
    if y < height {
        'X'
    } else if y < height + inner {
        ' '
    } else {
        'X'
    }
}

/// The score after a tick: one point exactly on each period boundary.
pub open spec fn spec_score_inc(clock: int, p: int) -> int {
    if clock % p == 0 {
        1
    } else {
        0
    }
}

/// The points collected over the clock values `1..=t`: one per period
/// boundary passed.
pub open spec fn spec_score_total(t: nat, p: nat) -> nat
    decreases t,
{
    if t == 0 {
        0
    } else {
        (spec_score_total((t - 1) as nat, p) + spec_score_inc(t as int, p as int)) as nat
    }
}

/// The boundaries among the clock values `1..=t` number exactly `t / p`.
pub proof fn lemma_score_total_div(t: nat, p: nat)
    requires
        p >= 1,
    ensures
        spec_score_total(t, p) == t / p,
    decreases t,
{
    if t > 0 {
        lemma_score_total_div((t - 1) as nat, p);
        assert(t as int / p as int == (t - 1) as int / p as int + spec_score_inc(
            t as int,
            p as int,
        )) by (nonlinear_arith)
            requires
                t >= 1,
                p >= 1,
        ;
    }
}

/// Exactly one score increment occurs per period: a session that starts at
/// clock 0 with score 0 holds, after `n` full periods of `p` ticks each,
/// exactly `n` points, since each tick at clock `c` adds
/// `spec_score_inc(c, p)` to the score.
pub proof fn lemma_score_full_periods(n: nat, p: nat)
    requires
        p >= 1,
    ensures
        spec_score_total(n * p, p) == n,
{
    lemma_score_total_div(n * p, p);
    assert((n * p) as int / p as int == n) by (nonlinear_arith)
        requires
            p >= 1,
    ;
}

/// Relies on `rand::Rng::gen_range` over the inclusive range `1..=max`:
/// it returns a uniformly drawn value within the range, and panics only
/// when the range is empty, which `max >= 1` rules out.
#[verifier::external_body]
fn roll_gap_height(max: u8) -> (r: u8)
    requires
        max >= 1,
    ensures
        1 <= r <= max,
{
    rand::thread_rng().gen_range(1..=max)
}

/// One obstacle step against the freshly scrolled grid. On a period
/// boundary the gap height toggles: a pending wall height is cleared to
/// zero, and a cleared one is re-rolled uniformly in `[1, h/2]`; the
/// boundary also scores one point. The rightmost column is then written:
/// fully open during the spacing stretch, a wall around the opening
/// otherwise. Every other cell, and every other field of the state, is
/// left as it was.
pub fn update_obstacles(grid: Vec<Vec<char>>, state: GameState) -> (r: (Vec<Vec<char>>, GameState))
    requires
        spec_period(state) > 0,
        state.score < u32::MAX,
        grid@.len() >= 2,
        grid@.len() / 2 <= u8::MAX,
        state.obstacle_height as int <= grid@.len() / 2,
        grid@[0]@.len() >= 1,
        forall|i: int| 0 <= i < grid@.len() ==> #[trigger] grid@[i]@.len() == grid@[0]@.len(),
    ensures
        r.0@.len() == grid@.len(),
        forall|i: int| 0 <= i < grid@.len() ==> #[trigger] r.0@[i]@.len() == grid@[i]@.len(),
        forall|i: int, j: int|
            0 <= i < grid@.len() && 0 <= j < grid@[0]@.len() - 1 ==> r.0@[i]@[j] == #[trigger] grid@[i]@[j],
        forall|i: int|
            0 <= i < grid@.len() ==> #[trigger] r.0@[i]@[grid@[0]@.len() - 1] == (
            if in_spacing_phase(state) {
                ' '
            } else {
                spec_obstacle_cell(r.1.obstacle_height, state.obstacle_inner, i)
            }),
        r.1.alive == state.alive,
        r.1.x == state.x,
        r.1.y_tenths == state.y_tenths,
        r.1.clock == state.clock,
        r.1.obstacle_width == state.obstacle_width,
        r.1.obstacle_spacing == state.obstacle_spacing,
        r.1.obstacle_inner == state.obstacle_inner,
        r.1.score == state.score + spec_score_inc(state.clock as int, spec_period(state)),
        !at_boundary(state) ==> r.1.obstacle_height == state.obstacle_height,
        at_boundary(state) && state.obstacle_height != 0 ==> r.1.obstacle_height == 0,
        at_boundary(state) && state.obstacle_height == 0 ==> 1 <= r.1.obstacle_height
            <= grid@.len() / 2,
        r.1.obstacle_height as int <= grid@.len() / 2,
{
    let mut grid = grid;
    let mut state = state;
    let ghost g0 = grid@;
    let p: u32 = state.obstacle_width as u32 + state.obstacle_spacing as u32;

    if state.clock % p == 0 {
        if state.obstacle_height != 0 {
            state.obstacle_height = 0;
        } else {
            let max_height: u8 = (grid.len() / 2) as u8;
            state.obstacle_height = roll_gap_height(max_height);
        }
        state.score = state.score + 1;
    }

    let x_res: usize = grid[0].len() - 1;
    let len: usize = grid.len();

    if state.clock % p <= state.obstacle_spacing as u32 {
        let mut y: usize = 0;
        while y < len
            invariant
                y <= len,
                len == g0.len(),
                grid@.len() == g0.len(),
                x_res == g0[0]@.len() - 1,
                forall|i: int| 0 <= i < g0.len() ==> #[trigger] g0[i]@.len() == g0[0]@.len(),
                forall|i: int| 0 <= i < g0.len() ==> #[trigger] grid@[i]@.len() == g0[i]@.len(),
                forall|i: int, j: int|
                    0 <= i < g0.len() && 0 <= j < g0[0]@.len() - 1 ==> grid@[i]@[j]
                        == #[trigger] g0[i]@[j],
                forall|i: int| 0 <= i < y ==> #[trigger] grid@[i]@[x_res as int] == ' ',
            decreases len - y,
        {
            set_cell(&mut grid, y, x_res, ' ');
            y = y + 1;
        }
        return (grid, state);
    }

    let h: usize = state.obstacle_height as usize;
    let inner: usize = state.obstacle_inner as usize;
    let mut y: usize = 0;
    while y < len
        invariant
            y <= len,
            len == g0.len(),
            grid@.len() == g0.len(),
            x_res == g0[0]@.len() - 1,
            h == state.obstacle_height,
            inner == state.obstacle_inner,
            forall|i: int| 0 <= i < g0.len() ==> #[trigger] g0[i]@.len() == g0[0]@.len(),
            forall|i: int| 0 <= i < g0.len() ==> #[trigger] grid@[i]@.len() == g0[i]@.len(),
            forall|i: int, j: int|
                0 <= i < g0.len() && 0 <= j < g0[0]@.len() - 1 ==> grid@[i]@[j]
                    == #[trigger] g0[i]@[j],
            forall|i: int|
                0 <= i < y ==> #[trigger] grid@[i]@[x_res as int] == spec_obstacle_cell(
                    state.obstacle_height,
                    state.obstacle_inner,
                    i,
                ),
        decreases len - y,
    {
        let c: char = if y < h {
            'X'
        } else if y < h + inner {
            ' '
        } else {
            'X'
        };
        set_cell(&mut grid, y, x_res, c);
        y = y + 1;
    }
    (grid, state)
}

} // verus!
