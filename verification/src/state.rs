//! Session state: the terminal resolution snapshot, the per-session game
//! state, and the physics step that moves the player each tick.
//!
//! The player's vertical position is kept in tenths of a cell, so that the
//! sub-cell trajectory (a rise of 0.9 cells on a flap, a fall of 0.5 cells
//! otherwise) is exact integer arithmetic.

use vstd::prelude::*;

verus! {

/// How far one flap lifts the player, in tenths of a cell per tick.
pub const ASCENT_TENTHS: i64 = 9;

/// How far gravity pulls the player down, in tenths of a cell per tick.
pub const GRAVITY_TENTHS: i64 = 5;

/// Immutable snapshot of the playing field's dimensions, taken once at
/// session start: `x` columns, `y` rows.
#[derive(Clone, Copy, PartialEq, Eq, Structural, Debug)]
pub struct Res {
    pub x: u16,
    pub y: u16,
}

/// The whole per-session game state: player, score, tick clock, and the
/// static obstacle geometry.
#[derive(Clone, Copy, PartialEq, Eq, Structural, Debug)]
pub struct GameState {
    /// False once the player has died; the session ends on that tick.
    pub alive: bool,
    /// The player's column; fixed for the whole session.
    pub x: u16,
    /// The player's vertical position in tenths of a cell, measured down
    /// from the top row. May go negative when the player flaps above the
    /// top edge; the drawn row is then clamped to 0.
    pub y_tenths: i64,
    /// One point per obstacle period boundary.
    pub score: u32,
    /// Tick counter; starts at 0 and advances once per tick.
    pub clock: u32,
    /// Top of the current opening, in rows; 0 while no wall is pending.
    pub obstacle_height: u8,
    /// Thickness of a wall, in ticks of scrolling.
    pub obstacle_width: u8,
    /// Open ticks between walls.
    pub obstacle_spacing: u8,
    /// Vertical size of the passable opening, in rows.
    pub obstacle_inner: u8,
}

/// The obstacle period: one full wall-and-gap cycle, in ticks.
pub open spec fn spec_period(s: GameState) -> int {
    s.obstacle_width + s.obstacle_spacing
}

/// The grid row the player occupies: the position truncated to whole
/// cells, clamped at the top row for negative positions.
pub open spec fn player_row(y_tenths: int) -> int {
    if y_tenths <= 0 {
        0
    } else {
        y_tenths / 10
    }
}

/// The vertical position after one physics step: up by the ascent rate on
/// a flap, down by the gravity rate otherwise, saturating at the ends of
/// the representable range.
pub open spec fn spec_physics_y(y: int, flap: bool) -> int {
    if flap {
        if y - ASCENT_TENTHS >= i64::MIN {
            y - ASCENT_TENTHS
        } else {
            i64::MIN as int
        }
    } else {
        if y + GRAVITY_TENTHS <= i64::MAX {
            y + GRAVITY_TENTHS
        } else {
            i64::MAX as int
        }
    }
}

/// The state after one physics step against resolution `res`: the new
/// vertical position, and death when the player's row passes the bottom
/// safety margin of three rows.
pub open spec fn spec_update_player(s: GameState, res: Res, flap: bool) -> GameState {
    let y2 = spec_physics_y(s.y_tenths as int, flap);
    GameState {
        y_tenths: y2 as i64,
        alive: if player_row(y2) > res.y - 3 {
            false
        } else {
            s.alive
        },
        ..s
    }
}

/// The player's row as an executable value.
pub fn player_row_of(y_tenths: i64) -> (r: i64)
    ensures
        r == player_row(y_tenths as int),
        0 <= r <= i64::MAX / 10,
{
    if y_tenths <= 0 {
        0
    } else {
        y_tenths / 10
    }
}

/// One physics step: apply the flap or gravity displacement, then kill the
/// player if the resulting row is past `res.y - 3`, the bottom safety
/// margin. The bounds check runs before any grid access ever does.
pub fn update_player(state: GameState, res: &Res, flap: bool) -> (r: GameState)
    requires
        res.y >= 3,
    ensures
        r == spec_update_player(state, *res, flap),
{
    let mut state = state;
    if flap {
        if state.y_tenths >= i64::MIN + ASCENT_TENTHS {
            state.y_tenths = state.y_tenths - ASCENT_TENTHS;
        } else {
            state.y_tenths = i64::MIN;
        }
    } else {
        if state.y_tenths <= i64::MAX - GRAVITY_TENTHS {
            state.y_tenths = state.y_tenths + GRAVITY_TENTHS;
        } else {
            state.y_tenths = i64::MAX;
        }
    }
    let row = player_row_of(state.y_tenths);
    if row > (res.y - 3) as i64 {
        state.alive = false;
    }
    state
}

/// Advance the tick clock by one.
pub fn update_state(state: GameState) -> (r: GameState)
    requires
        state.clock < u32::MAX,
    ensures
        r == (GameState { clock: (state.clock + 1) as u32, ..state }),
{
    let mut state = state;
    state.clock = state.clock + 1;
    state
}

/// The state a fresh session starts from: alive at column 20, twenty cells
/// down, with the default obstacle geometry; `spacing`, when given,
/// overrides the open stretch between walls.
pub fn initial_state(spacing: Option<u8>) -> (s: GameState)
    ensures
        s.alive,
        s.x == 20,
        s.y_tenths == 200,
        s.score == 0,
        s.clock == 0,
        s.obstacle_height == 0,
        s.obstacle_width == 5,
        s.obstacle_spacing == (match spacing {
            Option::Some(v) => v,
            Option::None => 50,
        }),
        s.obstacle_inner == 10,
{
    GameState {
        alive: true,
        x: 20,
        y_tenths: 200,
        score: 0,
        clock: 0,
        obstacle_height: 0,
        obstacle_width: 5,
        obstacle_spacing: match spacing {
            Option::Some(v) => v,
            Option::None => 50,
        },
        obstacle_inner: 10,
    }
}

} // verus!
