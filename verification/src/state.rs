//! One tick's reading of the game: where the player is and what the in-game
//! timer shows.

use vstd::prelude::*;
use crate::geometry::Point;
use crate::geometry::distance_squared;
use crate::geometry::within_distance_squared;
use crate::trigger::Triggers;

verus! {

/// Position units in one world unit.
pub const UNITS_PER_WORLD_UNIT: i64 = 1000;

/// Timer ticks in one second of in-game time.
pub const TICKS_PER_SECOND: u32 = 60;

/// Where the player stands while the game shows its lobby.
pub const LOBBY_X: i64 = 66_649_540;

pub const LOBBY_Y: i64 = -7_418_370;

pub const LOBBY_Z: i64 = 3_118_520;

/// How far from the lobby point a reading still counts as the lobby: one
/// world unit, squared.
pub const LOBBY_RADIUS_SQUARED: u64 = 1_000_000;

/// A complete reading of the game at one tick. The position counts
/// thousandths of a world unit; the timer counts ticks of in-game time.
#[derive(Clone, Copy, Debug, PartialEq, Eq, Structural)]
pub struct State {
    pub position_x: i64,
    pub position_y: i64,
    pub position_z: i64,
    pub timer: u32,
}

impl Default for State {
    /// The reading before anything was read: at the origin, timer at zero.
    fn default() -> (s: State)
        ensures
            s == State::blank(),
    {
        State { position_x: 0, position_y: 0, position_z: 0, timer: 0 }
    }
}

impl State {
    /// The reading that stands in before anything was read.
    pub open spec fn blank() -> State {
        State { position_x: 0, position_y: 0, position_z: 0, timer: 0 }
    }

    /// The player's position as a point.
    pub open spec fn position(self) -> Point {
        Point { x: self.position_x as int, y: self.position_y as int, z: self.position_z as int }
    }

    /// The in-game timer left zero between `old_state` and this reading.
    pub open spec fn begins_run(self, old_state: State) -> bool {
        old_state.timer == 0 && self.timer != 0
    }

    /// The player stands within one world unit of the lobby point.
    pub open spec fn in_lobby(self) -> bool {
        distance_squared(
            self.position(),
            Point { x: LOBBY_X as int, y: LOBBY_Y as int, z: LOBBY_Z as int },
        ) <= LOBBY_RADIUS_SQUARED
    }

    /// The player stands exactly at the origin.
    pub open spec fn at_origin(self) -> bool {
        self.position_x == 0 && self.position_y == 0 && self.position_z == 0
    }

    /// No run is in progress: the timer shows zero and the player is in the
    /// lobby or at the origin.
    pub open spec fn abandons_run(self) -> bool {
        self.timer == 0 && (self.in_lobby() || self.at_origin())
    }

    /// Whether a run began between the previous reading and this one.
    pub fn should_start(&self, old_state: &State) -> (b: bool)
        ensures
            b == self.begins_run(*old_state),
    {
        old_state.timer == 0 && self.timer != 0
    }

    /// Whether the player has reached the given checkpoint. The reading is
    /// left as it was.
    pub fn should_split(&mut self, current_trigger: &Triggers) -> (b: bool)
        ensures
            *final(self) == *old(self),
            b == current_trigger.region().contains(old(self).position()),
    {
        current_trigger.should_split(self)
    }

    /// Whether the reading shows that no run is in progress.
    pub fn should_reset(&self) -> (b: bool)
        ensures
            b == self.abandons_run(),
    {
        self.timer == 0 && (within_distance_squared(
            self.position_x,
            self.position_y,
            self.position_z,
            LOBBY_X,
            LOBBY_Y,
            LOBBY_Z,
            LOBBY_RADIUS_SQUARED,
        ) || (self.position_x == 0 && self.position_y == 0 && self.position_z == 0))
    }

    /// Whole seconds of in-game time; the ticks beyond them are dropped.
    pub fn elapsed_seconds(&self) -> (seconds: u32)
        ensures
            seconds == self.timer / TICKS_PER_SECOND,
    {
        self.timer / TICKS_PER_SECOND
    }
}

} // verus!
