//! Playback state of the simulation clock: pause, speed and the clock
//! itself.  The caller turns real frame time into in-game seconds.
use vstd::prelude::*;
use crate::game_time::{advanced, capped_step, hours_step, GameTime};

verus! {

/// In-game seconds per real second at speed ×1.
pub const DEFAULT_TIME_SCALE: u32 = 60u32;

/// The speed multipliers offered to the player.
pub const SPEED_MULTIPLIERS: [u32; 3] = [1u32, 10u32, 60u32];

/// In-game seconds per real second: none while paused or at speed 0.
pub open spec fn time_scale(paused: bool, speed_mult: u32) -> nat {
    if paused || speed_mult == 0 {
        0
    } else {
        (DEFAULT_TIME_SCALE * speed_mult) as nat
    }
}

/// In-game seconds per real second for the given pause flag and speed.
pub fn effective_time_scale(paused: bool, speed_mult: u32) -> (s: u64)
    ensures
        s == time_scale(paused, speed_mult),
{
    if paused || speed_mult == 0 {
        0
    } else {
        DEFAULT_TIME_SCALE as u64 * speed_mult as u64
    }
}

/// The clock at day 1, 08:00:00.
pub open spec fn morning_of_day_one() -> GameTime {
    GameTime { day: 1, second_of_day: 28800u32 }
}

/// The loop after a frame worth `game_seconds` in-game seconds: the clock
/// moves only while playback runs.
pub open spec fn ticked(l: GameLoop, game_seconds: nat) -> GameLoop {
    if time_scale(l.paused, l.speed_mult) > 0 {
        GameLoop { time: advanced(l.time, capped_step(game_seconds)), ..l }
    } else {
        l
    }
}

/// The loop with its pause flag flipped.
pub open spec fn toggled(l: GameLoop) -> GameLoop {
    GameLoop { paused: !l.paused, ..l }
}

/// Owns the in-game clock and the playback controls.
#[derive(Debug, Clone, Copy)]
pub struct GameLoop {
    pub time: GameTime,
    pub paused: bool,
    pub speed_mult: u32,
}

impl GameLoop {
    /// Running at speed ×1 from day 1, 08:00:00.
    pub fn new() -> (l: Self)
        ensures
            l.time == morning_of_day_one(),
            !l.paused,
            l.speed_mult == 1,
    {
        GameLoop { time: GameTime::start_of_day_one_at(8, 0, 0), paused: false, speed_mult: 1 }
    }

    /// Advances the clock by `game_seconds` in-game seconds of one frame (at
    /// most one day), unless playback is paused or stopped.
    pub fn tick_game_seconds(&mut self, game_seconds: u64)
        ensures
            *final(self) == ticked(*old(self), game_seconds as nat),
    {
        if effective_time_scale(self.paused, self.speed_mult) > 0 {
            self.time.advance(game_seconds);
        }
    }

    pub fn time(&self) -> (t: GameTime)
        ensures
            t == self.time,
    {
        self.time
    }

    pub fn paused(&self) -> (p: bool)
        ensures
            p == self.paused,
    {
        self.paused
    }

    pub fn speed_mult(&self) -> (m: u32)
        ensures
            m == self.speed_mult,
    {
        self.speed_mult
    }

    pub fn toggle_pause(&mut self)
        ensures
            *final(self) == toggled(*old(self)),
    {
        self.paused = !self.paused;
    }

    /// Chooses a speed and resumes playback.
    pub fn set_speed(&mut self, mult: u32)
        ensures
            final(self).speed_mult == mult,
            !final(self).paused,
            final(self).time == old(self).time,
    {
        self.speed_mult = mult;
        self.paused = false;
    }

    /// Skips whole hours, paused or not (at most one day per call).
    pub fn skip_hours(&mut self, hours: u32)
        ensures
            final(self).time == advanced(old(self).time, hours_step(hours as nat)),
            final(self).paused == old(self).paused,
            final(self).speed_mult == old(self).speed_mult,
    {
        self.time.advance_hours(hours);
    }

    /// Restarts the clock at day 1, 08:00:00, keeping pause and speed.
    pub fn reset_time(&mut self)
        ensures
            final(self).time == morning_of_day_one(),
            final(self).paused == old(self).paused,
            final(self).speed_mult == old(self).speed_mult,
    {
        self.time = GameTime::start_of_day_one_at(8, 0, 0);
    }
}

impl Default for GameLoop {
    fn default() -> (l: Self)
        ensures
            l.time == morning_of_day_one(),
            !l.paused,
            l.speed_mult == 1,
    {
        GameLoop::new()
    }
}

/// A paused loop keeps its clock whatever frame time passes.
pub proof fn law_paused_clock_stands_still(l: GameLoop, game_seconds: nat)
    requires
        l.paused,
    ensures
        ticked(l, game_seconds) == l,
{
}

/// Toggling pause twice gives the loop back unchanged.
pub proof fn law_toggle_twice_is_identity(l: GameLoop)
    ensures
        toggled(toggled(l)) == l,
{
}

} // verus!
