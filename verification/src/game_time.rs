//! Pure in-game clock value: day counter and second within the day.
use vstd::prelude::*;
use vstd::string::StringExecFns;
use crate::text::{decimal, decimal_pad2, push_decimal, push_decimal_pad2};

verus! {

/// Seconds in one in-game day (24 h).
pub const SECONDS_PER_DAY: u64 = 86400u64;

#[derive(Debug, Clone, Copy, PartialEq, Eq, Structural)]
pub struct GameTime {
    /// 1-based day index.
    pub day: u32,
    /// Seconds elapsed within the current day `[0, SECONDS_PER_DAY)`.
    pub second_of_day: u32,
}

/// The clock after adding `add` seconds: the day grows (saturating) by the
/// number of whole days that `second_of_day + add` spans, and the second of
/// day becomes the remainder.  Adding nothing leaves the clock as it is.
pub open spec fn advanced(t: GameTime, add: nat) -> GameTime {
    if add == 0 {
        t
    } else {
        let total = t.second_of_day + add;
        let days = total / (SECONDS_PER_DAY as int);
        GameTime {
            day: if t.day + days > u32::MAX {
                u32::MAX
            } else {
                (t.day + days) as u32
            },
            second_of_day: (total % (SECONDS_PER_DAY as int)) as u32,
        }
    }
}

/// Seconds that one step of `game_seconds` adds: a long hitch is cut to one day.
pub open spec fn capped_step(game_seconds: nat) -> nat {
    if game_seconds < SECONDS_PER_DAY {
        game_seconds
    } else {
        SECONDS_PER_DAY as nat
    }
}

/// Seconds that advancing by `hours` whole hours adds: at most one day per step.
pub open spec fn hours_step(hours: nat) -> nat {
    capped_step(hours * 3600)
}

/// Seconds since day 1, 00:00:00.
pub open spec fn absolute_seconds(t: GameTime) -> int {
    (t.day - 1) * (SECONDS_PER_DAY as int) + t.second_of_day
}

/// The clock label: `Dzień <day> · HH:MM:SS`.
pub open spec fn clock_label(t: GameTime) -> Seq<char> {
    "Dzień "@ + decimal(t.day as nat) + " · "@ + decimal_pad2((t.second_of_day / 3600) as nat)
        + ":"@ + decimal_pad2(((t.second_of_day % 3600) / 60) as nat) + ":"@ + decimal_pad2(
        (t.second_of_day % 60) as nat,
    )
}

impl GameTime {
    /// The clock on day 1, `hour` hours, `minute` minutes and `second`
    /// seconds after midnight; the sum must fall within that day.
    pub fn start_of_day_one_at(hour: u32, minute: u32, second: u32) -> (t: Self)
        requires
            hour * 3600 + minute * 60 + second < SECONDS_PER_DAY,
        ensures
            t.day == 1,
            t.second_of_day == hour * 3600 + minute * 60 + second,
            t.second_of_day < SECONDS_PER_DAY,
    {
        let sod = hour * 3600 + minute * 60 + second;
        GameTime { day: 1, second_of_day: sod }
    }

    /// Adds `game_seconds` whole in-game seconds, cut to one day per call so
    /// that a long hitch does not jump many days.  Adding nothing is a no-op.
    pub fn advance(&mut self, game_seconds: u64)
        ensures
            *final(self) == advanced(*old(self), capped_step(game_seconds as nat)),
    {
        let add = if game_seconds < SECONDS_PER_DAY {
            game_seconds
        } else {
            SECONDS_PER_DAY
        };
        if add == 0 {
            return ;
        }
        let total = self.second_of_day as u64 + add;
        let days = (total / SECONDS_PER_DAY) as u32;
        self.second_of_day = (total % SECONDS_PER_DAY) as u32;
        self.day = self.day.saturating_add(days);
    }

    pub fn advance_hours(&mut self, hours: u32)
        ensures
            *final(self) == advanced(*old(self), hours_step(hours as nat)),
    {
        self.advance(hours as u64 * 3600);
    }

    pub fn format_label(self) -> (s: String)
        ensures
            s@ == clock_label(self),
    {
        let h = self.second_of_day / 3600;
        let m = (self.second_of_day % 3600) / 60;
        let sec = self.second_of_day % 60;
        let mut out = String::from_str("Dzień ");
        push_decimal(&mut out, self.day as u64);
        out.append(" · ");
        push_decimal_pad2(&mut out, h as u64);
        out.append(":");
        push_decimal_pad2(&mut out, m as u64);
        out.append(":");
        push_decimal_pad2(&mut out, sec as u64);
        out
    }
}

/// Advancing a valid clock keeps it valid, and (while the day counter does
/// not saturate) moves the absolute time forward by exactly the added seconds.
pub proof fn law_advance_adds_seconds(t: GameTime, add: nat)
    requires
        t.day >= 1,
        t.second_of_day < SECONDS_PER_DAY,
        add <= SECONDS_PER_DAY,
        t.day + 1 <= u32::MAX,
    ensures
        advanced(t, add).second_of_day < SECONDS_PER_DAY,
        absolute_seconds(advanced(t, add)) == absolute_seconds(t) + add,
        t.day <= advanced(t, add).day <= t.day + 1,
{
    if add > 0 {
        let total = t.second_of_day + add;
        assert(total < 2 * SECONDS_PER_DAY);
        assert(total / (SECONDS_PER_DAY as int) <= 1);
        assert(total == (total / (SECONDS_PER_DAY as int)) * (SECONDS_PER_DAY as int) + total
            % (SECONDS_PER_DAY as int));
    }
}

/// Every step of `advance` on a valid clock keeps it valid, moves it by at
/// most one day, and (while the day counter does not saturate) moves the
/// absolute time forward by exactly the step cut to one day.
pub proof fn law_advance_moves_by_capped_step(t: GameTime, game_seconds: nat)
    requires
        t.day >= 1,
        t.second_of_day < SECONDS_PER_DAY,
        t.day + 1 <= u32::MAX,
    ensures
        advanced(t, capped_step(game_seconds)).second_of_day < SECONDS_PER_DAY,
        absolute_seconds(advanced(t, capped_step(game_seconds))) == absolute_seconds(t)
            + capped_step(game_seconds),
        t.day <= advanced(t, capped_step(game_seconds)).day <= t.day + 1,
        capped_step(game_seconds) <= game_seconds,
        capped_step(game_seconds) <= SECONDS_PER_DAY,
{
    law_advance_adds_seconds(t, capped_step(game_seconds));
}

/// Two hour skips that stay within one day each add up: skipping `a` then
/// `b` hours equals skipping `a + b` hours (no saturation of the day counter).
pub proof fn law_hour_skips_compose(t: GameTime, a: nat, b: nat)
    requires
        t.day >= 1,
        t.second_of_day < SECONDS_PER_DAY,
        a + b <= 24,
        t.day + 2 <= u32::MAX,
    ensures
        advanced(advanced(t, hours_step(a)), hours_step(b)) == advanced(t, hours_step(a + b)),
{
    assert(hours_step(a) == a * 3600);
    assert(hours_step(b) == b * 3600);
    assert(hours_step(a + b) == (a + b) * 3600) by (nonlinear_arith)
        requires
            a + b <= 24,
    ;
    law_advance_adds_seconds(t, hours_step(a));
    let t1 = advanced(t, hours_step(a));
    assert(t1.day >= 1);
    assert(t1.day <= t.day + 1) by {
        if a > 0 {
            let total = t.second_of_day + a * 3600;
            assert(total / (SECONDS_PER_DAY as int) <= 1);
        }
    }
    law_advance_adds_seconds(t1, hours_step(b));
    law_advance_adds_seconds(t, hours_step(a + b));
    let x = advanced(t1, hours_step(b));
    let y = advanced(t, hours_step(a + b));
    assert(absolute_seconds(x) == absolute_seconds(y));
    assert(x.second_of_day < SECONDS_PER_DAY && y.second_of_day < SECONDS_PER_DAY);
    assert(x.day >= 1 && y.day >= 1) by {
        if b > 0 {
            assert(x.day >= t1.day);
        }
        if a + b > 0 {
            assert(y.day >= t.day);
        }
    }
    assert(x.day == y.day && x.second_of_day == y.second_of_day) by (nonlinear_arith)
        requires
            (x.day - 1) * 86400 + x.second_of_day == (y.day - 1) * 86400 + y.second_of_day,
            x.second_of_day < 86400,
            y.second_of_day < 86400,
            x.second_of_day >= 0,
            y.second_of_day >= 0,
    ;
}

} // verus!
