//! Power-ups: timed boosts that a learner activates one at a time.
//! Timestamps are milliseconds since the Unix epoch.

use vstd::prelude::*;
use crate::clock::{utc_now_millis, MAX_TIMESTAMP_MS};
use crate::text::{decimal, owned, u64_to_string};

verus! {

/// The kinds of power-up.
#[derive(Debug, Clone, Copy, PartialEq, Eq, Structural)]
pub enum PowerUpEffect {
    /// Double experience points.
    DoubleXP,
    /// Extra hints without penalty.
    HintBoost,
    /// More time to answer.
    TimeFreeze,
    /// Protects the streak for one day.
    StreakShield,
    /// Hides distractions and increases rewards.
    FocusMode,
}

pub open spec fn effect_id(e: PowerUpEffect) -> Seq<char> {
    match e {
        PowerUpEffect::DoubleXP => "double_xp"@,
        PowerUpEffect::HintBoost => "hint_boost"@,
        PowerUpEffect::TimeFreeze => "time_freeze"@,
        PowerUpEffect::StreakShield => "streak_shield"@,
        PowerUpEffect::FocusMode => "focus_mode"@,
    }
}

pub open spec fn effect_name(e: PowerUpEffect) -> Seq<char> {
    match e {
        PowerUpEffect::DoubleXP => "Double XP"@,
        PowerUpEffect::HintBoost => "Hint Boost"@,
        PowerUpEffect::TimeFreeze => "Time Freeze"@,
        PowerUpEffect::StreakShield => "Streak Shield"@,
        PowerUpEffect::FocusMode => "Focus Mode"@,
    }
}

pub open spec fn effect_description(e: PowerUpEffect) -> Seq<char> {
    match e {
        PowerUpEffect::DoubleXP => "Earn double experience points for the next 30 minutes"@,
        PowerUpEffect::HintBoost => "Get unlimited hints for the next 15 minutes"@,
        PowerUpEffect::TimeFreeze => "Double your response time for the next 20 minutes"@,
        PowerUpEffect::StreakShield => "Protect your streak if you miss a day"@,
        PowerUpEffect::FocusMode => "Eliminate distractions and earn 50% more points"@,
    }
}

pub open spec fn effect_icon(e: PowerUpEffect) -> Seq<char> {
    match e {
        PowerUpEffect::DoubleXP => "⚡"@,
        PowerUpEffect::HintBoost => "💡"@,
        PowerUpEffect::TimeFreeze => "⏰"@,
        PowerUpEffect::StreakShield => "🛡️"@,
        PowerUpEffect::FocusMode => "🎯"@,
    }
}

/// How long a power-up of each kind lasts, in seconds.
pub open spec fn effect_duration(e: PowerUpEffect) -> i64 {
    match e {
        PowerUpEffect::DoubleXP => 1800,
        PowerUpEffect::HintBoost => 900,
        PowerUpEffect::TimeFreeze => 1200,
        PowerUpEffect::StreakShield => 86400,
        PowerUpEffect::FocusMode => 2400,
    }
}

pub open spec fn effect_color(e: PowerUpEffect) -> Seq<char> {
    match e {
        PowerUpEffect::DoubleXP => "#f6ad55"@,
        PowerUpEffect::HintBoost => "#4299e1"@,
        PowerUpEffect::TimeFreeze => "#9f7aea"@,
        PowerUpEffect::StreakShield => "#48bb78"@,
        PowerUpEffect::FocusMode => "#ed8936"@,
    }
}

impl PowerUpEffect {
    /// The display colour of the kind: gold, blue, purple, green, orange.
    pub fn color(&self) -> (r: &'static str)
        ensures
            r@ == effect_color(*self),
    {
        match self {
            PowerUpEffect::DoubleXP => "#f6ad55",
            PowerUpEffect::HintBoost => "#4299e1",
            PowerUpEffect::TimeFreeze => "#9f7aea",
            PowerUpEffect::StreakShield => "#48bb78",
            PowerUpEffect::FocusMode => "#ed8936",
        }
    }
}

/// A power-up held by a learner.
#[derive(Debug)]
pub struct PowerUp {
    pub id: String,
    pub name: String,
    pub description: String,
    pub icon: String,
    pub duration_seconds: i64,
    pub effect: PowerUpEffect,
    /// When the running activation ends, in milliseconds since the epoch.
    pub active_until: Option<i64>,
    pub quantity: u32,
}

impl Clone for PowerUp {
    fn clone(&self) -> (r: Self)
        ensures
            r == *self,
    {
        PowerUp {
            id: self.id.clone(),
            name: self.name.clone(),
            description: self.description.clone(),
            icon: self.icon.clone(),
            duration_seconds: self.duration_seconds,
            effect: self.effect,
            active_until: self.active_until,
            quantity: self.quantity,
        }
    }
}

/// The end of an activation started at `now` for a power-up of `seconds`.
pub open spec fn activation_end(now: i64, seconds: i64) -> int {
    now + seconds * 1000
}

/// An instant that chrono's `DateTime<Utc>` can hold, with a margin below.
pub open spec fn representable(ms: int) -> bool {
    -MAX_TIMESTAMP_MS <= ms <= MAX_TIMESTAMP_MS
}

/// The power-up after an activation at `now`: one fewer left, running until
/// its duration has passed; unchanged when none are left.
pub open spec fn after_activation(p: PowerUp, now: i64) -> PowerUp {
    if p.quantity > 0 {
        PowerUp {
            active_until: Some(activation_end(now, p.duration_seconds) as i64),
            quantity: (p.quantity - 1) as u32,
            ..p
        }
    } else {
        p
    }
}

/// `new` is `p` activated at the clock reading `now`, or `p` unchanged where
/// that activation would end outside chrono's range.
pub open spec fn activated_or_kept(p: PowerUp, new: PowerUp, now: i64) -> bool {
    &&& 0 <= now <= MAX_TIMESTAMP_MS
    &&& if p.quantity > 0 && !representable(activation_end(now, p.duration_seconds)) {
        new == p
    } else {
        new == after_activation(p, now)
    }
}

/// Whether an activation of `p` runs at `now`.
pub open spec fn is_running(p: PowerUp, now: i64) -> bool {
    p.active_until matches Some(until) && now < until
}

/// The time left of a power-up at `now`, in milliseconds.
pub open spec fn remaining(p: PowerUp, now: i64) -> Option<int> {
    match p.active_until {
        Some(until) => if now < until { Some(until - now) } else { None },
        None => None,
    }
}

/// The remaining time as shown: whole minutes and seconds, or seconds alone
/// under a minute; "Inactive" when nothing runs.
pub open spec fn remaining_text(p: PowerUp, now: i64) -> Seq<char> {
    match remaining(p, now) {
        Some(ms) => {
            let secs = ms / 1000;
            let minutes = secs / 60;
            if minutes > 0 {
                decimal(minutes as nat) + "m "@ + decimal((secs % 60) as nat) + "s"@
            } else {
                decimal((secs % 60) as nat) + "s"@
            }
        },
        None => "Inactive"@,
    }
}

impl PowerUp {
    /// A single, inactive power-up of the given kind.
    pub fn new(effect: PowerUpEffect) -> (r: Self)
        ensures
            r.id@ == effect_id(effect),
            r.name@ == effect_name(effect),
            r.description@ == effect_description(effect),
            r.icon@ == effect_icon(effect),
            r.duration_seconds == effect_duration(effect),
            r.effect == effect,
            r.active_until is None,
            r.quantity == 1,
    {
        let (id, name, description, icon, duration): (&str, &str, &str, &str, i64) = match effect {
            PowerUpEffect::DoubleXP => (
                "double_xp",
                "Double XP",
                "Earn double experience points for the next 30 minutes",
                "⚡",
                1800,
            ),
            PowerUpEffect::HintBoost => (
                "hint_boost",
                "Hint Boost",
                "Get unlimited hints for the next 15 minutes",
                "💡",
                900,
            ),
            PowerUpEffect::TimeFreeze => (
                "time_freeze",
                "Time Freeze",
                "Double your response time for the next 20 minutes",
                "⏰",
                1200,
            ),
            PowerUpEffect::StreakShield => (
                "streak_shield",
                "Streak Shield",
                "Protect your streak if you miss a day",
                "🛡️",
                86400,
            ),
            PowerUpEffect::FocusMode => (
                "focus_mode",
                "Focus Mode",
                "Eliminate distractions and earn 50% more points",
                "🎯",
                2400,
            ),
        };
        PowerUp {
            id: owned(id),
            name: owned(name),
            description: owned(description),
            icon: owned(icon),
            duration_seconds: duration,
            effect,
            active_until: None,
            quantity: 1,
        }
    }

    /// Starts one activation at `now`, when any are left.
    pub fn activate_at(&mut self, now: i64)
        requires
            0 <= now <= MAX_TIMESTAMP_MS,
            old(self).quantity > 0 ==> representable(activation_end(now, old(self).duration_seconds)),
        ensures
            *final(self) == after_activation(*old(self), now),
    {
        if self.quantity > 0 {
            self.active_until = Some(now + self.duration_seconds * 1000);
            self.quantity = self.quantity - 1;
        }
    }

    /// Starts one activation now, when any are left. An activation whose end
    /// chrono cannot represent (where the clock and the duration together
    /// leave its range) is not started.
    pub fn activate(&mut self)
        ensures
            exists|now: i64| #[trigger] activated_or_kept(*old(self), *final(self), now),
    {
        let now = utc_now_millis();
        if self.quantity > 0 {
            let end: i128 = now as i128 + self.duration_seconds as i128 * 1000;
            if end < -(MAX_TIMESTAMP_MS as i128) || end > MAX_TIMESTAMP_MS as i128 {
                assert(activated_or_kept(*old(self), *self, now));
                return;
            }
        }
        self.activate_at(now);
        assert(activated_or_kept(*old(self), *self, now));
    }

    /// Whether an activation runs at `now`.
    pub fn is_active_at(&self, now: i64) -> (r: bool)
        ensures
            r == is_running(*self, now),
    {
        match self.active_until {
            Some(until) => now < until,
            None => false,
        }
    }

    /// Whether an activation runs now.
    pub fn is_active(&self) -> (r: bool)
        ensures
            exists|now: i64| 0 <= now <= MAX_TIMESTAMP_MS && r == #[trigger] is_running(*self, now),
    {
        let now = utc_now_millis();
        self.is_active_at(now)
    }

    /// The time left at `now`, in milliseconds.
    pub fn time_remaining_at(&self, now: i64) -> (r: Option<i64>)
        requires
            0 <= now,
        ensures
            r == match remaining(*self, now) {
                Some(ms) => Some(ms as i64),
                None => None::<i64>,
            },
            r matches Some(ms) ==> ms > 0,
    {
        match self.active_until {
            Some(until) => {
                if now < until {
                    Some(until - now)
                } else {
                    None
                }
            },
            None => None,
        }
    }

    /// The time left now, in milliseconds.
    pub fn time_remaining(&self) -> (r: Option<i64>)
        ensures
            exists|now: i64|
                0 <= now <= MAX_TIMESTAMP_MS && r == match #[trigger] remaining(*self, now) {
                    Some(ms) => Some(ms as i64),
                    None => None::<i64>,
                },
    {
        let now = utc_now_millis();
        self.time_remaining_at(now)
    }

    /// The remaining time at `now` as shown to the learner.
    pub fn display_time_remaining_at(&self, now: i64) -> (r: String)
        requires
            0 <= now,
        ensures
            r@ == remaining_text(*self, now),
    {
        match self.time_remaining_at(now) {
            Some(ms) => {
                let secs: i64 = ms / 1000;
                let minutes: i64 = secs / 60;
                let rest: i64 = secs % 60;
                if minutes > 0 {
                    let mut s = u64_to_string(minutes as u64);
                    s.append("m ");
                    s.append(u64_to_string(rest as u64).as_str());
                    s.append("s");
                    s
                } else {
                    let mut s = u64_to_string(rest as u64);
                    s.append("s");
                    s
                }
            },
            None => owned("Inactive"),
        }
    }

    /// The remaining time now as shown to the learner.
    pub fn display_time_remaining(&self) -> (r: String)
        ensures
            exists|now: i64| 0 <= now && r@ == #[trigger] remaining_text(*self, now),
    {
        let now = utc_now_millis();
        self.display_time_remaining_at(now)
    }
}

/// An activation at `now` runs for exactly the power-up's duration: it is
/// running at every moment before its end and at none from then on, and at
/// its start the whole duration remains.
pub proof fn lemma_activation_window(p: PowerUp, now: i64, t: i64)
    requires
        p.quantity > 0,
        representable(activation_end(now, p.duration_seconds)),
    ensures
        is_running(after_activation(p, now), t) <==> t < activation_end(now, p.duration_seconds),
        p.duration_seconds > 0 ==> remaining(after_activation(p, now), now) == Some(p.duration_seconds * 1000),
{
}

} // verus!
