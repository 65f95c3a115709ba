//! Daily practice streaks with freeze charges. Days are UTC calendar days;
//! every timestamp is in milliseconds since the Unix epoch.

use vstd::prelude::*;
use crate::clock::{utc_day_number, utc_now_millis, MAX_TIMESTAMP_MS};
use crate::text::{decimal, owned, u64_to_string};

verus! {

/// The UTC calendar day of a timestamp, as chrono counts it from 1 January
/// of year 1.
pub open spec fn day_of(ms: int) -> int {
    ms / 86_400_000 + 719_163
}

/// A timestamp that chrono can turn into a calendar day.
pub open spec fn valid_stamp(ms: i64) -> bool {
    0 <= ms <= MAX_TIMESTAMP_MS
}

/// Whole calendar days from the day of `from` to the day of `to`.
pub open spec fn days_between(from: i64, to: i64) -> int {
    day_of(to as int) - day_of(from as int)
}

/// The streak state of one learner.
#[derive(Debug)]
pub struct StreakInfo {
    pub current: u32,
    pub longest: u32,
    pub last_practice: Option<i64>,
    pub freeze_charges: u32,
    pub frozen_days: Vec<i64>,
}

impl StreakInfo {
    /// Every stored timestamp can be placed on the calendar.
    pub open spec fn wf(&self) -> bool {
        &&& (self.last_practice matches Some(t) ==> valid_stamp(t))
        &&& forall|i: int| 0 <= i < self.frozen_days@.len() ==> valid_stamp(#[trigger] self.frozen_days@[i])
    }

    /// Whether a freeze was used on a day strictly between the days of
    /// `from` and `to`.
    pub open spec fn frozen_between(&self, from: i64, to: i64) -> bool {
        exists|i: int|
            0 <= i < self.frozen_days@.len() && day_of(from as int) < day_of(#[trigger] self.frozen_days@[i] as int)
                && day_of(self.frozen_days@[i] as int) < day_of(to as int)
    }

    /// Whether a freeze was used on the calendar day of `now`.
    pub open spec fn frozen_on(&self, now: i64) -> bool {
        exists|i: int|
            0 <= i < self.frozen_days@.len() && day_of(#[trigger] self.frozen_days@[i] as int) == day_of(now as int)
    }

    /// The current streak after practising at `now`.
    pub open spec fn current_after_practice(&self, now: i64) -> int {
        match self.last_practice {
            None => 1,
            Some(last) => {
                let d = days_between(last, now);
                if d == 0 {
                    self.current as int
                } else if d == 1 {
                    self.current + 1
                } else if d == 2 && self.frozen_between(last, now) {
                    self.current as int
                } else {
                    1
                }
            },
        }
    }

    /// The longest streak after practising at `now`.
    pub open spec fn longest_after_practice(&self, now: i64) -> int {
        match self.last_practice {
            None => 1,
            Some(last) => {
                if days_between(last, now) == 1 && self.current + 1 > self.longest {
                    self.current + 1
                } else {
                    self.longest as int
                }
            },
        }
    }

    /// The current streak after checking at `now` for a missed day.
    pub open spec fn current_after_check(&self, now: i64) -> int {
        match self.last_practice {
            Some(last) => {
                if days_between(last, now) > 1 && !self.frozen_between(last, now) {
                    0
                } else {
                    self.current as int
                }
            },
            None => self.current as int,
        }
    }

    /// Days left before the streak breaks, seen at `now`.
    pub open spec fn days_left(&self, now: i64) -> int {
        match self.last_practice {
            Some(last) => if days_between(last, now) == 0 { 1 } else { 0 },
            None => 0,
        }
    }

    /// Whether a running streak ends unless the learner practises today.
    pub open spec fn at_risk(&self, now: i64) -> bool {
        self.days_left(now) == 0 && self.current > 0
    }

    /// The streak text shown at `now`.
    pub open spec fn status_text(&self, now: i64) -> Seq<char> {
        if self.current == 0 {
            "No streak"@
        } else if self.at_risk(now) {
            "🔥 "@ + decimal(self.current as nat) + " days - Practice today to continue!"@
        } else {
            "🔥 "@ + decimal(self.current as nat) + " days"@
        }
    }

    /// The milestone that the current streak sits on, if any.
    pub open spec fn milestone(&self) -> Option<u32> {
        let c = self.current;
        if c == 7 || c == 14 || c == 30 || c == 60 || c == 100 || c == 365 {
            Some(c)
        } else {
            None
        }
    }

    /// The longest streak is at least the current one, and at least one
    /// once the learner has practised.
    pub open spec fn counts_consistent(&self) -> bool {
        &&& self.current <= self.longest
        &&& self.last_practice is Some ==> self.longest >= 1
    }

    /// `new` is the state after `self` was updated at `now`.
    pub open spec fn updated_at(&self, new: &StreakInfo, practiced_today: bool, now: i64) -> bool {
        &&& valid_stamp(now)
        &&& practiced_today ==> new.current == self.current_after_practice(now) && new.longest
            == self.longest_after_practice(now) && new.last_practice == Some(now)
        &&& !practiced_today ==> new.current == self.current_after_check(now) && new.longest == self.longest
            && new.last_practice == self.last_practice
    }

    /// `new` holds a freeze spent at `now`, which no earlier freeze covered.
    pub open spec fn froze_at(&self, new: &StreakInfo, now: i64) -> bool {
        &&& valid_stamp(now)
        &&& !self.frozen_on(now)
        &&& new.frozen_days@ == self.frozen_days@.push(now)
    }

    /// `new` is `self` after spending a freeze charge on the day of `now`,
    /// answered with `r`: refused without a charge left or when a freeze was
    /// already used that day; otherwise a charge is spent and the day noted.
    pub open spec fn freeze_outcome(&self, new: &StreakInfo, now: i64, r: Result<(), String>) -> bool {
        &&& new.current == self.current
        &&& new.longest == self.longest
        &&& new.last_practice == self.last_practice
        &&& self.freeze_charges == 0 ==> r == Err::<(), String>(r->Err_0) && r->Err_0@ == "No freeze charges available"@
        &&& self.freeze_charges > 0 && self.frozen_on(now) ==> r == Err::<(), String>(r->Err_0) && r->Err_0@
            == "Already used freeze today"@
        &&& r is Err ==> new.freeze_charges == self.freeze_charges && new.frozen_days@ == self.frozen_days@
        &&& self.freeze_charges > 0 && !self.frozen_on(now) ==> r is Ok && new.freeze_charges == self.freeze_charges - 1
            && new.frozen_days@ == self.frozen_days@.push(now)
    }

    /// A fresh streak: nothing practised yet and three freeze charges.
    pub fn new() -> (r: Self)
        ensures
            r.wf(),
            r.current == 0,
            r.longest == 0,
            r.last_practice is None,
            r.freeze_charges == 3,
            r.frozen_days@.len() == 0,
    {
        StreakInfo { current: 0, longest: 0, last_practice: None, freeze_charges: 3, frozen_days: Vec::new() }
    }

    /// A copy of the streak state.
    pub fn duplicate(&self) -> (r: Self)
        ensures
            r.current == self.current,
            r.longest == self.longest,
            r.last_practice == self.last_practice,
            r.freeze_charges == self.freeze_charges,
            r.frozen_days@ == self.frozen_days@,
    {
        StreakInfo {
            current: self.current,
            longest: self.longest,
            last_practice: self.last_practice,
            freeze_charges: self.freeze_charges,
            frozen_days: self.frozen_days.clone(),
        }
    }

    /// Records a practice session at `now`.
    pub fn practice_today_at(&mut self, now: i64)
        requires
            old(self).wf(),
            valid_stamp(now),
            old(self).last_practice matches Some(last) && days_between(last, now) == 1 ==> old(self).current < u32::MAX,
        ensures
            final(self).wf(),
            final(self).current == old(self).current_after_practice(now),
            final(self).longest == old(self).longest_after_practice(now),
            final(self).last_practice == Some(now),
            final(self).freeze_charges == old(self).freeze_charges,
            final(self).frozen_days@ == old(self).frozen_days@,
    {
        match self.last_practice {
            Some(last) => {
                let days = utc_day_number(now) - utc_day_number(last);
                if days == 0 {
                } else if days == 1 {
                    self.current = self.current + 1;
                    if self.current > self.longest {
                        self.longest = self.current;
                    }
                } else if days == 2 && self.was_frozen(last, now) {
                } else {
                    self.current = 1;
                }
            },
            None => {
                self.current = 1;
                self.longest = 1;
            },
        }
        self.last_practice = Some(now);
    }

    /// Records a practice session now.
    pub fn practice_today(&mut self)
        requires
            old(self).wf(),
            old(self).current < u32::MAX,
        ensures
            final(self).wf(),
            exists|now: i64| #[trigger] old(self).updated_at(&*final(self), true, now),
            final(self).freeze_charges == old(self).freeze_charges,
            final(self).frozen_days@ == old(self).frozen_days@,
    {
        let now = utc_now_millis();
        self.practice_today_at(now);
        assert(old(self).updated_at(&*self, true, now));
    }

    /// Ends the streak at `now` when more than one day was missed and no
    /// freeze covers the gap.
    pub fn check_streak_break_at(&mut self, now: i64)
        requires
            old(self).wf(),
            valid_stamp(now),
        ensures
            final(self).wf(),
            final(self).current == old(self).current_after_check(now),
            final(self).longest == old(self).longest,
            final(self).last_practice == old(self).last_practice,
            final(self).freeze_charges == old(self).freeze_charges,
            final(self).frozen_days@ == old(self).frozen_days@,
    {
        if let Some(last) = self.last_practice {
            let days = utc_day_number(now) - utc_day_number(last);
            if days > 1 && !self.was_frozen(last, now) {
                self.current = 0;
            }
        }
    }

    /// Updates the streak at `now`: a practice session, or a check for a
    /// broken streak.
    pub fn update_at(&mut self, practiced_today: bool, now: i64)
        requires
            old(self).wf(),
            valid_stamp(now),
            practiced_today ==> (old(self).last_practice matches Some(last) && days_between(last, now) == 1
                ==> old(self).current < u32::MAX),
        ensures
            final(self).wf(),
            practiced_today ==> final(self).current == old(self).current_after_practice(now)
                && final(self).longest == old(self).longest_after_practice(now)
                && final(self).last_practice == Some(now),
            !practiced_today ==> final(self).current == old(self).current_after_check(now)
                && final(self).longest == old(self).longest
                && final(self).last_practice == old(self).last_practice,
            final(self).freeze_charges == old(self).freeze_charges,
            final(self).frozen_days@ == old(self).frozen_days@,
    {
        if practiced_today {
            self.practice_today_at(now);
        } else {
            self.check_streak_break_at(now);
        }
    }

    /// Updates the streak now.
    pub fn update(&mut self, practiced_today: bool)
        requires
            old(self).wf(),
            practiced_today ==> old(self).current < u32::MAX,
        ensures
            final(self).wf(),
            exists|now: i64| #[trigger] old(self).updated_at(&*final(self), practiced_today, now),
            final(self).freeze_charges == old(self).freeze_charges,
            final(self).frozen_days@ == old(self).frozen_days@,
    {
        let now = utc_now_millis();
        self.update_at(practiced_today, now);
        assert(old(self).updated_at(&*self, practiced_today, now));
    }

    /// Spends a freeze charge on the day of `now`.
    pub fn use_freeze_at(&mut self, now: i64) -> (r: Result<(), String>)
        requires
            old(self).wf(),
            valid_stamp(now),
        ensures
            final(self).wf(),
            old(self).freeze_outcome(&*final(self), now, r),
    {
        if self.freeze_charges == 0 {
            return Err(owned("No freeze charges available"));
        }
        let today = utc_day_number(now);
        let mut i: usize = 0;
        while i < self.frozen_days.len()
            invariant
                *self == *old(self),
                self.freeze_charges > 0,
                self.wf(),
                valid_stamp(now),
                today == day_of(now as int),
                i <= self.frozen_days@.len(),
                forall|j: int| 0 <= j < i ==> day_of(#[trigger] self.frozen_days@[j] as int) != day_of(now as int),
            decreases self.frozen_days@.len() - i,
        {
            if utc_day_number(self.frozen_days[i]) == today {
                return Err(owned("Already used freeze today"));
            }
            i = i + 1;
        }
        self.freeze_charges = self.freeze_charges - 1;
        self.frozen_days.push(now);
        Ok(())
    }

    /// Spends a freeze charge today.
    pub fn use_freeze(&mut self) -> (r: Result<(), String>)
        requires
            old(self).wf(),
        ensures
            final(self).wf(),
            exists|now: i64| valid_stamp(now) && #[trigger] old(self).freeze_outcome(&*final(self), now, r),
    {
        let now = utc_now_millis();
        self.use_freeze_at(now)
    }

    /// Whether a freeze was used strictly between the days of `from` and `to`.
    pub fn was_frozen(&self, from: i64, to: i64) -> (r: bool)
        requires
            self.wf(),
            valid_stamp(from),
            valid_stamp(to),
        ensures
            r == self.frozen_between(from, to),
    {
        let from_day = utc_day_number(from);
        let to_day = utc_day_number(to);
        let mut i: usize = 0;
        while i < self.frozen_days.len()
            invariant
                self.wf(),
                from_day == day_of(from as int),
                to_day == day_of(to as int),
                i <= self.frozen_days@.len(),
                forall|j: int|
                    0 <= j < i ==> !(day_of(from as int) < day_of(#[trigger] self.frozen_days@[j] as int) && day_of(
                        self.frozen_days@[j] as int,
                    ) < day_of(to as int)),
            decreases self.frozen_days@.len() - i,
        {
            let d = utc_day_number(self.frozen_days[i]);
            if from_day < d && d < to_day {
                return true;
            }
            i = i + 1;
        }
        false
    }

    /// Days left before the streak breaks, seen at `now`: one when the
    /// learner practised today, none otherwise.
    pub fn days_until_break_at(&self, now: i64) -> (r: u32)
        requires
            self.wf(),
            valid_stamp(now),
        ensures
            r == self.days_left(now),
    {
        match self.last_practice {
            Some(last) => {
                if utc_day_number(now) - utc_day_number(last) == 0 {
                    1
                } else {
                    0
                }
            },
            None => 0,
        }
    }

    /// Days left before the streak breaks, seen now.
    pub fn days_until_break(&self) -> (r: u32)
        requires
            self.wf(),
        ensures
            exists|now: i64| valid_stamp(now) && r == self.days_left(now),
    {
        let now = utc_now_millis();
        self.days_until_break_at(now)
    }

    /// Whether a running streak ends unless the learner practises on the
    /// day of `now`.
    pub fn is_at_risk_at(&self, now: i64) -> (r: bool)
        requires
            self.wf(),
            valid_stamp(now),
        ensures
            r == self.at_risk(now),
    {
        self.days_until_break_at(now) == 0 && self.current > 0
    }

    /// Whether a running streak ends unless the learner practises today.
    pub fn is_at_risk(&self) -> (r: bool)
        requires
            self.wf(),
        ensures
            exists|now: i64| valid_stamp(now) && r == self.at_risk(now),
    {
        let now = utc_now_millis();
        self.is_at_risk_at(now)
    }

    /// The streak text shown at `now`.
    pub fn display_status_at(&self, now: i64) -> (r: String)
        requires
            self.wf(),
            valid_stamp(now),
        ensures
            r@ == self.status_text(now),
    {
        if self.current == 0 {
            owned("No streak")
        } else {
            let mut s = owned("🔥 ");
            let n = u64_to_string(self.current as u64);
            s.append(n.as_str());
            if self.is_at_risk_at(now) {
                s.append(" days - Practice today to continue!");
            } else {
                s.append(" days");
            }
            s
        }
    }

    /// The streak text shown now.
    pub fn display_status(&self) -> (r: String)
        requires
            self.wf(),
        ensures
            exists|now: i64| valid_stamp(now) && r@ == self.status_text(now),
    {
        let now = utc_now_millis();
        self.display_status_at(now)
    }

    /// The milestone that the current streak sits on: 7, 14, 30, 60, 100 or
    /// 365 days.
    pub fn get_milestone(&self) -> (r: Option<u32>)
        ensures
            r == self.milestone(),
    {
        let c = self.current;
        if c == 7 || c == 14 || c == 30 || c == 60 || c == 100 || c == 365 {
            Some(c)
        } else {
            None
        }
    }
}

impl Default for StreakInfo {
    fn default() -> (r: Self)
        ensures
            r.wf(),
            r.current == 0,
            r.longest == 0,
            r.last_practice is None,
            r.freeze_charges == 3,
            r.frozen_days@.len() == 0,
    {
        StreakInfo::new()
    }
}

/// Every update of a streak, practised or not, keeps the longest streak at
/// least as long as the current one (and at least one once the learner has
/// practised).
pub proof fn lemma_update_keeps_counts(before: StreakInfo, after: StreakInfo, practiced_today: bool, now: i64)
    requires
        before.counts_consistent(),
        before.updated_at(&after, practiced_today, now),
    ensures
        after.counts_consistent(),
{
}

/// Practice lengthens a streak by one on the next calendar day, leaves it
/// as it is on the same day, keeps it over one missed day that a freeze
/// covered, and otherwise starts it again at one; a first practice starts
/// it at one. The longest streak grows only with a streak that outgrows it.
pub proof fn lemma_practice_days(s: StreakInfo, now: i64)
    requires
        s.last_practice is Some,
    ensures
        ({
            let last = s.last_practice->Some_0;
            let gap = now as int / 86_400_000 - last as int / 86_400_000;
            &&& gap == 0 ==> s.current_after_practice(now) == s.current
            &&& gap == 1 ==> s.current_after_practice(now) == s.current + 1
            &&& gap == 2 && s.frozen_between(last, now) ==> s.current_after_practice(now) == s.current
            &&& (gap < 0 || gap > 2 || (gap == 2 && !s.frozen_between(last, now))) ==> s.current_after_practice(now)
                == 1
            &&& gap != 1 ==> s.longest_after_practice(now) == s.longest
            &&& gap == 1 ==> s.longest_after_practice(now) == if s.current + 1 > s.longest {
                s.current + 1
            } else {
                s.longest as int
            }
        }),
{
}

/// A first practice starts a streak at one.
pub proof fn lemma_first_practice(s: StreakInfo, now: i64)
    requires
        s.last_practice is None,
    ensures
        s.current_after_practice(now) == 1,
        s.longest_after_practice(now) == 1,
{
}

} // verus!
