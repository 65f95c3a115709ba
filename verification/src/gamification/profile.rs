//! A learner's gamification profile: level and rank, badges, statistics,
//! weekly goals, streak and power-ups. Accuracies are in basis points
//! (10000 is 100%), multipliers in percent, timestamps in milliseconds since
//! the Unix epoch.

use vstd::prelude::*;
use crate::clock::{utc_now_millis, MAX_TIMESTAMP_MS};
use crate::gamification::achievements::Achievement;
use crate::gamification::leveling::{
    lemma_milestones_join, lemma_settle_bounds, lemma_settle_step, lemma_xp_at_least_100, milestones, settle,
    xp_for_level, xp_for_next_level_of,
};
use crate::gamification::powerups::{
    activated_or_kept, activation_end, after_activation, is_running, representable, PowerUp,
};
use crate::gamification::streaks::{valid_stamp, StreakInfo};
use crate::text::{decimal, owned, str_eq, u64_to_string};
use vstd::string::StringSliceAdditionalSpecFns;

verus! {

/// The rank title of a level.
pub open spec fn rank_title(level: u32) -> Seq<char> {
    if level <= 9 {
        "Novice"@
    } else if level <= 24 {
        "Apprentice"@
    } else if level <= 49 {
        "Scholar"@
    } else if level <= 74 {
        "Expert"@
    } else if level <= 99 {
        "Master"@
    } else if level <= 149 {
        "Grandmaster"@
    } else if level <= 199 {
        "Sage"@
    } else {
        "Legend"@
    }
}

pub open spec fn rank_icon(level: u32) -> Seq<char> {
    if level <= 9 {
        "🌱"@
    } else if level <= 24 {
        "📚"@
    } else if level <= 49 {
        "🎓"@
    } else if level <= 74 {
        "⭐"@
    } else if level <= 99 {
        "🏆"@
    } else if level <= 149 {
        "👑"@
    } else if level <= 199 {
        "🧙"@
    } else {
        "🌟"@
    }
}

pub open spec fn rank_color(level: u32) -> Seq<char> {
    if level <= 9 {
        "#48bb78"@
    } else if level <= 24 {
        "#4299e1"@
    } else if level <= 49 {
        "#9f7aea"@
    } else if level <= 74 {
        "#ed8936"@
    } else if level <= 99 {
        "#f6ad55"@
    } else if level <= 149 {
        "#e53e3e"@
    } else if level <= 199 {
        "#b794f4"@
    } else {
        "#ffd700"@
    }
}

/// A rank: title, tier within the title, icon and colour.
#[derive(Debug)]
pub struct Rank {
    pub title: String,
    pub tier: u32,
    pub icon: String,
    pub color: String,
}

/// `r` is the rank of `level`; the tier counts levels within each ten.
pub open spec fn rank_matches(r: Rank, level: u32) -> bool {
    &&& r.title@ == rank_title(level)
    &&& r.tier == level % 10 + 1
    &&& r.icon@ == rank_icon(level)
    &&& r.color@ == rank_color(level)
}

impl Rank {
    /// The rank of a level.
    pub fn from_level(level: u32) -> (r: Self)
        ensures
            rank_matches(r, level),
    {
        let (title, icon, color): (&str, &str, &str) = if level <= 9 {
            ("Novice", "🌱", "#48bb78")
        } else if level <= 24 {
            ("Apprentice", "📚", "#4299e1")
        } else if level <= 49 {
            ("Scholar", "🎓", "#9f7aea")
        } else if level <= 74 {
            ("Expert", "⭐", "#ed8936")
        } else if level <= 99 {
            ("Master", "🏆", "#f6ad55")
        } else if level <= 149 {
            ("Grandmaster", "👑", "#e53e3e")
        } else if level <= 199 {
            ("Sage", "🧙", "#b794f4")
        } else {
            ("Legend", "🌟", "#ffd700")
        };
        Rank { title: owned(title), tier: (level % 10) + 1, icon: owned(icon), color: owned(color) }
    }
}

/// A badge that a learner has earned.
#[derive(Debug)]
pub struct Badge {
    pub id: String,
    pub name: String,
    pub icon: String,
    pub description: String,
    /// When it was earned, in milliseconds since the epoch.
    pub earned_at: i64,
}

/// `b` is the badge for reaching `level`.
pub open spec fn milestone_badge(b: Badge, level: nat) -> bool {
    &&& b.id@ == "level_"@ + decimal(level)
    &&& b.name@ == "Level "@ + decimal(level) + " Milestone"@
    &&& b.icon@ == "🎖️"@
    &&& b.description@ == "Reached level "@ + decimal(level)
    &&& valid_stamp(b.earned_at)
}

/// `new` is `old` followed by the badges of the milestone levels passed on
/// the way from level `from` to level `to`.
pub open spec fn badges_added(old: Seq<Badge>, new: Seq<Badge>, from: nat, to: nat) -> bool {
    let ms = milestones(from, to);
    &&& new.len() == old.len() + ms.len()
    &&& forall|i: int| 0 <= i < old.len() ==> new[i] == old[i]
    &&& forall|i: int| 0 <= i < ms.len() ==> milestone_badge(#[trigger] new[old.len() + i], ms[i])
}

/// Lifetime practice statistics.
#[derive(Debug)]
pub struct UserStatistics {
    pub total_sessions: u32,
    pub total_tasks: u32,
    pub total_time_minutes: u32,
    /// Running average of session accuracy, in basis points.
    pub average_accuracy_bp: u32,
    /// Best session accuracy, in basis points.
    pub best_accuracy_bp: u32,
    pub fastest_response_ms: u32,
    pub domains_mastered: Vec<String>,
}

/// Goals for the current week and the bonus they earn.
#[derive(Debug)]
pub struct WeeklyGoals {
    pub tasks_goal: u32,
    pub tasks_completed: u32,
    /// In basis points.
    pub accuracy_goal_bp: u32,
    /// In basis points.
    pub current_accuracy_bp: u32,
    pub streak_goal: u32,
    pub current_streak: u32,
    /// Reward multiplier in percent (100 is no bonus).
    pub bonus_multiplier_percent: u32,
    pub xp_goal: u32,
    pub xp_earned: u32,
}

/// How many of the three weekly goals (tasks, accuracy, streak) are met.
pub open spec fn goals_met(w: WeeklyGoals) -> nat {
    (if w.tasks_completed >= w.tasks_goal { 1nat } else { 0nat }) + (if w.current_accuracy_bp
        >= w.accuracy_goal_bp {
        1nat
    } else {
        0nat
    }) + (if w.current_streak >= w.streak_goal { 1nat } else { 0nat })
}

/// The bonus multiplier, in percent, for a number of goals met.
pub open spec fn bonus_for(met: nat) -> u32 {
    if met == 1 {
        125
    } else if met == 2 {
        150
    } else if met == 3 {
        200
    } else {
        100
    }
}

/// The figures of one finished learning session.
#[derive(Debug, Clone, Copy)]
pub struct SessionData {
    pub tasks_completed: u32,
    pub duration_minutes: u32,
    /// In basis points.
    pub accuracy_bp: u32,
    pub fastest_response_ms: u32,
}

/// The gamification profile of one learner.
#[derive(Debug)]
pub struct GamificationProfile {
    pub user_id: String,
    pub display_name: String,
    pub avatar_url: Option<String>,
    pub level: u32,
    pub experience: u32,
    pub total_points: u32,
    pub rank: Rank,
    pub achievements: Vec<Achievement>,
    pub badges: Vec<Badge>,
    pub streak: StreakInfo,
    pub statistics: UserStatistics,
    pub weekly_goals: WeeklyGoals,
    pub power_ups: Vec<PowerUp>,
    pub friends: Vec<String>,
    pub leaderboard_rank: u32,
    pub all_achievements_count: usize,
    pub pending_friend_requests: u32,
}

/// The number of leading bytes of a user id that its default display name
/// shows: eight, or all of a shorter id.
pub open spec fn shown_id_bytes(user_id: &str) -> int {
    if user_id.len() < 8 {
        user_id.len() as int
    } else {
        8
    }
}

/// `p` is the fresh profile of `user_id`: level 1, no experience or points,
/// default goals, a new streak, and "User " with the first eight bytes of
/// the id as display name.
pub open spec fn is_fresh(p: GamificationProfile, user_id: &str) -> bool {
    &&& p.user_id@ == user_id@
    &&& exists|shown: Seq<char>| vstd::utf8::encode_utf8(shown) == user_id.spec_bytes().subrange(0, shown_id_bytes(user_id)) && p.display_name@ == "User "@ + shown
    &&& p.avatar_url is None
    &&& p.level == 1
    &&& p.experience == 0
    &&& p.total_points == 0
    &&& rank_matches(p.rank, 1)
    &&& p.achievements@.len() == 0
    &&& p.badges@.len() == 0
    &&& p.streak.wf()
    &&& p.streak.current == 0 && p.streak.longest == 0 && p.streak.last_practice is None
    &&& p.streak.freeze_charges == 3 && p.streak.frozen_days@.len() == 0
    &&& p.statistics.total_sessions == 0
    &&& p.statistics.total_tasks == 0
    &&& p.statistics.total_time_minutes == 0
    &&& p.statistics.average_accuracy_bp == 0
    &&& p.statistics.best_accuracy_bp == 0
    &&& p.statistics.fastest_response_ms == u32::MAX
    &&& p.statistics.domains_mastered@.len() == 0
    &&& p.weekly_goals.tasks_goal == 100
    &&& p.weekly_goals.tasks_completed == 0
    &&& p.weekly_goals.accuracy_goal_bp == 8000
    &&& p.weekly_goals.current_accuracy_bp == 0
    &&& p.weekly_goals.streak_goal == 7
    &&& p.weekly_goals.current_streak == 0
    &&& p.weekly_goals.bonus_multiplier_percent == 100
    &&& p.weekly_goals.xp_goal == 1000
    &&& p.weekly_goals.xp_earned == 0
    &&& p.power_ups@.len() == 0
    &&& p.friends@.len() == 0
    &&& p.leaderboard_rank == 0
    &&& p.all_achievements_count == 50
    &&& p.pending_friend_requests == 0
}

/// The first power-up in `s` with the given id.
pub open spec fn find_power_up(s: Seq<PowerUp>, id: Seq<char>) -> Option<int>
    decreases s.len(),
{
    if s.len() == 0 {
        None
    } else {
        match find_power_up(s.drop_last(), id) {
            Some(i) => Some(i),
            None => if s.last().id@ == id { Some(s.len() - 1) } else { None },
        }
    }
}

proof fn lemma_first_match(s: Seq<PowerUp>, id: Seq<char>, i: int)
    requires
        0 <= i < s.len(),
        s[i].id@ == id,
        forall|j: int| 0 <= j < i ==> s[j].id@ != id,
    ensures
        find_power_up(s, id) == Some(i),
    decreases s.len(),
{
    lemma_find_power_up(s, id);
    if i < s.len() - 1 {
        lemma_first_match(s.drop_last(), id, i);
    } else {
        lemma_find_power_up(s.drop_last(), id);
        assert forall|j: int| 0 <= j < s.len() - 1 implies s.drop_last()[j] == s[j] by {}
    }
}

proof fn lemma_find_power_up(s: Seq<PowerUp>, id: Seq<char>)
    ensures
        find_power_up(s, id) matches Some(i) ==> 0 <= i < s.len() && s[i].id@ == id && forall|j: int|
            0 <= j < i ==> s[j].id@ != id,
        find_power_up(s, id) is None ==> forall|j: int| 0 <= j < s.len() ==> s[j].id@ != id,
    decreases s.len(),
{
    if s.len() > 0 {
        lemma_find_power_up(s.drop_last(), id);
        assert forall|j: int| 0 <= j < s.len() - 1 implies s.drop_last()[j] == s[j] by {}
    }
}

/// The power-ups of `s` that run at `now`, in order.
pub open spec fn running_ones(s: Seq<PowerUp>, now: i64) -> Seq<PowerUp>
    decreases s.len(),
{
    if s.len() == 0 {
        seq![]
    } else {
        let before = running_ones(s.drop_last(), now);
        if is_running(s.last(), now) {
            before.push(s.last())
        } else {
            before
        }
    }
}

/// The result of activating the power-up `id` of `p` at `now`, and the
/// power-ups afterwards.
pub open spec fn power_up_activation(ps: Seq<PowerUp>, id: Seq<char>, now: i64) -> (Result<(), Seq<char>>, Seq<PowerUp>) {
    match find_power_up(ps, id) {
        None => (Err("PowerUp not found"@), ps),
        Some(i) => if is_running(ps[i], now) {
            (Err("PowerUp already active"@), ps)
        } else {
            (Ok(()), ps.update(i, after_activation(ps[i], now)))
        },
    }
}

/// Gaining experience in two portions leaves a profile where gaining both at
/// once does: the same level, experience, rank and badges.
pub proof fn lemma_progress_in_steps(
    p: GamificationProfile,
    q: GamificationProfile,
    r: GamificationProfile,
    x: nat,
    y: nat,
)
    requires
        p.progressed(&q, x),
        q.progressed(&r, y),
    ensures
        p.progressed(&r, x + y),
{
    crate::gamification::leveling::lemma_settle_split(p.level as nat, (p.experience + x) as nat, y);
    lemma_settle_bounds(p.level as nat, (p.experience + x) as nat);
    lemma_settle_bounds(q.level as nat, (q.experience + y) as nat);
    assert((p.experience + x) as nat + y == (p.experience + (x + y)) as nat);
    lemma_milestones_join(p.level as nat, q.level as nat, r.level as nat);
    let ms0 = milestones(p.level as nat, q.level as nat);
    let ms1 = milestones(q.level as nat, r.level as nat);
    assert forall|i: int| 0 <= i < ms0.len() + ms1.len() implies milestone_badge(
        #[trigger] r.badges@[p.badges@.len() + i],
        milestones(p.level as nat, r.level as nat)[i],
    ) by {
        if i < ms0.len() {
            assert(r.badges@[p.badges@.len() + i] == q.badges@[p.badges@.len() + i]);
        } else {
            assert(r.badges@[q.badges@.len() + (i - ms0.len())] == r.badges@[p.badges@.len() + i]);
        }
    }
}

impl GamificationProfile {
    /// Everything but level, experience, rank and badges is equal.
    pub open spec fn same_apart_from_progress(&self, other: &GamificationProfile) -> bool {
        &&& self.user_id == other.user_id
        &&& self.display_name == other.display_name
        &&& self.avatar_url == other.avatar_url
        &&& self.total_points == other.total_points
        &&& self.achievements == other.achievements
        &&& self.streak == other.streak
        &&& self.statistics == other.statistics
        &&& self.weekly_goals == other.weekly_goals
        &&& self.power_ups == other.power_ups
        &&& self.friends == other.friends
        &&& self.leaderboard_rank == other.leaderboard_rank
        &&& self.all_achievements_count == other.all_achievements_count
        &&& self.pending_friend_requests == other.pending_friend_requests
    }

    /// Everything but progress, points and unlocked achievements is equal.
    pub open spec fn same_apart_from_rewards(&self, other: &GamificationProfile) -> bool {
        &&& self.user_id == other.user_id
        &&& self.display_name == other.display_name
        &&& self.avatar_url == other.avatar_url
        &&& self.streak == other.streak
        &&& self.statistics == other.statistics
        &&& self.weekly_goals == other.weekly_goals
        &&& self.power_ups == other.power_ups
        &&& self.friends == other.friends
        &&& self.leaderboard_rank == other.leaderboard_rank
        &&& self.all_achievements_count == other.all_achievements_count
        &&& self.pending_friend_requests == other.pending_friend_requests
    }

    /// Level, experience, rank and badges of `new` are those of `self` after
    /// gaining `xp` experience: levels are bought in turn, the rank follows a
    /// changed level, and each milestone level passed earns its badge.
    pub open spec fn progressed(&self, new: &GamificationProfile, xp: nat) -> bool {
        let target = settle(self.level as nat, (self.experience + xp) as nat);
        &&& new.level == target.0
        &&& new.experience == target.1
        &&& if new.level == self.level {
            new.rank == self.rank
        } else {
            rank_matches(new.rank, new.level)
        }
        &&& badges_added(self.badges@, new.badges@, self.level as nat, new.level as nat)
    }

    /// The session's counts fit in the statistics and weekly goals.
    pub open spec fn can_record(&self, d: SessionData) -> bool {
        &&& self.statistics.total_sessions < u32::MAX
        &&& self.statistics.total_tasks + d.tasks_completed <= u32::MAX
        &&& self.statistics.total_time_minutes + d.duration_minutes <= u32::MAX
        &&& self.weekly_goals.tasks_completed + d.tasks_completed <= u32::MAX
    }

    /// `new` is `self` with the session `d` folded into its statistics and
    /// weekly goals: counts added, the running average accuracy advanced
    /// (rounded down), best accuracy and fastest response kept, the weekly
    /// accuracy set to the average, and the weekly bonus recomputed.
    pub open spec fn session_recorded(&self, new: &GamificationProfile, d: SessionData) -> bool {
        let st = self.statistics;
        let n = st.total_sessions;
        &&& new.statistics.total_sessions == n + 1
        &&& new.statistics.total_tasks == st.total_tasks + d.tasks_completed
        &&& new.statistics.total_time_minutes == st.total_time_minutes + d.duration_minutes
        &&& new.statistics.average_accuracy_bp == (st.average_accuracy_bp * n + d.accuracy_bp) / (n + 1)
        &&& new.statistics.best_accuracy_bp == if d.accuracy_bp > st.best_accuracy_bp {
            d.accuracy_bp
        } else {
            st.best_accuracy_bp
        }
        &&& new.statistics.fastest_response_ms == if d.fastest_response_ms < st.fastest_response_ms {
            d.fastest_response_ms
        } else {
            st.fastest_response_ms
        }
        &&& new.statistics.domains_mastered == st.domains_mastered
        &&& new.weekly_goals == WeeklyGoals {
            tasks_completed: (self.weekly_goals.tasks_completed + d.tasks_completed) as u32,
            current_accuracy_bp: new.statistics.average_accuracy_bp,
            bonus_multiplier_percent: new.weekly_goals.bonus_multiplier_percent,
            ..self.weekly_goals
        }
        &&& new.weekly_goals.bonus_multiplier_percent == bonus_for(goals_met(new.weekly_goals))
        &&& self.same_progress(new)
        &&& self.user_id == new.user_id
        &&& self.display_name == new.display_name
        &&& self.avatar_url == new.avatar_url
        &&& self.total_points == new.total_points
        &&& self.achievements == new.achievements
        &&& self.streak == new.streak
        &&& self.power_ups == new.power_ups
        &&& self.friends == new.friends
        &&& self.leaderboard_rank == new.leaderboard_rank
        &&& self.all_achievements_count == new.all_achievements_count
        &&& self.pending_friend_requests == new.pending_friend_requests
    }

    /// Everything but the power-ups is equal.
    pub open spec fn same_apart_from_power_ups(&self, other: &GamificationProfile) -> bool {
        &&& self.same_progress(other)
        &&& self.user_id == other.user_id
        &&& self.display_name == other.display_name
        &&& self.avatar_url == other.avatar_url
        &&& self.total_points == other.total_points
        &&& self.achievements == other.achievements
        &&& self.streak == other.streak
        &&& self.statistics == other.statistics
        &&& self.weekly_goals == other.weekly_goals
        &&& self.friends == other.friends
        &&& self.leaderboard_rank == other.leaderboard_rank
        &&& self.all_achievements_count == other.all_achievements_count
        &&& self.pending_friend_requests == other.pending_friend_requests
    }

    /// `new` is `self` after asking, with the clock, to activate the
    /// power-up `id` with result `r`: refused when it is missing or runs at
    /// the first reading; otherwise activated at the second reading.
    pub open spec fn power_up_outcome(&self, new: &GamificationProfile, id: Seq<char>, r: Result<(), String>) -> bool {
        &&& match find_power_up(self.power_ups@, id) {
            None => r is Err && r->Err_0@ == "PowerUp not found"@ && new.power_ups == self.power_ups,
            Some(i) => {
                ||| r is Err && r->Err_0@ == "PowerUp already active"@ && new.power_ups == self.power_ups
                    && exists|now: i64| 0 <= now <= MAX_TIMESTAMP_MS && #[trigger] is_running(self.power_ups@[i], now)
                ||| r is Ok && new.power_ups@ == self.power_ups@.update(i, new.power_ups@[i]) && (exists|now: i64|
                    0 <= now <= MAX_TIMESTAMP_MS && !#[trigger] is_running(self.power_ups@[i], now)) && exists|now: i64|
                    #[trigger] activated_or_kept(self.power_ups@[i], new.power_ups@[i], now)
            },
        }
        &&& self.same_apart_from_power_ups(new)
    }

    /// `new` is `self` after a streak update read from the clock, copied
    /// into the weekly goals; nothing else changes.
    pub open spec fn streak_outcome(&self, new: &GamificationProfile, practiced_today: bool) -> bool {
        exists|now: i64| #[trigger] self.streak_outcome_at(new, practiced_today, now)
    }

    /// `new` is `self` after a streak update at `now`, copied into the
    /// weekly goals; nothing else changes.
    pub open spec fn streak_outcome_at(&self, new: &GamificationProfile, practiced_today: bool, now: i64) -> bool {
        &&& new.streak.wf()
        &&& self.streak.updated_at(&new.streak, practiced_today, now)
        &&& new.streak.freeze_charges == self.streak.freeze_charges
        &&& new.streak.frozen_days@ == self.streak.frozen_days@
        &&& new.weekly_goals == WeeklyGoals { current_streak: new.streak.current, ..self.weekly_goals }
        &&& self.same_progress(new)
        &&& self.user_id == new.user_id
        &&& self.display_name == new.display_name
        &&& self.avatar_url == new.avatar_url
        &&& self.total_points == new.total_points
        &&& self.achievements == new.achievements
        &&& self.statistics == new.statistics
        &&& self.power_ups == new.power_ups
        &&& self.friends == new.friends
        &&& self.leaderboard_rank == new.leaderboard_rank
        &&& self.all_achievements_count == new.all_achievements_count
        &&& self.pending_friend_requests == new.pending_friend_requests
    }

    /// Level, experience, rank and badges are equal.
    pub open spec fn same_progress(&self, other: &GamificationProfile) -> bool {
        &&& self.level == other.level
        &&& self.experience == other.experience
        &&& self.rank == other.rank
        &&& self.badges == other.badges
    }

    /// `new` has the progress of `self` after being paid `xp` experience in
    /// one or more portions: none at all when `xp` is zero.
    pub open spec fn advanced(&self, new: &GamificationProfile, xp: nat) -> bool {
        if xp == 0 {
            self.same_progress(new)
        } else {
            self.progressed(new, xp)
        }
    }

    /// `new` is `self` after gaining `xp` experience, and nothing else.
    pub open spec fn gained(&self, new: &GamificationProfile, xp: nat) -> bool {
        &&& self.progressed(new, xp)
        &&& self.same_apart_from_progress(new)
    }

    /// The experience that can be gained without overflowing experience or
    /// level.
    pub open spec fn can_gain(&self, xp: nat) -> bool {
        &&& self.experience + xp <= u32::MAX
        &&& self.level + (self.experience + xp) / 100 < u32::MAX
    }

    /// A fresh profile for a user: level 1, no experience, default goals.
    /// Its display name is "User " and the first eight bytes of the id.
    pub fn new(user_id: &str) -> (r: Self)
        requires
            vstd::utf8::is_char_boundary(user_id.spec_bytes(), shown_id_bytes(user_id)),
        ensures
            is_fresh(r, user_id),
    {
        let n: usize = if user_id.len() < 8 {
            user_id.len()
        } else {
            8
        };
        let (shown, _rest) = user_id.split_at(n);
        let mut display_name = owned("User ");
        display_name.append(shown);
        assert(vstd::utf8::encode_utf8(shown@) == user_id.spec_bytes().subrange(0, shown_id_bytes(user_id)));
        GamificationProfile {
            user_id: owned(user_id),
            display_name,
            avatar_url: None,
            level: 1,
            experience: 0,
            total_points: 0,
            rank: Rank::from_level(1),
            achievements: Vec::new(),
            badges: Vec::new(),
            streak: StreakInfo::new(),
            statistics: UserStatistics {
                total_sessions: 0,
                total_tasks: 0,
                total_time_minutes: 0,
                average_accuracy_bp: 0,
                best_accuracy_bp: 0,
                fastest_response_ms: u32::MAX,
                domains_mastered: Vec::new(),
            },
            weekly_goals: WeeklyGoals {
                tasks_goal: 100,
                tasks_completed: 0,
                accuracy_goal_bp: 8000,
                current_accuracy_bp: 0,
                streak_goal: 7,
                current_streak: 0,
                bonus_multiplier_percent: 100,
                xp_goal: 1000,
                xp_earned: 0,
            },
            power_ups: Vec::new(),
            friends: Vec::new(),
            leaderboard_rank: 0,
            all_achievements_count: 50,
            pending_friend_requests: 0,
        }
    }

    /// The experience needed for the next level.
    pub fn xp_for_next_level(&self) -> (r: u32)
        ensures
            r == xp_for_level(self.level as nat),
    {
        xp_for_next_level_of(self.level)
    }

    /// Whether the experience covers the next level.
    pub fn should_level_up(&self) -> (r: bool)
        ensures
            r == (self.experience >= xp_for_level(self.level as nat)),
    {
        self.experience >= self.xp_for_next_level()
    }

    /// Buys the next level; every tenth level earns a badge.
    fn level_up(&mut self)
        requires
            old(self).experience >= xp_for_level(old(self).level as nat),
            old(self).level < u32::MAX,
        ensures
            final(self).level == old(self).level + 1,
            final(self).experience == old(self).experience - xp_for_level(old(self).level as nat),
            rank_matches(final(self).rank, final(self).level),
            badges_added(old(self).badges@, final(self).badges@, old(self).level as nat, final(self).level as nat),
            old(self).same_apart_from_progress(&*final(self)),
    {
        let need = self.xp_for_next_level();
        self.level = self.level + 1;
        self.experience = self.experience - need;
        self.rank = Rank::from_level(self.level);
        if self.level % 10 == 0 {
            let level_text = u64_to_string(self.level as u64);
            let mut id = owned("level_");
            id.append(level_text.as_str());
            let mut name = owned("Level ");
            name.append(level_text.as_str());
            name.append(" Milestone");
            let mut description = owned("Reached level ");
            description.append(level_text.as_str());
            let badge = Badge {
                id,
                name,
                icon: owned("🎖️"),
                description,
                earned_at: utc_now_millis(),
            };
            self.badges.push(badge);
            assert(self.badges@[old(self).badges@.len() as int] == badge);
        }
        reveal_with_fuel(milestones, 2);
        assert(milestones(old(self).level as nat, self.level as nat) =~= if self.level % 10 == 0 {
            seq![self.level as nat]
        } else {
            seq![]
        });
    }

    /// Adds experience and buys every level that it covers.
    pub fn add_experience(&mut self, xp: u32)
        requires
            old(self).can_gain(xp as nat),
        ensures
            old(self).gained(&*final(self), xp as nat),
    {
        self.experience = self.experience + xp;
        let ghost start = *old(self);
        let ghost total: nat = (start.experience + xp) as nat;
        proof {
            lemma_settle_bounds(start.level as nat, total);
        }
        loop
            invariant
                total == start.experience + xp,
                settle(self.level as nat, self.experience as nat) == settle(start.level as nat, total),
                start.level <= self.level,
                self.level + self.experience / 100 <= start.level + total / 100,
                start.level + total / 100 < u32::MAX,
                self.level == start.level ==> self.rank == start.rank,
                self.level != start.level ==> rank_matches(self.rank, self.level),
                badges_added(start.badges@, self.badges@, start.level as nat, self.level as nat),
                start.same_apart_from_progress(&*self),
            ensures
                start.gained(&*self, xp as nat),
            decreases self.experience,
        {
            if !self.should_level_up() {
                assert(settle(self.level as nat, self.experience as nat) == (self.level as nat, self.experience as nat));
                break;
            }
            let ghost before = *self;
            proof {
                lemma_xp_at_least_100(self.level as nat);
                lemma_settle_step(self.level as nat, self.experience as nat);
                lemma_milestones_join(start.level as nat, before.level as nat, before.level as nat + 1);
            }
            self.level_up();
            assert(badges_added(start.badges@, self.badges@, start.level as nat, self.level as nat)) by {
                let ms0 = milestones(start.level as nat, before.level as nat);
                let ms1 = milestones(before.level as nat, self.level as nat);
                assert forall|i: int| 0 <= i < ms0.len() + ms1.len() implies milestone_badge(
                    #[trigger] self.badges@[start.badges@.len() + i],
                    milestones(start.level as nat, self.level as nat)[i],
                ) by {
                    if i < ms0.len() {
                        assert(self.badges@[start.badges@.len() + i] == before.badges@[start.badges@.len() + i]);
                    } else {
                        assert(self.badges@[before.badges@.len() + (i - ms0.len())] == self.badges@[start.badges@.len()
                            + i]);
                    }
                }
            }
        }
    }

    /// Updates the streak at `now` and copies it into the weekly goals.
    pub fn update_streak_at(&mut self, practiced_today: bool, now: i64)
        requires
            old(self).streak.wf(),
            valid_stamp(now),
            practiced_today ==> (old(self).streak.last_practice matches Some(last)
                && crate::gamification::streaks::days_between(last, now) == 1 ==> old(self).streak.current
                < u32::MAX),
        ensures
            old(self).streak_outcome_at(&*final(self), practiced_today, now),
    {
        self.streak.update_at(practiced_today, now);
        self.weekly_goals.current_streak = self.streak.current;
    }

    /// Updates the streak now and copies it into the weekly goals.
    pub fn update_streak(&mut self, practiced_today: bool)
        requires
            old(self).streak.wf(),
            practiced_today ==> old(self).streak.current < u32::MAX,
        ensures
            old(self).streak_outcome(&*final(self), practiced_today),
    {
        let now = utc_now_millis();
        self.update_streak_at(practiced_today, now);
        assert(old(self).streak_outcome_at(&*self, practiced_today, now));
    }

    /// Folds one finished session into the statistics and weekly goals, and
    /// recomputes the weekly bonus.
    pub fn update_statistics(&mut self, session_data: SessionData)
        requires
            old(self).can_record(session_data),
        ensures
            old(self).session_recorded(&*final(self), session_data),
    {
        self.statistics.total_sessions = self.statistics.total_sessions + 1;
        self.statistics.total_tasks = self.statistics.total_tasks + session_data.tasks_completed;
        self.statistics.total_time_minutes = self.statistics.total_time_minutes + session_data.duration_minutes;
        let avg: u64 = self.statistics.average_accuracy_bp as u64;
        let earlier: u64 = (self.statistics.total_sessions - 1) as u64;
        let n: u64 = self.statistics.total_sessions as u64;
        assert(avg * earlier <= 0xffff_fffe_0000_0001u64) by (nonlinear_arith)
            requires
                avg <= 0xffff_ffff,
                earlier <= 0xffff_ffff,
        ;
        let total: u64 = avg * earlier + session_data.accuracy_bp as u64;
        let new_avg: u64 = total / n;
        assert(new_avg <= 0xffff_ffff) by (nonlinear_arith)
            requires
                total == avg * earlier + session_data.accuracy_bp,
                n == earlier + 1,
                avg <= 0xffff_ffff,
                session_data.accuracy_bp <= 0xffff_ffff,
                new_avg == total / n,
        {
            assert(total <= 0xffff_ffff * n);
        }
        self.statistics.average_accuracy_bp = new_avg as u32;
        if session_data.accuracy_bp > self.statistics.best_accuracy_bp {
            self.statistics.best_accuracy_bp = session_data.accuracy_bp;
        }
        if session_data.fastest_response_ms < self.statistics.fastest_response_ms {
            self.statistics.fastest_response_ms = session_data.fastest_response_ms;
        }
        self.weekly_goals.tasks_completed = self.weekly_goals.tasks_completed + session_data.tasks_completed;
        self.weekly_goals.current_accuracy_bp = self.statistics.average_accuracy_bp;
        self.check_weekly_goals();
    }

    /// Sets the weekly bonus from the number of goals met: none ×1, one
    /// ×1.25, two ×1.5, all three ×2.
    pub fn check_weekly_goals(&mut self)
        ensures
            final(self).weekly_goals.bonus_multiplier_percent == bonus_for(goals_met(old(self).weekly_goals)),
            final(self).weekly_goals.tasks_goal == old(self).weekly_goals.tasks_goal,
            final(self).weekly_goals.tasks_completed == old(self).weekly_goals.tasks_completed,
            final(self).weekly_goals.accuracy_goal_bp == old(self).weekly_goals.accuracy_goal_bp,
            final(self).weekly_goals.current_accuracy_bp == old(self).weekly_goals.current_accuracy_bp,
            final(self).weekly_goals.streak_goal == old(self).weekly_goals.streak_goal,
            final(self).weekly_goals.current_streak == old(self).weekly_goals.current_streak,
            final(self).weekly_goals.xp_goal == old(self).weekly_goals.xp_goal,
            final(self).weekly_goals.xp_earned == old(self).weekly_goals.xp_earned,
            final(self).statistics == old(self).statistics,
            old(self).same_progress(&*final(self)),
            final(self).user_id == old(self).user_id,
            final(self).display_name == old(self).display_name,
            final(self).avatar_url == old(self).avatar_url,
            final(self).total_points == old(self).total_points,
            final(self).achievements == old(self).achievements,
            final(self).streak == old(self).streak,
            final(self).power_ups == old(self).power_ups,
            final(self).friends == old(self).friends,
            final(self).leaderboard_rank == old(self).leaderboard_rank,
            final(self).all_achievements_count == old(self).all_achievements_count,
            final(self).pending_friend_requests == old(self).pending_friend_requests,
    {
        let mut met: u32 = 0;
        if self.weekly_goals.tasks_completed >= self.weekly_goals.tasks_goal {
            met = met + 1;
        }
        if self.weekly_goals.current_accuracy_bp >= self.weekly_goals.accuracy_goal_bp {
            met = met + 1;
        }
        if self.weekly_goals.current_streak >= self.weekly_goals.streak_goal {
            met = met + 1;
        }
        self.weekly_goals.bonus_multiplier_percent = if met == 1 {
            125
        } else if met == 2 {
            150
        } else if met == 3 {
            200
        } else {
            100
        };
    }

    /// The position of the first power-up with the given id.
    pub fn position_of_power_up(&self, power_up_id: &str) -> (r: Option<usize>)
        ensures
            r matches Some(i) ==> find_power_up(self.power_ups@, power_up_id@) == Some(i as int),
            r is None ==> find_power_up(self.power_ups@, power_up_id@) is None,
    {
        let mut i: usize = 0;
        while i < self.power_ups.len()
            invariant
                i <= self.power_ups@.len(),
                forall|j: int| 0 <= j < i ==> self.power_ups@[j].id@ != power_up_id@,
            decreases self.power_ups@.len() - i,
        {
            if str_eq(self.power_ups[i].id.as_str(), power_up_id) {
                proof {
                    lemma_find_power_up(self.power_ups@, power_up_id@);
                    lemma_first_match(self.power_ups@, power_up_id@, i as int);
                }
                return Some(i);
            }
            i = i + 1;
        }
        proof {
            lemma_find_power_up(self.power_ups@, power_up_id@);
            if find_power_up(self.power_ups@, power_up_id@) is Some {
                let k = find_power_up(self.power_ups@, power_up_id@)->Some_0;
                assert(self.power_ups@[k].id@ == power_up_id@);
            }
        }
        None
    }

    /// Activates the power-up `power_up_id` at `now`, unless it is missing
    /// or already running.
    pub fn activate_power_up_at(&mut self, power_up_id: &str, now: i64) -> (r: Result<(), String>)
        requires
            0 <= now <= MAX_TIMESTAMP_MS,
            find_power_up(old(self).power_ups@, power_up_id@) matches Some(i) ==> (old(self).power_ups@[i].quantity
                > 0 && !is_running(old(self).power_ups@[i], now) ==> representable(
                activation_end(now, old(self).power_ups@[i].duration_seconds),
            )),
        ensures
            ({
                let outcome = power_up_activation(old(self).power_ups@, power_up_id@, now);
                &&& final(self).power_ups@ == outcome.1
                &&& match outcome.0 {
                    Ok(_) => r is Ok,
                    Err(msg) => r is Err && r->Err_0@ == msg,
                }
            }),
            final(self).level == old(self).level,
            final(self).experience == old(self).experience,
            final(self).total_points == old(self).total_points,
            final(self).streak == old(self).streak,
            final(self).badges == old(self).badges,
            final(self).achievements == old(self).achievements,
    {
        proof {
            lemma_find_power_up(self.power_ups@, power_up_id@);
        }
        match self.position_of_power_up(power_up_id) {
            None => Err(owned("PowerUp not found")),
            Some(i) => {
                if self.power_ups[i].is_active_at(now) {
                    return Err(owned("PowerUp already active"));
                }
                let mut p = self.power_ups[i].clone();
                p.activate_at(now);
                self.power_ups.set(i, p);
                Ok(())
            },
        }
    }

    /// Activates the power-up `power_up_id` now, unless it is missing or
    /// already running. The clock is read once to test whether it runs and
    /// once more to start it, as `PowerUp::activate` does.
    pub fn activate_power_up(&mut self, power_up_id: &str) -> (r: Result<(), String>)
        ensures
            old(self).power_up_outcome(&*final(self), power_up_id@, r),
    {
        proof {
            lemma_find_power_up(self.power_ups@, power_up_id@);
        }
        match self.position_of_power_up(power_up_id) {
            None => Err(owned("PowerUp not found")),
            Some(i) => {
                if self.power_ups[i].is_active() {
                    return Err(owned("PowerUp already active"));
                }
                let mut p = self.power_ups[i].clone();
                p.activate();
                self.power_ups.set(i, p);
                assert(find_power_up(old(self).power_ups@, power_up_id@) == Some(i as int));
                assert(self.power_ups@ == old(self).power_ups@.update(i as int, self.power_ups@[i as int]));
                assert(exists|now: i64| #[trigger] activated_or_kept(old(self).power_ups@[i as int], self.power_ups@[i as int], now));
                assert(old(self).same_apart_from_power_ups(&*self));
                Ok(())
            },
        }
    }

    /// The power-ups that run at `now`, in order.
    pub fn get_active_power_ups_at(&self, now: i64) -> (r: Vec<PowerUp>)
        ensures
            r@ == running_ones(self.power_ups@, now),
    {
        let mut out: Vec<PowerUp> = Vec::new();
        let mut i: usize = 0;
        while i < self.power_ups.len()
            invariant
                i <= self.power_ups@.len(),
                out@ == running_ones(self.power_ups@.take(i as int), now),
            decreases self.power_ups@.len() - i,
        {
            assert(self.power_ups@.take(i + 1).drop_last() =~= self.power_ups@.take(i as int));
            if self.power_ups[i].is_active_at(now) {
                out.push(self.power_ups[i].clone());
            }
            i = i + 1;
        }
        assert(self.power_ups@.take(i as int) =~= self.power_ups@);
        out
    }

    /// The power-ups that run now, in order.
    pub fn get_active_power_ups(&self) -> (r: Vec<PowerUp>)
        ensures
            exists|now: i64| 0 <= now <= MAX_TIMESTAMP_MS && r@ == #[trigger] running_ones(self.power_ups@, now),
    {
        let now = utc_now_millis();
        self.get_active_power_ups_at(now)
    }
}

/// The rank titles come in bands of levels: novice up to 9, apprentice
/// from 10, scholar from 25, expert from 50, master from 75, grandmaster
/// from 100, sage from 150 and legend from 200.
pub proof fn lemma_rank_bands(level: u32)
    ensures
        rank_title(level) == "Novice"@ <==> level < 10,
        rank_title(level) == "Apprentice"@ <==> 10 <= level < 25,
        rank_title(level) == "Scholar"@ <==> 25 <= level < 50,
        rank_title(level) == "Expert"@ <==> 50 <= level < 75,
        rank_title(level) == "Master"@ <==> 75 <= level < 100,
        rank_title(level) == "Grandmaster"@ <==> 100 <= level < 150,
        rank_title(level) == "Sage"@ <==> 150 <= level < 200,
        rank_title(level) == "Legend"@ <==> 200 <= level,
{
    reveal_strlit("Novice");
    reveal_strlit("Apprentice");
    reveal_strlit("Scholar");
    reveal_strlit("Expert");
    reveal_strlit("Master");
    reveal_strlit("Grandmaster");
    reveal_strlit("Sage");
    reveal_strlit("Legend");
    assert("Apprentice"@.len() != "Novice"@.len());
    assert("Scholar"@.len() != "Novice"@.len());
    assert("Scholar"@.len() != "Apprentice"@.len());
    assert("Expert"@[0] != "Novice"@[0]);
    assert("Expert"@.len() != "Apprentice"@.len());
    assert("Expert"@.len() != "Scholar"@.len());
    assert("Master"@[0] != "Novice"@[0]);
    assert("Master"@.len() != "Apprentice"@.len());
    assert("Master"@.len() != "Scholar"@.len());
    assert("Master"@[0] != "Expert"@[0]);
    assert("Grandmaster"@.len() != "Novice"@.len());
    assert("Grandmaster"@.len() != "Apprentice"@.len());
    assert("Grandmaster"@.len() != "Scholar"@.len());
    assert("Grandmaster"@.len() != "Expert"@.len());
    assert("Grandmaster"@.len() != "Master"@.len());
    assert("Sage"@.len() != "Novice"@.len());
    assert("Sage"@.len() != "Apprentice"@.len());
    assert("Sage"@.len() != "Scholar"@.len());
    assert("Sage"@.len() != "Expert"@.len());
    assert("Sage"@.len() != "Master"@.len());
    assert("Sage"@.len() != "Grandmaster"@.len());
    assert("Legend"@[0] != "Novice"@[0]);
    assert("Legend"@.len() != "Apprentice"@.len());
    assert("Legend"@.len() != "Scholar"@.len());
    assert("Legend"@[0] != "Expert"@[0]);
    assert("Legend"@[0] != "Master"@[0]);
    assert("Legend"@.len() != "Grandmaster"@.len());
    assert("Legend"@.len() != "Sage"@.len());
}

} // verus!