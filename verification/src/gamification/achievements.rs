//! Achievements: what a learner can unlock, the events that unlock them, and
//! the rewards they carry. Accuracies are in basis points (10000 is 100%),
//! durations in milliseconds, progress in percent.

use vstd::prelude::*;
use crate::clock::{utc_now_millis, MAX_TIMESTAMP_MS};
use crate::gamification::leveling::lemma_settle_bounds;
use crate::gamification::profile::{lemma_progress_in_steps, GamificationProfile};
use crate::text::{decimal, owned, str_eq, u64_to_string};

verus! {

/// What an achievement rewards.
#[derive(Debug, Clone, Copy, PartialEq, Eq, Structural)]
pub enum AchievementCategory {
    Streak,
    Accuracy,
    Speed,
    Volume,
    Mastery,
    Explorer,
    Social,
    Special,
}

/// How rare an achievement is; rarer ones pay more.
#[derive(Debug, Clone, Copy, PartialEq, Eq, PartialOrd, Ord, Structural)]
pub enum Rarity {
    Common,
    Uncommon,
    Rare,
    Epic,
    Legendary,
}

pub open spec fn rarity_color(r: Rarity) -> Seq<char> {
    match r {
        Rarity::Common => "#808080"@,
        Rarity::Uncommon => "#48bb78"@,
        Rarity::Rare => "#4299e1"@,
        Rarity::Epic => "#9f7aea"@,
        Rarity::Legendary => "#f6ad55"@,
    }
}

/// The reward multiplier of a rarity, in percent.
pub open spec fn rarity_percent(r: Rarity) -> u32 {
    match r {
        Rarity::Common => 100,
        Rarity::Uncommon => 150,
        Rarity::Rare => 200,
        Rarity::Epic => 300,
        Rarity::Legendary => 500,
    }
}

impl Rarity {
    /// The display colour: grey, green, blue, purple, gold.
    pub fn color(&self) -> (r: &'static str)
        ensures
            r@ == rarity_color(*self),
    {
        match self {
            Rarity::Common => "#808080",
            Rarity::Uncommon => "#48bb78",
            Rarity::Rare => "#4299e1",
            Rarity::Epic => "#9f7aea",
            Rarity::Legendary => "#f6ad55",
        }
    }

    /// The reward multiplier in percent: ×1, ×1.5, ×2, ×3, ×5.
    pub fn multiplier_percent(&self) -> (r: u32)
        ensures
            r == rarity_percent(*self),
    {
        match self {
            Rarity::Common => 100,
            Rarity::Uncommon => 150,
            Rarity::Rare => 200,
            Rarity::Epic => 300,
            Rarity::Legendary => 500,
        }
    }
}

/// An achievement and the learner's progress towards it.
#[derive(Debug)]
pub struct Achievement {
    pub id: String,
    pub name: String,
    pub description: String,
    pub category: AchievementCategory,
    pub icon: String,
    pub points: u32,
    pub rarity: Rarity,
    pub unlocked: bool,
    /// When it was unlocked, in milliseconds since the epoch.
    pub unlocked_at: Option<i64>,
    /// Progress towards unlocking, in percent.
    pub progress_percent: u32,
    pub requirement: String,
}

impl Clone for Achievement {
    fn clone(&self) -> (r: Self)
        ensures
            r == *self,
    {
        Achievement {
            id: self.id.clone(),
            name: self.name.clone(),
            description: self.description.clone(),
            category: self.category,
            icon: self.icon.clone(),
            points: self.points,
            rarity: self.rarity,
            unlocked: self.unlocked,
            unlocked_at: self.unlocked_at,
            progress_percent: self.progress_percent,
            requirement: self.requirement.clone(),
        }
    }
}

/// The progress text of an achievement.
pub open spec fn progress_text(a: Achievement) -> Seq<char> {
    if a.unlocked {
        "✅ Unlocked"@
    } else {
        decimal(a.progress_percent as nat) + "%"@
    }
}

impl Achievement {
    /// "✅ Unlocked", or the progress in whole percent.
    pub fn display_progress(&self) -> (r: String)
        ensures
            r@ == progress_text(*self),
    {
        if self.unlocked {
            owned("✅ Unlocked")
        } else {
            let mut s = u64_to_string(self.progress_percent as u64);
            s.append("%");
            s
        }
    }

    /// The display colour of the achievement's rarity.
    pub fn rarity_color(&self) -> (r: &'static str)
        ensures
            r@ == rarity_color(self.rarity),
    {
        self.rarity.color()
    }
}

/// Something a learner did that may unlock achievements.
#[derive(Debug, Clone)]
pub enum AchievementEvent {
    DailyPractice,
    SessionComplete { accuracy_bp: u32, duration_ms: i64 },
    TaskComplete { correct: bool, response_time_ms: i64, total_tasks: u32 },
    DomainMastered { domain: String },
    LeaderboardRankChange { old_rank: u32, new_rank: u32 },
    SpecialCondition { condition: String },
}


/// Whether the event meets the condition of the achievement `id`, for a
/// learner whose streak is `streak` days.
pub open spec fn condition_met(id: Seq<char>, event: AchievementEvent, streak: u32) -> bool {
    if id == "streak_7"@ {
        event is DailyPractice && streak >= 7
    } else if id == "streak_30"@ {
        event is DailyPractice && streak >= 30
    } else if id == "accuracy_90"@ {
        event matches AchievementEvent::SessionComplete { accuracy_bp, .. } && accuracy_bp >= 9000
    } else if id == "perfect_session"@ {
        event matches AchievementEvent::SessionComplete { accuracy_bp, .. } && accuracy_bp >= 10000
    } else if id == "century"@ {
        event matches AchievementEvent::TaskComplete { total_tasks, .. } && total_tasks >= 100
    } else if id == "millennium"@ {
        event matches AchievementEvent::TaskComplete { total_tasks, .. } && total_tasks >= 1000
    } else if id == "speed_demon"@ {
        event matches AchievementEvent::TaskComplete { response_time_ms, .. } && response_time_ms < 1000
    } else if id == "alphabet_master"@ {
        event matches AchievementEvent::DomainMastered { domain } && domain@ == "alphabet"@
    } else if id == "leaderboard_top10"@ {
        event matches AchievementEvent::LeaderboardRankChange { new_rank, .. } && new_rank <= 10
    } else if id == "early_bird"@ {
        event matches AchievementEvent::SpecialCondition { condition } && condition@ == "early_morning"@
    } else if id == "night_owl"@ {
        event matches AchievementEvent::SpecialCondition { condition } && condition@ == "late_night"@
    } else {
        false
    }
}

/// `count` out of `target`, capped at the whole, in percent rounded to the
/// nearest whole number (halves up).
pub open spec fn percent_of(count: nat, target: nat) -> nat {
    let c = if count < target { count } else { target };
    (200 * c + target) / (2 * target)
}

/// The progress, in percent, that the event shows towards the achievement
/// `id`; `None` where the event says nothing about it.
pub open spec fn progress_update(id: Seq<char>, event: AchievementEvent, streak: u32) -> Option<nat> {
    if id == "streak_7"@ {
        if event is DailyPractice { Some(percent_of(streak as nat, 7)) } else { None }
    } else if id == "streak_30"@ {
        if event is DailyPractice { Some(percent_of(streak as nat, 30)) } else { None }
    } else if id == "century"@ {
        match event {
            AchievementEvent::TaskComplete { total_tasks, .. } => Some(percent_of(total_tasks as nat, 100)),
            _ => None,
        }
    } else if id == "millennium"@ {
        match event {
            AchievementEvent::TaskComplete { total_tasks, .. } => Some(percent_of(total_tasks as nat, 1000)),
            _ => None,
        }
    } else {
        None
    }
}

/// The points an achievement pays: its points times its rarity multiplier,
/// rounded down and capped at `u32::MAX`.
pub open spec fn reward(a: Achievement) -> nat {
    let x = a.points * rarity_percent(a.rarity) / 100;
    if x > u32::MAX { u32::MAX as nat } else { x as nat }
}

/// Whether the event unlocks `a`.
pub open spec fn unlocks(a: Achievement, event: AchievementEvent, streak: u32) -> bool {
    !a.unlocked && condition_met(a.id@, event, streak)
}

/// `a` as unlocked at `now`.
pub open spec fn mark_unlocked(a: Achievement, now: i64) -> Achievement {
    Achievement { unlocked: true, unlocked_at: Some(now), progress_percent: 100, ..a }
}

/// `a` after the event: unlocked when the event meets its condition, with
/// updated progress when it stays locked, unchanged once unlocked.
pub open spec fn after_event(a: Achievement, event: AchievementEvent, streak: u32, now: i64) -> Achievement {
    if unlocks(a, event, streak) {
        mark_unlocked(a, now)
    } else if !a.unlocked {
        match progress_update(a.id@, event, streak) {
            Some(p) => Achievement { progress_percent: p as u32, ..a },
            None => a,
        }
    } else {
        a
    }
}

/// The achievements of `s` that the event unlocks, in order.
pub open spec fn unlocking(s: Seq<Achievement>, event: AchievementEvent, streak: u32) -> Seq<Achievement>
    decreases s.len(),
{
    if s.len() == 0 {
        seq![]
    } else {
        let before = unlocking(s.drop_last(), event, streak);
        if unlocks(s.last(), event, streak) {
            before.push(s.last())
        } else {
            before
        }
    }
}

/// The sum of the rewards of `s`.
pub open spec fn total_reward(s: Seq<Achievement>) -> nat
    decreases s.len(),
{
    if s.len() == 0 {
        0
    } else {
        total_reward(s.drop_last()) + reward(s.last())
    }
}

/// The most that one event can pay out from the built-in achievements.
pub const MAX_EVENT_REWARD: u32 = 2774;

/// `a` has the fixed fields given.
pub open spec fn has_fields(
    a: Achievement,
    id: Seq<char>,
    name: Seq<char>,
    description: Seq<char>,
    category: AchievementCategory,
    icon: Seq<char>,
    points: u32,
    rarity: Rarity,
    requirement: Seq<char>,
) -> bool {
    &&& a.id@ == id
    &&& a.name@ == name
    &&& a.description@ == description
    &&& a.category == category
    &&& a.icon@ == icon
    &&& a.points == points
    &&& a.rarity == rarity
    &&& a.requirement@ == requirement
}

/// `a` is the built-in achievement at position `i`.
pub open spec fn is_builtin(a: Achievement, i: int) -> bool {
    if i == 0 {
        has_fields(a, "streak_7"@, "Week Warrior"@, "Practice for 7 days in a row"@, AchievementCategory::Streak, "🔥"@, 50, Rarity::Common, "7 day streak"@)
    } else if i == 1 {
        has_fields(a, "streak_30"@, "Monthly Master"@, "Practice for 30 days in a row"@, AchievementCategory::Streak, "🌟"@, 200, Rarity::Rare, "30 day streak"@)
    } else if i == 2 {
        has_fields(a, "accuracy_90"@, "Sharp Shooter"@, "Complete a session with 90% accuracy"@, AchievementCategory::Accuracy, "🎯"@, 75, Rarity::Uncommon, "90% accuracy in session"@)
    } else if i == 3 {
        has_fields(a, "perfect_session"@, "Perfectionist"@, "Complete a session with 100% accuracy"@, AchievementCategory::Accuracy, "💯"@, 150, Rarity::Epic, "100% accuracy in session"@)
    } else if i == 4 {
        has_fields(a, "speed_demon"@, "Speed Demon"@, "Answer 10 questions in under 1 second each"@, AchievementCategory::Speed, "⚡"@, 100, Rarity::Rare, "10 fast responses"@)
    } else if i == 5 {
        has_fields(a, "century"@, "Centurion"@, "Complete 100 tasks"@, AchievementCategory::Volume, "💪"@, 50, Rarity::Common, "100 tasks completed"@)
    } else if i == 6 {
        has_fields(a, "millennium"@, "Task Master"@, "Complete 1000 tasks"@, AchievementCategory::Volume, "🏅"@, 250, Rarity::Epic, "1000 tasks completed"@)
    } else if i == 7 {
        has_fields(a, "alphabet_master"@, "Alphabet Master"@, "Master the alphabet domain"@, AchievementCategory::Mastery, "🔤"@, 100, Rarity::Uncommon, "Complete alphabet with 95% accuracy"@)
    } else if i == 8 {
        has_fields(a, "curious_cat"@, "Curious Cat"@, "Try all learning domains"@, AchievementCategory::Explorer, "🐱"@, 75, Rarity::Uncommon, "Try all 4 domains"@)
    } else if i == 9 {
        has_fields(a, "leaderboard_top10"@, "Elite Player"@, "Reach top 10 on any leaderboard"@, AchievementCategory::Social, "🏆"@, 200, Rarity::Rare, "Top 10 leaderboard position"@)
    } else if i == 10 {
        has_fields(a, "early_bird"@, "Early Bird"@, "Practice before 6 AM"@, AchievementCategory::Special, "🌅"@, 50, Rarity::Common, "Practice before 6 AM"@)
    } else {
        has_fields(a, "night_owl"@, "Night Owl"@, "Practice after midnight"@, AchievementCategory::Special, "🦉"@, 50, Rarity::Common, "Practice after midnight"@)
    }
}

/// The number of built-in achievements.
pub const BUILTIN_COUNT: usize = 12;

/// The unlocked achievements of `s`, in order.
pub open spec fn unlocked_ones(s: Seq<Achievement>) -> Seq<Achievement>
    decreases s.len(),
{
    if s.len() == 0 {
        seq![]
    } else {
        let before = unlocked_ones(s.drop_last());
        if s.last().unlocked {
            before.push(s.last())
        } else {
            before
        }
    }
}

/// The catalogue of achievements and which of them are unlocked.
pub struct AchievementManager {
    achievements: Vec<Achievement>,
}

fn make_achievement(
    id: &str,
    name: &str,
    description: &str,
    category: AchievementCategory,
    icon: &str,
    points: u32,
    rarity: Rarity,
    requirement: &str,
) -> (a: Achievement)
    ensures
        has_fields(a, id@, name@, description@, category, icon@, points, rarity, requirement@),
        !a.unlocked,
        a.unlocked_at is None,
        a.progress_percent == 0,
{
    Achievement {
        id: owned(id),
        name: owned(name),
        description: owned(description),
        category,
        icon: owned(icon),
        points,
        rarity,
        unlocked: false,
        unlocked_at: None,
        progress_percent: 0,
        requirement: owned(requirement),
    }
}

/// An event pays out no more than all the built-in achievements together.
proof fn lemma_unlocking_reward(s: Seq<Achievement>, event: AchievementEvent, streak: u32)
    requires
        s.len() <= BUILTIN_COUNT,
        forall|i: int| 0 <= i < s.len() ==> is_builtin(#[trigger] s[i], i),
    ensures
        total_reward(unlocking(s, event, streak)) <= builtin_reward_prefix(s.len() as int),
    decreases s.len(),
{
    if s.len() > 0 {
        let t = s.drop_last();
        assert forall|i: int| 0 <= i < t.len() implies is_builtin(#[trigger] t[i], i) by {
            assert(t[i] == s[i]);
        }
        lemma_unlocking_reward(t, event, streak);
        let u = unlocking(t, event, streak);
        assert(is_builtin(s[s.len() - 1], s.len() - 1));
        if unlocks(s.last(), event, streak) {
            assert(u.push(s.last()).drop_last() =~= u);
        }
    }
}

/// The combined reward of the first `n` built-in achievements.
pub open spec fn builtin_reward_prefix(n: int) -> nat
    decreases n,
{
    if n <= 0 {
        0
    } else {
        builtin_reward_prefix(n - 1) + builtin_reward(n - 1)
    }
}

/// The reward of the built-in achievement at position `i`.
pub open spec fn builtin_reward(i: int) -> nat {
    if i == 0 { 50 }
    else if i == 1 { 400 }
    else if i == 2 { 112 }
    else if i == 3 { 450 }
    else if i == 4 { 200 }
    else if i == 5 { 50 }
    else if i == 6 { 750 }
    else if i == 7 { 150 }
    else if i == 8 { 112 }
    else if i == 9 { 400 }
    else { 50 }
}

/// Every achievement that the built-in catalogue unlocks pays something.
proof fn lemma_unlocking_pays(s: Seq<Achievement>, event: AchievementEvent, streak: u32)
    requires
        s.len() <= BUILTIN_COUNT,
        forall|i: int| 0 <= i < s.len() ==> is_builtin(#[trigger] s[i], i),
    ensures
        forall|k: int| 0 <= k < unlocking(s, event, streak).len() ==> reward(#[trigger] unlocking(s, event, streak)[k]) > 0,
    decreases s.len(),
{
    if s.len() > 0 {
        let t = s.drop_last();
        assert forall|i: int| 0 <= i < t.len() implies is_builtin(#[trigger] t[i], i) by {
            assert(t[i] == s[i]);
        }
        lemma_unlocking_pays(t, event, streak);
        assert(is_builtin(s[s.len() - 1], s.len() - 1));
        let u = unlocking(t, event, streak);
        if unlocks(s.last(), event, streak) {
            assert forall|k: int| 0 <= k < u.len() + 1 implies reward(#[trigger] u.push(s.last())[k]) > 0 by {
                if k < u.len() {
                    assert(u.push(s.last())[k] == u[k]);
                }
            }
        }
    }
}

/// Marking achievements unlocked keeps their rewards.
pub proof fn lemma_marked_reward(s: Seq<Achievement>, now: i64)
    ensures
        total_reward(s.map_values(|a: Achievement| mark_unlocked(a, now))) == total_reward(s),
    decreases s.len(),
{
    if s.len() > 0 {
        lemma_marked_reward(s.drop_last(), now);
        assert(s.map_values(|a: Achievement| mark_unlocked(a, now)).drop_last() =~= s.drop_last().map_values(
            |a: Achievement| mark_unlocked(a, now),
        ));
    }
}

impl AchievementManager {
    /// Every achievement that an event unlocks pays at least one point.
    pub proof fn lemma_unlocked_pay(&self, event: AchievementEvent, streak: u32)
        requires
            self.wf(),
        ensures
            forall|k: int|
                0 <= k < unlocking(self.items(), event, streak).len() ==> reward(
                    #[trigger] unlocking(self.items(), event, streak)[k],
                ) > 0,
    {
        lemma_unlocking_pays(self.achievements@, event, streak);
    }

    /// The achievements, in catalogue order.
    pub closed spec fn items(&self) -> Seq<Achievement> {
        self.achievements@
    }

    /// The catalogue is the built-in one, whatever has been unlocked.
    pub closed spec fn wf(&self) -> bool {
        &&& self.achievements@.len() == BUILTIN_COUNT
        &&& forall|i: int| 0 <= i < BUILTIN_COUNT ==> is_builtin(#[trigger] self.achievements@[i], i)
    }

    /// The built-in catalogue of twelve achievements, all locked.
    pub fn new() -> (r: Self)
        ensures
            r.wf(),
            r.items().len() == BUILTIN_COUNT,
            forall|i: int| 0 <= i < BUILTIN_COUNT ==> is_builtin(#[trigger] r.items()[i], i),
            forall|i: int|
                0 <= i < BUILTIN_COUNT ==> !(#[trigger] r.items()[i]).unlocked && r.items()[i].unlocked_at is None
                    && r.items()[i].progress_percent == 0,
    {
        let mut v: Vec<Achievement> = Vec::new();
        v.push(make_achievement("streak_7", "Week Warrior", "Practice for 7 days in a row", AchievementCategory::Streak, "🔥", 50, Rarity::Common, "7 day streak"));
        v.push(make_achievement("streak_30", "Monthly Master", "Practice for 30 days in a row", AchievementCategory::Streak, "🌟", 200, Rarity::Rare, "30 day streak"));
        v.push(make_achievement("accuracy_90", "Sharp Shooter", "Complete a session with 90% accuracy", AchievementCategory::Accuracy, "🎯", 75, Rarity::Uncommon, "90% accuracy in session"));
        v.push(make_achievement("perfect_session", "Perfectionist", "Complete a session with 100% accuracy", AchievementCategory::Accuracy, "💯", 150, Rarity::Epic, "100% accuracy in session"));
        v.push(make_achievement("speed_demon", "Speed Demon", "Answer 10 questions in under 1 second each", AchievementCategory::Speed, "⚡", 100, Rarity::Rare, "10 fast responses"));
        v.push(make_achievement("century", "Centurion", "Complete 100 tasks", AchievementCategory::Volume, "💪", 50, Rarity::Common, "100 tasks completed"));
        v.push(make_achievement("millennium", "Task Master", "Complete 1000 tasks", AchievementCategory::Volume, "🏅", 250, Rarity::Epic, "1000 tasks completed"));
        v.push(make_achievement("alphabet_master", "Alphabet Master", "Master the alphabet domain", AchievementCategory::Mastery, "🔤", 100, Rarity::Uncommon, "Complete alphabet with 95% accuracy"));
        v.push(make_achievement("curious_cat", "Curious Cat", "Try all learning domains", AchievementCategory::Explorer, "🐱", 75, Rarity::Uncommon, "Try all 4 domains"));
        v.push(make_achievement("leaderboard_top10", "Elite Player", "Reach top 10 on any leaderboard", AchievementCategory::Social, "🏆", 200, Rarity::Rare, "Top 10 leaderboard position"));
        v.push(make_achievement("early_bird", "Early Bird", "Practice before 6 AM", AchievementCategory::Special, "🌅", 50, Rarity::Common, "Practice before 6 AM"));
        v.push(make_achievement("night_owl", "Night Owl", "Practice after midnight", AchievementCategory::Special, "🦉", 50, Rarity::Common, "Practice after midnight"));
        AchievementManager { achievements: v }
    }

    /// An event pays out at most `MAX_EVENT_REWARD` points.
    pub proof fn lemma_event_reward(&self, event: AchievementEvent, streak: u32)
        requires
            self.wf(),
        ensures
            total_reward(unlocking(self.items(), event, streak)) <= MAX_EVENT_REWARD,
    {
        lemma_unlocking_reward(self.achievements@, event, streak);
        reveal_with_fuel(builtin_reward_prefix, 13);
    }

    /// Whether the event meets the achievement's condition for this learner.
    pub fn check_condition(
        &self,
        achievement: &Achievement,
        event: &AchievementEvent,
        profile: &GamificationProfile,
    ) -> (r: bool)
        ensures
            r == condition_met(achievement.id@, *event, profile.streak.current),
    {
        condition_holds(achievement.id.as_str(), event, profile.streak.current)
    }

    /// All achievements, in catalogue order.
    pub fn get_all_achievements(&self) -> (r: &Vec<Achievement>)
        ensures
            r@ == self.items(),
    {
        &self.achievements
    }

    /// The unlocked achievements, in catalogue order.
    pub fn get_unlocked_achievements(&self) -> (r: Vec<Achievement>)
        ensures
            r@ == unlocked_ones(self.items()),
    {
        let mut out: Vec<Achievement> = Vec::new();
        let mut i: usize = 0;
        while i < self.achievements.len()
            invariant
                i <= self.achievements@.len(),
                out@ == unlocked_ones(self.achievements@.take(i as int)),
            decreases self.achievements@.len() - i,
        {
            assert(self.achievements@.take(i + 1).drop_last() =~= self.achievements@.take(i as int));
            if self.achievements[i].unlocked {
                out.push(self.achievements[i].clone());
            }
            i = i + 1;
        }
        assert(self.achievements@.take(i as int) =~= self.achievements@);
        out
    }
}

/// Whether the event meets the condition of the achievement `id` for a
/// learner with a streak of `streak` days.
pub fn condition_holds(id: &str, event: &AchievementEvent, streak: u32) -> (r: bool)
    ensures
        r == condition_met(id@, *event, streak),
{
    if str_eq(id, "streak_7") {
        match event {
            AchievementEvent::DailyPractice => streak >= 7,
            _ => false,
        }
    } else if str_eq(id, "streak_30") {
        match event {
            AchievementEvent::DailyPractice => streak >= 30,
            _ => false,
        }
    } else if str_eq(id, "accuracy_90") {
        match event {
            AchievementEvent::SessionComplete { accuracy_bp, .. } => *accuracy_bp >= 9000,
            _ => false,
        }
    } else if str_eq(id, "perfect_session") {
        match event {
            AchievementEvent::SessionComplete { accuracy_bp, .. } => *accuracy_bp >= 10000,
            _ => false,
        }
    } else if str_eq(id, "century") {
        match event {
            AchievementEvent::TaskComplete { total_tasks, .. } => *total_tasks >= 100,
            _ => false,
        }
    } else if str_eq(id, "millennium") {
        match event {
            AchievementEvent::TaskComplete { total_tasks, .. } => *total_tasks >= 1000,
            _ => false,
        }
    } else if str_eq(id, "speed_demon") {
        match event {
            AchievementEvent::TaskComplete { response_time_ms, .. } => *response_time_ms < 1000,
            _ => false,
        }
    } else if str_eq(id, "alphabet_master") {
        match event {
            AchievementEvent::DomainMastered { domain } => str_eq(domain.as_str(), "alphabet"),
            _ => false,
        }
    } else if str_eq(id, "leaderboard_top10") {
        match event {
            AchievementEvent::LeaderboardRankChange { new_rank, .. } => *new_rank <= 10,
            _ => false,
        }
    } else if str_eq(id, "early_bird") {
        match event {
            AchievementEvent::SpecialCondition { condition } => str_eq(condition.as_str(), "early_morning"),
            _ => false,
        }
    } else if str_eq(id, "night_owl") {
        match event {
            AchievementEvent::SpecialCondition { condition } => str_eq(condition.as_str(), "late_night"),
            _ => false,
        }
    } else {
        false
    }
}

/// `count` of `target` in percent, capped at 100 and rounded half up.
pub fn percent_of_target(count: u32, target: u32) -> (r: u32)
    requires
        target > 0,
    ensures
        r == percent_of(count as nat, target as nat),
        r <= 100,
{
    let c: u64 = if count < target { count as u64 } else { target as u64 };
    let t: u64 = target as u64;
    let r: u64 = (200 * c + t) / (2 * t);
    assert(r <= 100) by (nonlinear_arith)
        requires
            c <= t,
            t > 0,
            r == (200 * c + t) / (2 * t),
    {
        assert(200 * c + t < 202 * t);
    }
    r as u32
}

/// Moves a locked achievement's progress to what the event shows.
pub fn update_progress(achievement: &mut Achievement, event: &AchievementEvent, streak: u32)
    ensures
        *final(achievement) == match progress_update(old(achievement).id@, *event, streak) {
            Some(p) => Achievement { progress_percent: p as u32, ..*old(achievement) },
            None => *old(achievement),
        },
{
    let id = achievement.id.as_str();
    if str_eq(id, "streak_7") {
        if let AchievementEvent::DailyPractice = event {
            achievement.progress_percent = percent_of_target(streak, 7);
        }
    } else if str_eq(id, "streak_30") {
        if let AchievementEvent::DailyPractice = event {
            achievement.progress_percent = percent_of_target(streak, 30);
        }
    } else if str_eq(id, "century") {
        if let AchievementEvent::TaskComplete { total_tasks, .. } = event {
            achievement.progress_percent = percent_of_target(*total_tasks, 100);
        }
    } else if str_eq(id, "millennium") {
        if let AchievementEvent::TaskComplete { total_tasks, .. } = event {
            achievement.progress_percent = percent_of_target(*total_tasks, 1000);
        }
    }
}


/// Unlocking is paid out in order: a prefix of the catalogue never pays more
/// than a longer one.
proof fn lemma_unlocking_prefix(s: Seq<Achievement>, event: AchievementEvent, streak: u32, i: int, j: int)
    requires
        0 <= i <= j <= s.len(),
    ensures
        total_reward(unlocking(s.take(i), event, streak)) <= total_reward(unlocking(s.take(j), event, streak)),
    decreases j - i,
{
    if i < j {
        lemma_unlocking_prefix(s, event, streak, i, j - 1);
        let u = unlocking(s.take(j - 1), event, streak);
        assert(s.take(j).drop_last() =~= s.take(j - 1));
        if unlocks(s.take(j).last(), event, streak) {
            assert(u.push(s.take(j).last()).drop_last() =~= u);
        }
    }
}

/// `new` and `unlocked` are the catalogue after the event at the clock
/// reading `now`, and the achievements it unlocked.
pub open spec fn event_applied(
    old: Seq<Achievement>,
    new: Seq<Achievement>,
    unlocked: Seq<Achievement>,
    event: AchievementEvent,
    streak: u32,
    now: i64,
) -> bool {
    &&& 0 <= now <= MAX_TIMESTAMP_MS
    &&& new == old.map_values(|a: Achievement| after_event(a, event, streak, now))
    &&& unlocked == unlocking(old, event, streak).map_values(|a: Achievement| mark_unlocked(a, now))
}

impl AchievementManager {
    /// Applies an event at `now`: every locked achievement whose condition
    /// it meets is unlocked, its reward added to the learner's points and
    /// experience, and a copy added to the learner's achievements; the other
    /// locked ones have their progress updated. Returns the newly unlocked
    /// achievements, in catalogue order.
    pub fn check_achievements_at(
        &mut self,
        profile: &mut GamificationProfile,
        event: &AchievementEvent,
        now: i64,
    ) -> (r: Vec<Achievement>)
        requires
            old(self).wf(),
            old(profile).can_gain(total_reward(unlocking(old(self).items(), *event, old(profile).streak.current))),
            old(profile).total_points + total_reward(unlocking(old(self).items(), *event, old(profile).streak.current))
                <= u32::MAX,
        ensures
            final(self).wf(),
            final(self).items() == old(self).items().map_values(
                |a: Achievement| after_event(a, *event, old(profile).streak.current, now),
            ),
            r@ == unlocking(old(self).items(), *event, old(profile).streak.current).map_values(
                |a: Achievement| mark_unlocked(a, now),
            ),
            old(profile).advanced(
                &*final(profile),
                total_reward(unlocking(old(self).items(), *event, old(profile).streak.current)),
            ),
            final(profile).total_points == old(profile).total_points + total_reward(
                unlocking(old(self).items(), *event, old(profile).streak.current),
            ),
            final(profile).achievements@ == old(profile).achievements@ + r@,
            old(profile).same_apart_from_rewards(&*final(profile)),
    {
        let ghost olds = self.achievements@;
        let ghost start = *profile;
        let ghost streak = profile.streak.current;
        let ghost total = total_reward(unlocking(olds, *event, streak));
        let mut out: Vec<Achievement> = Vec::new();
        let mut i: usize = 0;
        proof {
            assert(olds.take(0) =~= Seq::<Achievement>::empty());
            assert(out@ =~= unlocking(olds.take(0), *event, streak).map_values(|a: Achievement| mark_unlocked(a, now)));
            assert(start.achievements@ + out@ =~= start.achievements@);
        }
        while i < self.achievements.len()
            invariant
                olds == old(self).achievements@,
                start == *old(profile),
                streak == start.streak.current,
                total == total_reward(unlocking(olds, *event, streak)),
                start.can_gain(total),
                start.total_points + total <= u32::MAX,
                self.wf(),
                i <= olds.len(),
                olds.len() == BUILTIN_COUNT,
                self.achievements@.len() == olds.len(),
                forall|j: int| 0 <= j < i ==> self.achievements@[j] == after_event(#[trigger] olds[j], *event, streak, now),
                forall|j: int| i <= j < olds.len() ==> #[trigger] self.achievements@[j] == olds[j],
                out@ == unlocking(olds.take(i as int), *event, streak).map_values(|a: Achievement| mark_unlocked(a, now)),
                start.advanced(&*profile, total_reward(unlocking(olds.take(i as int), *event, streak))),
                profile.total_points == start.total_points + total_reward(unlocking(olds.take(i as int), *event, streak)),
                profile.achievements@ == start.achievements@ + out@,
                start.same_apart_from_rewards(&*profile),
            decreases olds.len() - i,
        {
            let ghost before = unlocking(olds.take(i as int), *event, streak);
            proof {
                assert(olds.take(i + 1).drop_last() =~= olds.take(i as int));
                assert(olds.take(i + 1).last() == olds[i as int]);
                lemma_unlocking_prefix(olds, *event, streak, i + 1, olds.len() as int);
                assert(olds.take(olds.len() as int) =~= olds);
            }
            let locked = !self.achievements[i].unlocked;
            if locked && self.check_condition(&self.achievements[i], event, profile) {
                let mut a = self.achievements[i].clone();
                a.unlocked = true;
                a.unlocked_at = Some(now);
                a.progress_percent = 100;
                let pct: u64 = a.rarity.multiplier_percent() as u64;
                assert(a.points as u64 * pct <= 0xffff_ffff * 500) by (nonlinear_arith)
                    requires
                        pct <= 500,
                        a.points <= 0xffff_ffff,
                ;
                let raw: u64 = a.points as u64 * pct / 100;
                let points: u32 = if raw > 0xffff_ffff {
                    u32::MAX
                } else {
                    raw as u32
                };
                assert(points == reward(olds[i as int]));
                assert(unlocking(olds.take(i + 1), *event, streak) == before.push(olds[i as int]));
                assert(before.push(olds[i as int]).drop_last() =~= before);
                self.achievements.set(i, a.clone());
                let ghost mid_before = *profile;
                proof {
                    lemma_settle_bounds(start.level as nat, (start.experience + total_reward(before)) as nat);
                }
                profile.total_points = profile.total_points + points;
                let ghost mid = *profile;
                profile.add_experience(points);
                proof {
                    assert(is_builtin(olds[i as int], i as int));
                    assert(points > 0);
                    if total_reward(before) > 0 {
                        lemma_progress_in_steps(start, mid, *profile, total_reward(before), points as nat);
                    }
                }
                profile.achievements.push(a.clone());
                out.push(a);
                proof {
                    assert(out@ =~= unlocking(olds.take(i + 1), *event, streak).map_values(|a: Achievement| mark_unlocked(a, now)));
                    assert(profile.achievements@ =~= start.achievements@ + out@);
                }
            } else {
                if locked {
                    let mut a = self.achievements[i].clone();
                    update_progress(&mut a, event, profile.streak.current);
                    self.achievements.set(i, a);
                }
                assert(unlocking(olds.take(i + 1), *event, streak) == before);
            }
            i = i + 1;
        }
        proof {
            assert(olds.take(i as int) =~= olds);
            assert(self.achievements@ =~= olds.map_values(|a: Achievement| after_event(a, *event, streak, now)));
        }
        out
    }

    /// Applies an event now; see `check_achievements_at`.
    pub fn check_achievements(&mut self, profile: &mut GamificationProfile, event: &AchievementEvent) -> (r: Vec<
        Achievement,
    >)
        requires
            old(self).wf(),
            old(profile).can_gain(total_reward(unlocking(old(self).items(), *event, old(profile).streak.current))),
            old(profile).total_points + total_reward(unlocking(old(self).items(), *event, old(profile).streak.current))
                <= u32::MAX,
        ensures
            final(self).wf(),
            exists|now: i64|
                #[trigger] event_applied(
                    old(self).items(),
                    final(self).items(),
                    r@,
                    *event,
                    old(profile).streak.current,
                    now,
                ),
            old(profile).advanced(
                &*final(profile),
                total_reward(unlocking(old(self).items(), *event, old(profile).streak.current)),
            ),
            final(profile).total_points == old(profile).total_points + total_reward(
                unlocking(old(self).items(), *event, old(profile).streak.current),
            ),
            final(profile).achievements@ == old(profile).achievements@ + r@,
            old(profile).same_apart_from_rewards(&*final(profile)),
    {
        let now = utc_now_millis();
        let r = self.check_achievements_at(profile, event, now);
        assert(event_applied(old(self).items(), self.items(), r@, *event, old(profile).streak.current, now));
        r
    }
}

/// Achievements unlock once: once an event has been applied, the same event
/// for the same streak unlocks nothing more.
pub proof fn lemma_unlocks_once(s: Seq<Achievement>, event: AchievementEvent, streak: u32, now: i64)
    ensures
        unlocking(s.map_values(|a: Achievement| after_event(a, event, streak, now)), event, streak).len() == 0,
    decreases s.len(),
{
    if s.len() > 0 {
        let t = s.map_values(|a: Achievement| after_event(a, event, streak, now));
        lemma_unlocks_once(s.drop_last(), event, streak, now);
        assert(t.drop_last() =~= s.drop_last().map_values(|a: Achievement| after_event(a, event, streak, now)));
        assert(!unlocks(t.last(), event, streak));
    }
}

/// What unlocks each built-in achievement, whatever else the event says:
/// a week and a month of streak on a day's practice; 90% and 100% accuracy
/// over a session; a hundred and a thousand tasks; an answer in under a
/// second; mastering the alphabet; reaching the top ten of a leaderboard
/// (from any earlier rank); practising early in the morning or late at
/// night.
pub proof fn lemma_unlock_conditions(event: AchievementEvent, streak: u32)
    ensures
        condition_met("streak_7"@, event, streak) <==> event is DailyPractice && streak >= 7,
        condition_met("streak_30"@, event, streak) <==> event is DailyPractice && streak >= 30,
        condition_met("accuracy_90"@, event, streak) <==> (event matches AchievementEvent::SessionComplete {
            accuracy_bp,
            ..
        } && accuracy_bp >= 9000),
        condition_met("perfect_session"@, event, streak) <==> (event matches AchievementEvent::SessionComplete {
            accuracy_bp,
            ..
        } && accuracy_bp >= 10000),
        condition_met("century"@, event, streak) <==> (event matches AchievementEvent::TaskComplete { total_tasks, .. }
            && total_tasks >= 100),
        condition_met("millennium"@, event, streak) <==> (event matches AchievementEvent::TaskComplete {
            total_tasks,
            ..
        } && total_tasks >= 1000),
        condition_met("speed_demon"@, event, streak) <==> (event matches AchievementEvent::TaskComplete {
            response_time_ms,
            ..
        } && response_time_ms < 1000),
        condition_met("alphabet_master"@, event, streak) <==> (event matches AchievementEvent::DomainMastered { domain }
            && domain@ == "alphabet"@),
        condition_met("leaderboard_top10"@, event, streak) <==> (event matches AchievementEvent::LeaderboardRankChange {
            new_rank,
            ..
        } && new_rank <= 10),
        condition_met("early_bird"@, event, streak) <==> (event matches AchievementEvent::SpecialCondition { condition }
            && condition@ == "early_morning"@),
        condition_met("night_owl"@, event, streak) <==> (event matches AchievementEvent::SpecialCondition { condition }
            && condition@ == "late_night"@),
{
    reveal_strlit("streak_7");
    reveal_strlit("streak_30");
    reveal_strlit("accuracy_90");
    reveal_strlit("perfect_session");
    reveal_strlit("century");
    reveal_strlit("millennium");
    reveal_strlit("speed_demon");
    reveal_strlit("alphabet_master");
    reveal_strlit("leaderboard_top10");
    reveal_strlit("early_bird");
    reveal_strlit("night_owl");
    assert("streak_30"@.len() != "streak_7"@.len());
    assert("accuracy_90"@.len() != "streak_7"@.len());
    assert("accuracy_90"@.len() != "streak_30"@.len());
    assert("perfect_session"@.len() != "streak_7"@.len());
    assert("perfect_session"@.len() != "streak_30"@.len());
    assert("perfect_session"@.len() != "accuracy_90"@.len());
    assert("century"@.len() != "streak_7"@.len());
    assert("century"@.len() != "streak_30"@.len());
    assert("century"@.len() != "accuracy_90"@.len());
    assert("century"@.len() != "perfect_session"@.len());
    assert("millennium"@.len() != "streak_7"@.len());
    assert("millennium"@.len() != "streak_30"@.len());
    assert("millennium"@.len() != "accuracy_90"@.len());
    assert("millennium"@.len() != "perfect_session"@.len());
    assert("millennium"@.len() != "century"@.len());
    assert("speed_demon"@.len() != "streak_7"@.len());
    assert("speed_demon"@.len() != "streak_30"@.len());
    assert("speed_demon"@[0] != "accuracy_90"@[0]);
    assert("speed_demon"@.len() != "perfect_session"@.len());
    assert("speed_demon"@.len() != "century"@.len());
    assert("speed_demon"@.len() != "millennium"@.len());
    assert("alphabet_master"@.len() != "streak_7"@.len());
    assert("alphabet_master"@.len() != "streak_30"@.len());
    assert("alphabet_master"@.len() != "accuracy_90"@.len());
    assert("alphabet_master"@[0] != "perfect_session"@[0]);
    assert("alphabet_master"@.len() != "century"@.len());
    assert("alphabet_master"@.len() != "millennium"@.len());
    assert("alphabet_master"@.len() != "speed_demon"@.len());
    assert("leaderboard_top10"@.len() != "streak_7"@.len());
    assert("leaderboard_top10"@.len() != "streak_30"@.len());
    assert("leaderboard_top10"@.len() != "accuracy_90"@.len());
    assert("leaderboard_top10"@.len() != "perfect_session"@.len());
    assert("leaderboard_top10"@.len() != "century"@.len());
    assert("leaderboard_top10"@.len() != "millennium"@.len());
    assert("leaderboard_top10"@.len() != "speed_demon"@.len());
    assert("leaderboard_top10"@.len() != "alphabet_master"@.len());
    assert("early_bird"@.len() != "streak_7"@.len());
    assert("early_bird"@.len() != "streak_30"@.len());
    assert("early_bird"@.len() != "accuracy_90"@.len());
    assert("early_bird"@.len() != "perfect_session"@.len());
    assert("early_bird"@.len() != "century"@.len());
    assert("early_bird"@[0] != "millennium"@[0]);
    assert("early_bird"@.len() != "speed_demon"@.len());
    assert("early_bird"@.len() != "alphabet_master"@.len());
    assert("early_bird"@.len() != "leaderboard_top10"@.len());
    assert("night_owl"@.len() != "streak_7"@.len());
    assert("night_owl"@[0] != "streak_30"@[0]);
    assert("night_owl"@.len() != "accuracy_90"@.len());
    assert("night_owl"@.len() != "perfect_session"@.len());
    assert("night_owl"@.len() != "century"@.len());
    assert("night_owl"@.len() != "millennium"@.len());
    assert("night_owl"@.len() != "speed_demon"@.len());
    assert("night_owl"@.len() != "alphabet_master"@.len());
    assert("night_owl"@.len() != "leaderboard_top10"@.len());
    assert("night_owl"@.len() != "early_bird"@.len());
}

/// Reaching the top ten is all that counts for the top-ten achievement: the
/// rank left does not matter, and a rank that unlocks it is at most ten,
/// every rank up to ten unlocks it, and rank eleven does not.
pub proof fn lemma_top_ten_by_new_rank(old_rank: u32, other_old_rank: u32, new_rank: u32, streak: u32)
    ensures
        condition_met("leaderboard_top10"@, AchievementEvent::LeaderboardRankChange { old_rank, new_rank }, streak)
            == condition_met(
            "leaderboard_top10"@,
            AchievementEvent::LeaderboardRankChange { old_rank: other_old_rank, new_rank },
            streak,
        ),
        condition_met("leaderboard_top10"@, AchievementEvent::LeaderboardRankChange { old_rank, new_rank }, streak)
            <==> new_rank <= 10,
        !condition_met("leaderboard_top10"@, AchievementEvent::LeaderboardRankChange { old_rank: 50, new_rank: 40 }, streak),
{
    lemma_unlock_conditions(AchievementEvent::LeaderboardRankChange { old_rank, new_rank }, streak);
    lemma_unlock_conditions(AchievementEvent::LeaderboardRankChange { old_rank: other_old_rank, new_rank }, streak);
    lemma_unlock_conditions(AchievementEvent::LeaderboardRankChange { old_rank: 50, new_rank: 40 }, streak);
}

} // verus!
