use abcdeez_app::gamification::achievements::{
    condition_holds, percent_of_target, AchievementEvent, AchievementManager, Rarity,
};
use abcdeez_app::gamification::leaderboard::{LeaderboardEntry, LeaderboardType, Trend};
use abcdeez_app::gamification::leveling::xp_for_next_level_of;
use abcdeez_app::gamification::powerups::{PowerUp, PowerUpEffect};
use abcdeez_app::gamification::profile::{GamificationProfile, Rank, SessionData};
use abcdeez_app::gamification::streaks::StreakInfo;
use abcdeez_app::gamification::GamificationManager;

const DAY: i64 = 86_400_000;
// One hour into a UTC day.
const T0: i64 = 19_000 * DAY + 3_600_000;

#[test]
fn xp_needed_grows_with_level() {
    assert_eq!(xp_for_next_level_of(1), 282);
    assert_eq!(xp_for_next_level_of(2), 519);
    assert_eq!(xp_for_next_level_of(3), 800);
    assert_eq!(xp_for_next_level_of(9), 3162);
    let p = GamificationProfile::new("learner-42");
    assert_eq!(p.xp_for_next_level(), 282);
    assert!(!p.should_level_up());
}

#[test]
fn new_profile_defaults() {
    let p = GamificationProfile::new("abcdefghijk");
    assert_eq!(p.user_id, "abcdefghijk");
    assert_eq!(p.display_name, "User abcdefgh");
    assert_eq!(p.level, 1);
    assert_eq!(p.experience, 0);
    assert_eq!(p.total_points, 0);
    assert_eq!(p.rank.title, "Novice");
    assert_eq!(p.rank.tier, 2);
    assert_eq!(p.streak.freeze_charges, 3);
    assert_eq!(p.statistics.fastest_response_ms, u32::MAX);
    assert_eq!(p.weekly_goals.tasks_goal, 100);
    assert_eq!(p.weekly_goals.accuracy_goal_bp, 8000);
    assert_eq!(p.weekly_goals.streak_goal, 7);
    assert_eq!(p.weekly_goals.bonus_multiplier_percent, 100);
    assert_eq!(p.weekly_goals.xp_goal, 1000);
    assert_eq!(p.all_achievements_count, 50);
    assert!(p.badges.is_empty());

    let short = GamificationProfile::new("abc");
    assert_eq!(short.display_name, "User abc");
}

#[test]
fn experience_buys_levels() {
    let mut p = GamificationProfile::new("learner-1");
    p.add_experience(281);
    assert_eq!((p.level, p.experience), (1, 281));
    p.add_experience(1);
    assert_eq!((p.level, p.experience), (2, 0));
    p.add_experience(519 + 800 + 5);
    assert_eq!((p.level, p.experience), (4, 5));
    assert!(p.badges.is_empty());
}

#[test]
fn milestone_level_awards_badge() {
    let mut p = GamificationProfile::new("learner-2");
    p.add_experience(14164);
    assert_eq!(p.level, 10);
    assert_eq!(p.experience, 0);
    assert_eq!(p.rank.title, "Apprentice");
    assert_eq!(p.rank.tier, 1);
    assert_eq!(p.badges.len(), 1);
    assert_eq!(p.badges[0].id, "level_10");
    assert_eq!(p.badges[0].name, "Level 10 Milestone");
    assert_eq!(p.badges[0].description, "Reached level 10");
    assert_eq!(p.badges[0].icon, "🎖️");
}

#[test]
fn rank_table() {
    let cases: [(u32, &str, u32, &str, &str); 11] = [
        (0, "Novice", 1, "🌱", "#48bb78"),
        (9, "Novice", 10, "🌱", "#48bb78"),
        (10, "Apprentice", 1, "📚", "#4299e1"),
        (24, "Apprentice", 5, "📚", "#4299e1"),
        (25, "Scholar", 6, "🎓", "#9f7aea"),
        (50, "Expert", 1, "⭐", "#ed8936"),
        (75, "Master", 6, "🏆", "#f6ad55"),
        (100, "Grandmaster", 1, "👑", "#e53e3e"),
        (150, "Sage", 1, "🧙", "#b794f4"),
        (200, "Legend", 1, "🌟", "#ffd700"),
        (u32::MAX, "Legend", 6, "🌟", "#ffd700"),
    ];
    for (level, title, tier, icon, color) in cases {
        let r = Rank::from_level(level);
        assert_eq!(r.title, title);
        assert_eq!(r.tier, tier);
        assert_eq!(r.icon, icon);
        assert_eq!(r.color, color);
    }
}

#[test]
fn statistics_fold_sessions() {
    let mut p = GamificationProfile::new("learner-3");
    p.update_statistics(SessionData { tasks_completed: 10, duration_minutes: 5, accuracy_bp: 9000, fastest_response_ms: 800 });
    assert_eq!(p.statistics.total_sessions, 1);
    assert_eq!(p.statistics.total_tasks, 10);
    assert_eq!(p.statistics.total_time_minutes, 5);
    assert_eq!(p.statistics.average_accuracy_bp, 9000);
    assert_eq!(p.statistics.best_accuracy_bp, 9000);
    assert_eq!(p.statistics.fastest_response_ms, 800);
    assert_eq!(p.weekly_goals.tasks_completed, 10);
    assert_eq!(p.weekly_goals.current_accuracy_bp, 9000);
    // Only the accuracy goal is met.
    assert_eq!(p.weekly_goals.bonus_multiplier_percent, 125);

    p.update_statistics(SessionData { tasks_completed: 95, duration_minutes: 7, accuracy_bp: 6000, fastest_response_ms: 900 });
    assert_eq!(p.statistics.total_sessions, 2);
    assert_eq!(p.statistics.average_accuracy_bp, 7500);
    assert_eq!(p.statistics.best_accuracy_bp, 9000);
    assert_eq!(p.statistics.fastest_response_ms, 800);
    // Only the task goal is met now.
    assert_eq!(p.weekly_goals.tasks_completed, 105);
    assert_eq!(p.weekly_goals.bonus_multiplier_percent, 125);
}

#[test]
fn weekly_bonus_by_goals_met() {
    let mut p = GamificationProfile::new("learner-4");
    p.check_weekly_goals();
    assert_eq!(p.weekly_goals.bonus_multiplier_percent, 100);
    p.weekly_goals.tasks_completed = 100;
    p.weekly_goals.current_accuracy_bp = 8000;
    p.check_weekly_goals();
    assert_eq!(p.weekly_goals.bonus_multiplier_percent, 150);
    p.weekly_goals.current_streak = 7;
    p.check_weekly_goals();
    assert_eq!(p.weekly_goals.bonus_multiplier_percent, 200);
}

#[test]
fn streak_counts_consecutive_days() {
    let mut s = StreakInfo::new();
    s.practice_today_at(T0);
    assert_eq!((s.current, s.longest), (1, 1));
    s.practice_today_at(T0 + DAY);
    assert_eq!((s.current, s.longest), (2, 2));
    s.practice_today_at(T0 + DAY + 3_600_000);
    assert_eq!((s.current, s.longest), (2, 2));
    s.practice_today_at(T0 + 2 * DAY);
    assert_eq!((s.current, s.longest), (3, 3));
    assert_eq!(s.last_practice, Some(T0 + 2 * DAY));
    // Two days missed without a freeze: a new streak starts.
    s.practice_today_at(T0 + 5 * DAY);
    assert_eq!((s.current, s.longest), (1, 3));
}

#[test]
fn freeze_keeps_streak_over_one_missed_day() {
    let mut s = StreakInfo::new();
    s.practice_today_at(T0);
    s.practice_today_at(T0 + DAY);
    assert_eq!(s.use_freeze_at(T0 + 2 * DAY), Ok(()));
    assert_eq!(s.freeze_charges, 2);
    assert!(s.was_frozen(T0 + DAY, T0 + 3 * DAY));
    assert!(!s.was_frozen(T0, T0 + 2 * DAY));
    s.practice_today_at(T0 + 3 * DAY);
    assert_eq!(s.current, 2);
    assert_eq!(s.longest, 2);
}

#[test]
fn freeze_errors() {
    let mut s = StreakInfo::new();
    assert_eq!(s.use_freeze_at(T0), Ok(()));
    assert_eq!(s.use_freeze_at(T0 + 1000), Err("Already used freeze today".to_string()));
    assert_eq!(s.freeze_charges, 2);
    assert_eq!(s.use_freeze_at(T0 + DAY), Ok(()));
    assert_eq!(s.use_freeze_at(T0 + 2 * DAY), Ok(()));
    assert_eq!(s.freeze_charges, 0);
    assert_eq!(s.use_freeze_at(T0 + 3 * DAY), Err("No freeze charges available".to_string()));
    assert_eq!(s.frozen_days.len(), 3);
}

#[test]
fn streak_breaks_after_missed_days() {
    let mut s = StreakInfo::new();
    s.practice_today_at(T0);
    s.practice_today_at(T0 + DAY);
    s.check_streak_break_at(T0 + 2 * DAY);
    assert_eq!(s.current, 2);
    s.check_streak_break_at(T0 + 3 * DAY);
    assert_eq!(s.current, 0);
    assert_eq!(s.longest, 2);

    let mut t = StreakInfo::new();
    t.update_at(true, T0);
    t.update_at(false, T0 + 4 * DAY);
    assert_eq!(t.current, 0);
}

#[test]
fn streak_risk_and_status() {
    let mut s = StreakInfo::new();
    assert_eq!(s.display_status_at(T0), "No streak");
    assert_eq!(s.days_until_break_at(T0), 0);
    s.practice_today_at(T0);
    s.practice_today_at(T0 + DAY);
    s.practice_today_at(T0 + 2 * DAY);
    assert_eq!(s.days_until_break_at(T0 + 2 * DAY), 1);
    assert!(!s.is_at_risk_at(T0 + 2 * DAY));
    assert_eq!(s.display_status_at(T0 + 2 * DAY), "🔥 3 days");
    assert_eq!(s.days_until_break_at(T0 + 3 * DAY), 0);
    assert!(s.is_at_risk_at(T0 + 3 * DAY));
    assert_eq!(s.display_status_at(T0 + 3 * DAY), "🔥 3 days - Practice today to continue!");
}

#[test]
fn streak_milestones() {
    let mut s = StreakInfo::new();
    for (days, expected) in [(7, Some(7)), (8, None), (14, Some(14)), (30, Some(30)), (60, Some(60)), (100, Some(100)), (365, Some(365)), (0, None)] {
        s.current = days;
        assert_eq!(s.get_milestone(), expected);
    }
}

#[test]
fn profile_streak_is_copied_to_weekly_goals() {
    let mut p = GamificationProfile::new("learner-5");
    p.update_streak_at(true, T0);
    p.update_streak_at(true, T0 + DAY);
    assert_eq!(p.streak.current, 2);
    assert_eq!(p.weekly_goals.current_streak, 2);
}

#[test]
fn power_up_catalogue() {
    let cases = [
        (PowerUpEffect::DoubleXP, "double_xp", "Double XP", "⚡", 1800, "#f6ad55"),
        (PowerUpEffect::HintBoost, "hint_boost", "Hint Boost", "💡", 900, "#4299e1"),
        (PowerUpEffect::TimeFreeze, "time_freeze", "Time Freeze", "⏰", 1200, "#9f7aea"),
        (PowerUpEffect::StreakShield, "streak_shield", "Streak Shield", "🛡️", 86400, "#48bb78"),
        (PowerUpEffect::FocusMode, "focus_mode", "Focus Mode", "🎯", 2400, "#ed8936"),
    ];
    for (effect, id, name, icon, secs, color) in cases {
        let p = PowerUp::new(effect);
        assert_eq!(p.id, id);
        assert_eq!(p.name, name);
        assert_eq!(p.icon, icon);
        assert_eq!(p.duration_seconds, secs);
        assert_eq!(p.quantity, 1);
        assert_eq!(p.active_until, None);
        assert_eq!(effect.color(), color);
    }
    assert_eq!(
        PowerUp::new(PowerUpEffect::DoubleXP).description,
        "Earn double experience points for the next 30 minutes"
    );
}

#[test]
fn power_up_activation_and_remaining_time() {
    let now: i64 = 1_000_000;
    let mut p = PowerUp::new(PowerUpEffect::DoubleXP);
    assert_eq!(p.display_time_remaining_at(now), "Inactive");
    p.activate_at(now);
    assert_eq!(p.quantity, 0);
    assert_eq!(p.active_until, Some(now + 1_800_000));
    assert!(p.is_active_at(now));
    assert_eq!(p.time_remaining_at(now), Some(1_800_000));
    assert_eq!(p.display_time_remaining_at(now), "30m 0s");
    assert_eq!(p.display_time_remaining_at(now + 1_800_000 - 59_500), "59s");
    assert_eq!(p.display_time_remaining_at(now + 1_000_000), "13m 20s");
    assert!(!p.is_active_at(now + 1_800_000));
    assert_eq!(p.time_remaining_at(now + 1_800_000), None);
    assert_eq!(p.display_time_remaining_at(now + 2_000_000), "Inactive");
    // Nothing left to activate.
    p.activate_at(now + 5_000_000);
    assert_eq!(p.active_until, Some(now + 1_800_000));
}

#[test]
fn profile_power_up_activation() {
    let now: i64 = 2_000_000;
    let mut p = GamificationProfile::new("learner-6");
    assert_eq!(p.activate_power_up_at("hint_boost", now), Err("PowerUp not found".to_string()));
    p.power_ups.push(PowerUp::new(PowerUpEffect::HintBoost));
    p.power_ups.push(PowerUp::new(PowerUpEffect::FocusMode));
    assert_eq!(p.position_of_power_up("focus_mode"), Some(1));
    assert_eq!(p.activate_power_up_at("hint_boost", now), Ok(()));
    assert_eq!(p.activate_power_up_at("hint_boost", now + 1), Err("PowerUp already active".to_string()));
    let active = p.get_active_power_ups_at(now + 1);
    assert_eq!(active.len(), 1);
    assert_eq!(active[0].id, "hint_boost");
    assert!(p.get_active_power_ups_at(now + 900_000).is_empty());
    // Expired and used up: accepted, but nothing becomes active.
    assert_eq!(p.activate_power_up_at("hint_boost", now + 900_000), Ok(()));
    assert!(p.get_active_power_ups_at(now + 900_001).is_empty());
}

#[test]
fn rarity_tables() {
    assert_eq!(Rarity::Common.color(), "#808080");
    assert_eq!(Rarity::Legendary.color(), "#f6ad55");
    assert_eq!(Rarity::Common.multiplier_percent(), 100);
    assert_eq!(Rarity::Uncommon.multiplier_percent(), 150);
    assert_eq!(Rarity::Rare.multiplier_percent(), 200);
    assert_eq!(Rarity::Epic.multiplier_percent(), 300);
    assert_eq!(Rarity::Legendary.multiplier_percent(), 500);
}

#[test]
fn achievement_catalogue() {
    let m = AchievementManager::new();
    let ids: Vec<&str> = m.get_all_achievements().iter().map(|a| a.id.as_str()).collect();
    assert_eq!(
        ids,
        vec![
            "streak_7", "streak_30", "accuracy_90", "perfect_session", "speed_demon", "century", "millennium",
            "alphabet_master", "curious_cat", "leaderboard_top10", "early_bird", "night_owl"
        ]
    );
    assert!(m.get_unlocked_achievements().is_empty());
    let first = &m.get_all_achievements()[0];
    assert_eq!(first.name, "Week Warrior");
    assert_eq!(first.points, 50);
    assert_eq!(first.display_progress(), "0%");
    assert_eq!(first.rarity_color(), "#808080");
}

#[test]
fn achievement_conditions() {
    assert!(condition_holds("streak_7", &AchievementEvent::DailyPractice, 7));
    assert!(!condition_holds("streak_7", &AchievementEvent::DailyPractice, 6));
    assert!(!condition_holds("streak_30", &AchievementEvent::DailyPractice, 29));
    let perfect = AchievementEvent::SessionComplete { accuracy_bp: 10000, duration_ms: 60_000 };
    let good = AchievementEvent::SessionComplete { accuracy_bp: 9000, duration_ms: 60_000 };
    assert!(condition_holds("perfect_session", &perfect, 0));
    assert!(!condition_holds("perfect_session", &good, 0));
    assert!(condition_holds("accuracy_90", &good, 0));
    let fast = AchievementEvent::TaskComplete { correct: true, response_time_ms: 999, total_tasks: 100 };
    assert!(condition_holds("speed_demon", &fast, 0));
    assert!(condition_holds("century", &fast, 0));
    assert!(!condition_holds("millennium", &fast, 0));
    assert!(condition_holds("alphabet_master", &AchievementEvent::DomainMastered { domain: "alphabet".to_string() }, 0));
    assert!(!condition_holds("alphabet_master", &AchievementEvent::DomainMastered { domain: "numbers".to_string() }, 0));
    assert!(condition_holds("leaderboard_top10", &AchievementEvent::LeaderboardRankChange { old_rank: 20, new_rank: 10 }, 0));
    assert!(condition_holds("early_bird", &AchievementEvent::SpecialCondition { condition: "early_morning".to_string() }, 0));
    assert!(condition_holds("night_owl", &AchievementEvent::SpecialCondition { condition: "late_night".to_string() }, 0));
    assert!(!condition_holds("curious_cat", &AchievementEvent::DailyPractice, 100));
}

#[test]
fn progress_percent_rounds_half_up() {
    assert_eq!(percent_of_target(50, 100), 50);
    assert_eq!(percent_of_target(3, 7), 43);
    assert_eq!(percent_of_target(1, 30), 3);
    assert_eq!(percent_of_target(7, 7), 100);
    assert_eq!(percent_of_target(70, 7), 100);
}

#[test]
fn perfect_session_unlocks_and_pays() {
    let mut m = AchievementManager::new();
    let mut p = GamificationProfile::new("learner-7");
    let event = AchievementEvent::SessionComplete { accuracy_bp: 10000, duration_ms: 300_000 };
    let unlocked = m.check_achievements_at(&mut p, &event, 5_000);
    let ids: Vec<&str> = unlocked.iter().map(|a| a.id.as_str()).collect();
    assert_eq!(ids, vec!["accuracy_90", "perfect_session"]);
    assert!(unlocked.iter().all(|a| a.unlocked && a.unlocked_at == Some(5_000) && a.progress_percent == 100));
    // 75 × 1.5 + 150 × 3
    assert_eq!(p.total_points, 562);
    assert_eq!((p.level, p.experience), (2, 280));
    assert_eq!(p.achievements.len(), 2);
    assert_eq!(m.get_unlocked_achievements().len(), 2);
    assert_eq!(unlocked[0].display_progress(), "✅ Unlocked");

    // Already unlocked: nothing more.
    let again = m.check_achievements_at(&mut p, &event, 6_000);
    assert!(again.is_empty());
    assert_eq!(p.total_points, 562);
}

#[test]
fn task_event_updates_progress() {
    let mut m = AchievementManager::new();
    let mut p = GamificationProfile::new("learner-8");
    let event = AchievementEvent::TaskComplete { correct: true, response_time_ms: 500, total_tasks: 50 };
    let unlocked = m.check_achievements_at(&mut p, &event, 1);
    assert_eq!(unlocked.len(), 1);
    assert_eq!(unlocked[0].id, "speed_demon");
    assert_eq!(p.total_points, 200);
    let all = m.get_all_achievements();
    let century = all.iter().find(|a| a.id == "century").unwrap();
    let millennium = all.iter().find(|a| a.id == "millennium").unwrap();
    assert_eq!(century.progress_percent, 50);
    assert_eq!(century.display_progress(), "50%");
    assert_eq!(millennium.progress_percent, 5);
}

#[test]
fn manager_pays_experience_twice_for_unlocks() {
    let mut g = GamificationManager::new();
    assert!(g.process_event("user-0001", AchievementEvent::DailyPractice).is_empty());
    assert_eq!(g.user_profiles.len(), 1);
    g.get_or_create_profile("user-0001").streak.current = 7;
    let unlocked = g.process_event("user-0001", AchievementEvent::DailyPractice);
    assert_eq!(unlocked.len(), 1);
    assert_eq!(unlocked[0].id, "streak_7");
    let p = &g.user_profiles[0];
    assert_eq!(p.total_points, 50);
    assert_eq!(p.experience, 100);
    assert_eq!(g.user_profiles.len(), 1);
}

#[test]
fn manager_forwards_to_profiles() {
    let mut g = GamificationManager::new();
    g.award_experience("user-a", 300);
    assert_eq!(g.user_profiles.len(), 1);
    assert_eq!((g.user_profiles[0].level, g.user_profiles[0].experience), (2, 18));
    assert_eq!(g.activate_power_up("user-a", "double_xp"), Err("PowerUp not found".to_string()));
    g.award_experience("user-b", 1);
    assert_eq!(g.user_profiles.len(), 2);
    assert_eq!(g.user_profiles[1].user_id, "user-b");
    assert_eq!(g.profile_position("user-b"), Some(1));
    assert_eq!(g.profile_position("user-c"), None);
}

#[test]
fn leaderboard_ranks_by_points_with_trends() {
    let mut g = GamificationManager::new();
    g.get_or_create_profile("alice").total_points = 300;
    g.get_or_create_profile("bob").total_points = 500;
    g.get_or_create_profile("carol").total_points = 100;
    g.update_leaderboards();
    let board = g.get_leaderboard(&LeaderboardType::Global, 10);
    let order: Vec<(&str, u32, u32)> = board.iter().map(|e| (e.user_id.as_str(), e.rank, e.score)).collect();
    assert_eq!(order, vec![("bob", 1, 500), ("alice", 2, 300), ("carol", 3, 100)]);
    assert!(board.iter().all(|e| e.trend == Trend::Stable));

    g.get_or_create_profile("carol").total_points = 1000;
    g.update_leaderboard(LeaderboardType::Global);
    let board = g.get_leaderboard(&LeaderboardType::Global, 10);
    let order: Vec<(&str, u32, Trend)> = board.iter().map(|e| (e.user_id.as_str(), e.rank, e.trend)).collect();
    assert_eq!(order, vec![("carol", 1, Trend::Up(2)), ("bob", 2, Trend::Down(1)), ("alice", 3, Trend::Down(1))]);

    // The weekly board was built before carol's points changed.
    let weekly = g.get_leaderboard(&LeaderboardType::Weekly, 2);
    assert_eq!(weekly.len(), 2);
    assert_eq!(weekly[0].user_id, "bob");
    assert!(g.get_leaderboard(&LeaderboardType::Friends, 5).is_empty());
}

#[test]
fn leaderboard_ties_keep_profile_order() {
    let mut g = GamificationManager::new();
    g.get_or_create_profile("first").total_points = 10;
    g.get_or_create_profile("second").total_points = 10;
    g.get_or_create_profile("third").total_points = 20;
    g.update_leaderboard(LeaderboardType::Monthly);
    let board = g.get_leaderboard(&LeaderboardType::Monthly, 3);
    let ids: Vec<&str> = board.iter().map(|e| e.user_id.as_str()).collect();
    assert_eq!(ids, vec!["third", "first", "second"]);
}

#[test]
fn leaderboard_entry_display() {
    let p = GamificationProfile::new("someone-long-id");
    let mut e = LeaderboardEntry::from_profile(&p);
    assert_eq!(e.rank, 0);
    assert_eq!(e.display_name, "User someone-");
    assert_eq!(e.trend, Trend::Stable);
    for (rank, text, top) in [(1, "🥇", true), (2, "🥈", true), (3, "🥉", true), (4, "#4", false), (12, "#12", false)] {
        e.rank = rank;
        assert_eq!(e.display_rank(), text);
        assert_eq!(e.is_top_three(), top);
    }
}

#[test]
fn trend_and_board_names() {
    assert_eq!(Trend::Up(2).display(), "↑ 2");
    assert_eq!(Trend::Down(13).display(), "↓ 13");
    assert_eq!(Trend::Stable.display(), "→");
    assert_eq!(Trend::Up(1).color(), "#48bb78");
    assert_eq!(Trend::Down(1).color(), "#f56565");
    assert_eq!(Trend::Stable.color(), "#a0aec0");
    assert_eq!(LeaderboardType::Global.display_name(), "Global Rankings");
    assert_eq!(LeaderboardType::Weekly.display_name(), "This Week");
    assert_eq!(LeaderboardType::Monthly.display_name(), "This Month");
    assert_eq!(LeaderboardType::Friends.display_name(), "Friends");
    assert_eq!(LeaderboardType::Domain("alphabet".to_string()).display_name(), "alphabet Masters");
    assert_eq!(LeaderboardType::Global.icon(), "🌍");
    assert_eq!(LeaderboardType::Domain("x".to_string()).icon(), "🎯");
    assert!(LeaderboardType::Domain("a".to_string()).same_board(&LeaderboardType::Domain("a".to_string())));
    assert!(!LeaderboardType::Domain("a".to_string()).same_board(&LeaderboardType::Domain("b".to_string())));
    assert!(!LeaderboardType::Global.same_board(&LeaderboardType::Weekly));
}

#[test]
fn live_clock_calls() {
    let mut s = StreakInfo::new();
    s.practice_today();
    assert_eq!((s.current, s.longest), (1, 1));
    s.update(true);
    assert_eq!(s.current, 1);
    assert_eq!(s.days_until_break(), 1);
    assert!(!s.is_at_risk());
    assert_eq!(s.display_status(), "🔥 1 days");
    assert_eq!(s.use_freeze(), Ok(()));
    assert_eq!(s.use_freeze(), Err("Already used freeze today".to_string()));
    let copy = s.duplicate();
    assert_eq!(copy.frozen_days, s.frozen_days);

    let mut p = PowerUp::new(PowerUpEffect::FocusMode);
    assert!(!p.is_active());
    assert_eq!(p.display_time_remaining(), "Inactive");
    p.activate();
    assert!(p.is_active());
    let left = p.time_remaining().unwrap();
    assert!(left > 0 && left <= 2_400_000);
    assert!(p.display_time_remaining().ends_with('s'));

    let mut g = GamificationProfile::new("learner-live");
    g.power_ups.push(PowerUp::new(PowerUpEffect::TimeFreeze));
    assert_eq!(g.activate_power_up("time_freeze"), Ok(()));
    assert_eq!(g.get_active_power_ups().len(), 1);
    g.update_streak(true);
    assert_eq!(g.weekly_goals.current_streak, 1);

    let mut m = GamificationManager::new();
    m.update_streak("learner-x", true);
    assert_eq!(m.user_profiles[0].streak.current, 1);
}

#[test]
fn rebuilt_board_without_changes_is_stable() {
    let mut g = GamificationManager::new();
    g.get_or_create_profile("ann").total_points = 30;
    g.get_or_create_profile("ben").total_points = 10;
    g.get_or_create_profile("cat").total_points = 20;
    g.update_leaderboard(LeaderboardType::Global);
    g.get_or_create_profile("ben").total_points = 40;
    g.update_leaderboard(LeaderboardType::Global);
    let moved: Vec<Trend> = g.get_leaderboard(&LeaderboardType::Global, 3).iter().map(|e| e.trend).collect();
    assert_eq!(moved, vec![Trend::Up(2), Trend::Down(1), Trend::Down(1)]);
    g.update_leaderboard(LeaderboardType::Global);
    let again = g.get_leaderboard(&LeaderboardType::Global, 3);
    let ids: Vec<&str> = again.iter().map(|e| e.user_id.as_str()).collect();
    assert_eq!(ids, vec!["ben", "ann", "cat"]);
    assert!(again.iter().all(|e| e.trend == Trend::Stable));
}

#[test]
fn same_event_unlocks_once() {
    let mut m = AchievementManager::new();
    let mut p = GamificationProfile::new("learner-once");
    p.streak.current = 30;
    let first = m.check_achievements_at(&mut p, &AchievementEvent::DailyPractice, 1);
    assert_eq!(first.len(), 2);
    let second = m.check_achievements_at(&mut p, &AchievementEvent::DailyPractice, 2);
    assert!(second.is_empty());
    assert_eq!(p.total_points, 450);
}
