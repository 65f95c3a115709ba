use abcdeez_app::state::StruggleState;
use abcdeez_app::utils::easter_egg::{behavior_choice_count, behavior_odds};
use abcdeez_app::utils::easter_egg::{
    crab_clock_at, get_discovery_message, seasonal_outfit, AnimationPhase, CrabClock, CrabMood, CrabPersonality,
    CrabStep, CrabTrigger, EasterEggManager, LittleCrab, TreasureDraw, TreasureRarity, FULL_ENERGY,
};

// 25 December 2023, 10:00 UTC.
const CHRISTMAS: i64 = 1_703_498_400_000;
// 4 July 2023, 13:30 UTC.
const JULY: i64 = 1_688_477_400_000;
// 29 February 2024, 23:00 UTC.
const LEAP: i64 = 1_709_247_600_000;

fn clock(month: u32, day: u32, hour: u32) -> CrabClock {
    CrabClock { now_ms: CHRISTMAS, month, day, hour }
}

#[test]
fn clock_fields_come_from_the_calendar() {
    assert_eq!(crab_clock_at(CHRISTMAS), CrabClock { now_ms: CHRISTMAS, month: 12, day: 25, hour: 10 });
    assert_eq!(crab_clock_at(JULY), CrabClock { now_ms: JULY, month: 7, day: 4, hour: 13 });
    assert_eq!(crab_clock_at(LEAP), CrabClock { now_ms: LEAP, month: 2, day: 29, hour: 23 });
    assert_eq!(crab_clock_at(0), CrabClock { now_ms: 0, month: 1, day: 1, hour: 0 });
}

#[test]
fn personalities_by_roll() {
    let expected = [
        CrabPersonality::Shy,
        CrabPersonality::Playful,
        CrabPersonality::Helpful,
        CrabPersonality::Mischievous,
        CrabPersonality::Wise,
    ];
    for (roll, p) in expected.iter().enumerate() {
        let c = LittleCrab::from_roll(roll as u32);
        assert_eq!(c.personality, *p);
        assert!(!c.active);
        assert_eq!(c.phase, AnimationPhase::Hidden);
        assert_eq!(c.energy_milli, FULL_ENERGY);
    }
    assert_eq!(LittleCrab::default().personality, CrabPersonality::Playful);
    assert_eq!(LittleCrab::default().mood, CrabMood::Neutral);
}

#[test]
fn seasonal_outfits() {
    assert_eq!(seasonal_outfit(12, 20), Some("🎅 Santa Hat"));
    assert_eq!(seasonal_outfit(12, 27), None);
    assert_eq!(seasonal_outfit(10, 31), Some("🎃 Pumpkin Costume"));
    assert_eq!(seasonal_outfit(7, 7), Some("🎆 Fireworks Hat"));
    assert_eq!(seasonal_outfit(2, 14), Some("💝 Heart Antenna"));
    assert_eq!(seasonal_outfit(3, 17), Some("☘️ Lucky Clover"));
    assert_eq!(seasonal_outfit(4, 1), Some("🤡 Jester Hat"));
    assert_eq!(seasonal_outfit(5, 7), Some("🌸 Spring Flowers"));
    assert_eq!(seasonal_outfit(5, 8), None);
    assert_eq!(seasonal_outfit(6, 21), Some("☀️ Sunglasses"));
    assert_eq!(seasonal_outfit(9, 22), Some("🍂 Autumn Leaves"));
    assert_eq!(seasonal_outfit(11, 30), Some("🦃 Pilgrim Hat"));
    assert_eq!(seasonal_outfit(11, 23), None);
}

#[test]
fn discovery_messages() {
    let c = clock(12, 25, 10);
    assert_eq!(get_discovery_message(CrabTrigger::TripleClick, 1, c), "🦀 *peek* You found me! I'm Little Crab!");
    assert_eq!(get_discovery_message(CrabTrigger::TripleClick, 2, c), "🦀 Back again? You must really like crabs!");
    assert_eq!(get_discovery_message(CrabTrigger::TripleClick, 7, c), "🦀 We're old friends now! (Found 7 times!)");
    assert_eq!(get_discovery_message(CrabTrigger::TimeOfDay, 1, c), "🦀 Good morning! Ready to learn?");
    assert_eq!(get_discovery_message(CrabTrigger::TimeOfDay, 1, clock(1, 1, 15)), "🦀 Afternoon learning session!");
    assert_eq!(get_discovery_message(CrabTrigger::TimeOfDay, 1, clock(1, 1, 20)), "🦀 Evening practice time!");
    assert_eq!(get_discovery_message(CrabTrigger::TimeOfDay, 1, clock(1, 1, 3)), "🦀 Late night learning? Impressive!");
    assert_eq!(get_discovery_message(CrabTrigger::SpecialDate, 1, c), "🦀 Merry Christmas! 🎄");
    assert_eq!(get_discovery_message(CrabTrigger::SpecialDate, 1, clock(3, 14, 0)), "🦀 Happy Pi Day! 3.14159...");
    assert_eq!(
        get_discovery_message(CrabTrigger::SpecialDate, 1, clock(8, 8, 0)),
        "🦀 Today is special because you're learning!"
    );
    assert_eq!(get_discovery_message(CrabTrigger::KonamiCode, 1, c), "🦀 ↑↑↓↓←→←→BA! Classic gamer move!");
}

#[test]
fn activation_brings_the_crab_out() {
    let mut crab = LittleCrab::with_personality(CrabPersonality::Shy);
    crab.energy_milli = 10_000;
    crab.activate_at(CrabTrigger::TripleClick, clock(12, 25, 10));
    assert!(crab.active);
    assert_eq!(crab.phase, AnimationPhase::Peeking);
    assert_eq!(crab.mood, CrabMood::Happy);
    assert_eq!(crab.energy_milli, FULL_ENERGY);
    assert_eq!(crab.discovery_count, 1);
    assert_eq!(crab.friendship_level, 1);
    assert_eq!(crab.trigger_stats, vec![(CrabTrigger::TripleClick, 1)]);
    assert_eq!(crab.messages, vec!["🦀 *peek* You found me! I'm Little Crab!".to_string()]);
    assert_eq!(crab.seasonal_outfit.as_deref(), Some("🎅 Santa Hat"));
    assert_eq!(crab.last_interaction, Some(CHRISTMAS));

    // Already out: only friendship and energy grow.
    crab.energy_milli = 90_000;
    crab.activate_at(CrabTrigger::KonamiCode, clock(1, 2, 3));
    assert_eq!(crab.friendship_level, 2);
    assert_eq!(crab.energy_milli, FULL_ENERGY);
    assert_eq!(crab.discovery_count, 1);
    assert_eq!(crab.messages.len(), 1);
    assert_eq!(crab.phase, AnimationPhase::Peeking);

    crab.deactivate();
    assert!(!crab.active);
    assert_eq!(crab.phase, AnimationPhase::Hidden);
    assert!(crab.messages.is_empty());

    crab.activate_at(CrabTrigger::TripleClick, clock(8, 8, 8));
    assert_eq!(crab.discovery_count, 2);
    assert_eq!(crab.messages, vec!["🦀 Back again? You must really like crabs!".to_string()]);
    assert_eq!(crab.seasonal_outfit, None);
    crab.deactivate();
    crab.activate_at(CrabTrigger::IdleTime, clock(8, 8, 8));
    assert_eq!(crab.trigger_stats, vec![(CrabTrigger::TripleClick, 2), (CrabTrigger::IdleTime, 1)]);
    assert_eq!(crab.phase, AnimationPhase::Curious);
}

#[test]
fn activation_phases_and_moods() {
    let cases = [
        (CrabPersonality::Playful, CrabTrigger::TripleClick, AnimationPhase::Excited, CrabMood::Happy),
        (CrabPersonality::Sleepy, CrabTrigger::IdleTime, AnimationPhase::Sleeping, CrabMood::Sleepy),
        (CrabPersonality::Wise, CrabTrigger::PerfectStreak, AnimationPhase::Cheering, CrabMood::Proud),
        (CrabPersonality::Wise, CrabTrigger::SecretWord, AnimationPhase::Dancing, CrabMood::Playful),
        (CrabPersonality::Wise, CrabTrigger::KonamiCode, AnimationPhase::Celebrating, CrabMood::Playful),
        (CrabPersonality::Wise, CrabTrigger::BirthdayMode, AnimationPhase::Celebrating, CrabMood::Celebratory),
        (CrabPersonality::Wise, CrabTrigger::AchievementUnlock, AnimationPhase::Cheering, CrabMood::Proud),
        (CrabPersonality::Wise, CrabTrigger::LongPress, AnimationPhase::Peeking, CrabMood::Happy),
    ];
    for (p, t, phase, mood) in cases {
        let mut crab = LittleCrab::with_personality(p);
        crab.activate_at(t, clock(8, 8, 8));
        assert_eq!(crab.phase, phase);
        assert_eq!(crab.mood, mood);
    }
}

#[test]
fn celebrations_and_treasures() {
    let mut crab = LittleCrab::with_personality(CrabPersonality::Wise);
    crab.energy_milli = 50_000;
    crab.celebrate_success_at(20, 5000, None, 1);
    assert_eq!(crab.mood, CrabMood::Celebratory);
    assert_eq!(crab.phase, AnimationPhase::Celebrating);
    assert_eq!(crab.energy_milli, 80_000);
    assert_eq!(crab.friendship_level, 2);
    assert_eq!(crab.messages, vec!["🎉🦀 LEGENDARY STREAK! You're unstoppable! 🦀🎉".to_string()]);

    let mut crab = LittleCrab::with_personality(CrabPersonality::Wise);
    crab.friendship_level = 49;
    let draw = TreasureDraw { legendary: true, epic: true, rare: true, uncommon: true, pick: 0 };
    crab.celebrate_success_at(1, 10000, Some(draw), 77);
    // Friendship reached 51 before the treasure was found.
    assert_eq!(crab.collected_treasures.len(), 1);
    assert_eq!(crab.collected_treasures[0].name, "Crab Crown");
    assert_eq!(crab.collected_treasures[0].emoji, "👑🦀");
    assert_eq!(crab.collected_treasures[0].rarity, TreasureRarity::Legendary);
    assert_eq!(crab.collected_treasures[0].found_at, 77);
    assert_eq!(crab.phase, AnimationPhase::Digging);
    assert_eq!(
        crab.messages,
        vec!["💯🦀 PERFECT! You're a learning machine! 🦀💯".to_string(), "🦀 Found a 👑🦀 Crab Crown! 🦀".to_string()]
    );

    let mut crab = LittleCrab::with_personality(CrabPersonality::Curious);
    crab.find_treasure_at(TreasureDraw { legendary: true, epic: true, rare: true, uncommon: false, pick: 2 }, 5);
    assert_eq!(crab.collected_treasures[0].rarity, TreasureRarity::Common);
    assert_eq!(crab.collected_treasures[0].name, "Seaweed");
    crab.friendship_level = 20;
    crab.find_treasure_at(TreasureDraw { legendary: true, epic: true, rare: true, uncommon: false, pick: 1 }, 6);
    assert_eq!(crab.collected_treasures[1].rarity, TreasureRarity::Rare);
    assert_eq!(crab.collected_treasures[1].name, "Crystal");
    assert_eq!(crab.messages.last().unwrap(), "🦀 Found a 💎 Crystal! 🦀");
}

#[test]
fn encouragement_lines() {
    let mut crab = LittleCrab::with_personality(CrabPersonality::Energetic);
    crab.offer_encouragement(2);
    assert_eq!(crab.mood, CrabMood::Encouraging);
    assert_eq!(crab.phase, AnimationPhase::Helping);
    assert_eq!(crab.friendship_level, 1);
    assert_eq!(crab.messages[0], "💪🦀 You've GOT this! One more try! 💪🦀");
    crab.offer_encouragement(6);
    assert_eq!(crab.messages[1], "🦀 Learning takes time. Every attempt makes you stronger! 🦀");

    let mut hidden = LittleCrab::with_personality(CrabPersonality::Wise);
    hidden.encourage();
    assert!(hidden.messages.is_empty());
    hidden.activate_at(CrabTrigger::LongPress, clock(1, 2, 3));
    hidden.encourage();
    assert_eq!(hidden.phase, AnimationPhase::Helping);
    assert_eq!(hidden.messages.last().unwrap(), "🦀 'Every expert was once a beginner.'");
}

#[test]
fn emoji_with_outfit() {
    let mut crab = LittleCrab::with_personality(CrabPersonality::Shy);
    assert_eq!(crab.get_emoji(), "");
    crab.seasonal_outfit = Some("🎅 Santa Hat".to_string());
    assert_eq!(crab.get_emoji(), "");
    crab.phase = AnimationPhase::Peeking;
    assert_eq!(crab.get_emoji(), "👀 🎅 Santa Hat");
    crab.seasonal_outfit = None;
    crab.phase = AnimationPhase::Celebrating;
    assert_eq!(crab.get_emoji(), "🎊🦀🎊");
}

#[test]
fn domains_are_noticed_once() {
    let mut crab = LittleCrab::with_personality(CrabPersonality::Wise);
    crab.react_to_domain("alphabet");
    assert_eq!(crab.favorite_domain.as_deref(), Some("alphabet"));
    assert_eq!(crab.phase, AnimationPhase::Curious);
    assert_eq!(crab.messages, vec!["🦀 A-B-C... I love the alphabet! 26 friends to learn! 🦀".to_string()]);
    crab.phase = AnimationPhase::Reading;
    crab.react_to_domain("alphabet");
    assert_eq!(crab.messages.len(), 1);
    assert_eq!(crab.phase, AnimationPhase::Reading);
    crab.react_to_domain("geography");
    assert_eq!(crab.messages[1], "🦀 Ooh, something new to explore! 🦀");
}

#[test]
fn stats_card() {
    let mut crab = LittleCrab::with_personality(CrabPersonality::Mischievous);
    crab.energy_milli = 42_500;
    crab.friendship_level = 3;
    crab.discovery_count = 2;
    assert_eq!(
        crab.get_stats_summary(),
        "🦀 Little Crab Stats:\nPersonality: Mischievous\nMood: Neutral\nEnergy: 43%\nFriendship: Level 3\nTreasures: 0\nTimes Found: 2"
    );
}

#[test]
fn poking_the_crab() {
    let mut crab = LittleCrab::with_personality(CrabPersonality::Wise);
    crab.energy_milli = 95_000;
    assert_eq!(crab.interact_at(12), "🦀 'The journey of learning begins with curiosity.'");
    assert_eq!(crab.phase, AnimationPhase::Waving);
    assert_eq!(crab.energy_milli, FULL_ENERGY);
    assert_eq!(crab.last_interaction, Some(12));
}

#[test]
fn crabs_do_their_own_thing() {
    let mut crab = LittleCrab::with_personality(CrabPersonality::Playful);
    assert!(!crab.perform_random_behavior_with(false, 0));
    assert!(crab.messages.is_empty());
    assert!(!crab.perform_random_behavior_with(true, 1));
    assert_eq!(crab.phase, AnimationPhase::Dancing);
    assert_eq!(crab.messages[0], "🦀 *spins in circles* 🦀");

    let mut m = LittleCrab::with_personality(CrabPersonality::Mischievous);
    assert!(m.perform_random_behavior_with(true, 2));
    assert_eq!(m.messages[0], "🦀 Catch me if you can! 🦀");
    assert_eq!(m.phase, AnimationPhase::Hidden);

    let mut s = LittleCrab::with_personality(CrabPersonality::Sleepy);
    assert!(!s.perform_random_behavior_with(true, 0));
    assert!(s.messages.is_empty());
    s.energy_milli = 49_999;
    s.perform_random_behavior_with(true, 2);
    assert_eq!(s.phase, AnimationPhase::Sleeping);
    assert_eq!(s.messages[0], "💤🦀 *dreams of kelp* 💤🦀");

    let mut shy = LittleCrab::with_personality(CrabPersonality::Shy);
    shy.perform_random_behavior_with(true, 0);
    assert_eq!(shy.phase, AnimationPhase::Peeking);
    shy.perform_random_behavior_with(true, 0);
    assert_eq!(shy.phase, AnimationPhase::Hidden);
    assert_eq!(shy.messages, vec!["👀 *peeks out nervously* 👀".to_string(), "🦀 *hides* 🦀".to_string()]);

    let mut h = LittleCrab::with_personality(CrabPersonality::Helpful);
    h.perform_random_behavior_with(true, 6);
    assert_eq!(h.phase, AnimationPhase::Helping);
    assert_eq!(h.messages[0], "🦀 Tip: Use multiple senses when learning! 🦀");
}

#[test]
fn performance_triggers() {
    let mut crab = LittleCrab::with_personality(CrabPersonality::Helpful);
    crab.check_performance_trigger_at(5000, 9, clock(1, 2, 3));
    assert!(!crab.active);
    crab.check_performance_trigger_at(5000, 12, clock(1, 2, 3));
    assert!(crab.active);
    assert_eq!(crab.phase, AnimationPhase::Cheering);
    assert_eq!(crab.mood, CrabMood::Proud);
    assert_eq!(
        crab.messages,
        vec!["🦀 Wow! Perfect streak! You're amazing!".to_string(), "🦀 12 in a row! Incredible!".to_string()]
    );
    crab.check_performance_trigger_at(9000, 3, clock(1, 2, 3));
    assert_eq!(crab.messages.len(), 2);
    crab.check_performance_trigger_at(9001, 3, clock(1, 2, 3));
    assert_eq!(crab.phase, AnimationPhase::Excited);
    assert_eq!(crab.messages[2], "🦀 You're on fire! 🔥");
}

#[test]
fn steps_move_and_tire_the_crab() {
    let mut crab = LittleCrab::with_personality(CrabPersonality::Wise);
    crab.update_at(CrabStep { moving: true, far: true, delta_ms: 1000 });
    assert_eq!(crab.phase, AnimationPhase::Hidden);
    assert_eq!(crab.energy_milli, FULL_ENERGY);
    crab.activate_at(CrabTrigger::LongPress, clock(1, 2, 3));
    crab.update_at(CrabStep { moving: true, far: true, delta_ms: 1000 });
    assert_eq!(crab.phase, AnimationPhase::Crawling);
    assert_eq!(crab.energy_milli, 99_500);
    crab.update_at(CrabStep { moving: false, far: false, delta_ms: 0 });
    assert_eq!(crab.phase, AnimationPhase::Reading);
    crab.update_at(CrabStep { moving: false, far: false, delta_ms: 300_000 });
    assert_eq!(crab.energy_milli, 0);
    assert_eq!(crab.phase, AnimationPhase::Sleeping);
}

#[test]
fn konami_code_finds_the_crab() {
    let mut m = EasterEggManager::with_crab(LittleCrab::with_personality(CrabPersonality::Wise), JULY);
    let keys = ["ArrowUp", "ArrowUp", "ArrowDown", "ArrowDown", "ArrowLeft", "ArrowRight", "ArrowLeft", "ArrowRight", "b"];
    for k in keys {
        assert!(!m.handle_key_at(k, crab_clock_at(JULY + 10)));
    }
    assert!(m.handle_key_at("A", crab_clock_at(JULY + 20)));
    assert!(m.crab.active);
    assert_eq!(m.crab.phase, AnimationPhase::Celebrating);
    assert_eq!(m.crab.messages[0], "🦀 ↑↑↓↓←→←→BA! Classic gamer move!");
    assert!(m.konami_buffer.is_empty());
    assert_eq!(m.last_activity, JULY + 20);
    assert_eq!(m.crab.seasonal_outfit.as_deref(), Some("🎆 Fireworks Hat"));
}

#[test]
fn konami_code_needs_the_last_ten_keys() {
    let mut m = EasterEggManager::with_crab(LittleCrab::with_personality(CrabPersonality::Wise), JULY);
    let keys = [
        "ArrowLeft", "ArrowUp", "ArrowUp", "ArrowDown", "ArrowDown", "ArrowLeft", "ArrowRight", "ArrowLeft", "ArrowRight",
        "B",
    ];
    for k in keys {
        assert!(!m.handle_key_at(k, crab_clock_at(JULY)));
    }
    assert_eq!(m.konami_buffer.len(), 10);
    assert!(m.handle_key_at("a", crab_clock_at(JULY)));
    assert_eq!(m.konami_buffer.len(), 0);
}

#[test]
fn secret_word_finds_the_crab() {
    let mut m = EasterEggManager::with_crab(LittleCrab::with_personality(CrabPersonality::Playful), JULY);
    for k in ["x", "C", "r", "A"] {
        assert!(!m.handle_key_at(k, crab_clock_at(JULY)));
    }
    assert_eq!(m.secret_word_buffer, "xCrA");
    assert!(!m.handle_key_at("Shift", crab_clock_at(JULY)));
    assert_eq!(m.secret_word_buffer, "xCrA");
    assert!(m.handle_key_at("b", crab_clock_at(JULY)));
    assert!(m.crab.active);
    assert_eq!(m.crab.phase, AnimationPhase::Dancing);
    assert_eq!(m.crab.messages[0], "🦀 You know the secret word! 🎉");
    assert!(m.secret_word_buffer.is_empty());
}

#[test]
fn typed_buffer_keeps_ten_characters() {
    let mut m = EasterEggManager::with_crab(LittleCrab::with_personality(CrabPersonality::Playful), JULY);
    for k in ["1", "2", "3", "4", "5", "6", "7", "8", "9", "0", "x", "y"] {
        assert!(!m.handle_key_at(k, crab_clock_at(JULY)));
    }
    assert_eq!(m.secret_word_buffer, "34567890xy");
    assert!(!m.handle_key_at("é", crab_clock_at(JULY)));
    assert_eq!(m.secret_word_buffer, "34567890xy");
}

#[test]
fn triple_click_within_half_a_second() {
    let mut m = EasterEggManager::with_crab(LittleCrab::with_personality(CrabPersonality::Playful), JULY);
    assert!(!m.handle_click_at(crab_clock_at(JULY)));
    assert!(!m.handle_click_at(crab_clock_at(JULY + 600)));
    assert_eq!(m.click_times, vec![JULY + 600]);
    assert!(!m.handle_click_at(crab_clock_at(JULY + 700)));
    assert!(m.handle_click_at(crab_clock_at(JULY + 1099)));
    assert!(m.click_times.is_empty());
    assert!(m.crab.active);
    assert_eq!(m.crab.phase, AnimationPhase::Excited);
}

#[test]
fn idling_finds_the_crab() {
    let mut m = EasterEggManager::with_crab(LittleCrab::with_personality(CrabPersonality::Sleepy), JULY);
    assert!(!m.check_idle_at(crab_clock_at(JULY + 30_999)));
    assert!(m.check_idle_at(crab_clock_at(JULY + 31_000)));
    assert_eq!(m.crab.phase, AnimationPhase::Sleeping);
    assert_eq!(m.crab.mood, CrabMood::Sleepy);
    assert!(!m.check_idle_at(crab_clock_at(JULY + 90_000)));
}

#[test]
fn afternoon_visits() {
    let mut m = EasterEggManager::with_crab(LittleCrab::with_personality(CrabPersonality::Wise), JULY);
    let step = CrabStep { moving: false, far: false, delta_ms: 16 };
    m.update_at(step, false, false, crab_clock_at(JULY));
    assert!(!m.crab.active);
    m.update_at(step, false, true, crab_clock_at(JULY));
    assert!(m.crab.active);
    assert_eq!(m.crab.messages[0], "🦀 Afternoon learning session!");
}

#[test]
fn live_crab_calls() {
    let mut crab = LittleCrab::new();
    assert!(matches!(
        crab.personality,
        CrabPersonality::Shy
            | CrabPersonality::Playful
            | CrabPersonality::Helpful
            | CrabPersonality::Mischievous
            | CrabPersonality::Wise
    ));
    assert!(!crab.active);
    crab.activate(CrabTrigger::SpecialDate);
    assert!(crab.active);
    assert_eq!(crab.discovery_count, 1);
    assert!(crab.last_interaction.is_some());
    let line = crab.interact();
    assert!(!line.is_empty());
    crab.find_treasure();
    assert_eq!(crab.collected_treasures.len(), 1);
    assert_eq!(crab.phase, AnimationPhase::Digging);
    crab.celebrate_success(3, 5000);
    assert_eq!(crab.mood, CrabMood::Celebratory);
    assert!(crab.collected_treasures.len() == 1 || crab.collected_treasures.len() == 2);
    crab.perform_random_behavior();
    crab.check_performance_trigger(9500, 0);
    assert_eq!(crab.phase, AnimationPhase::Excited);

    let mut m = EasterEggManager::new();
    assert!(!m.crab.active);
    assert!(!m.handle_key("q"));
    assert!(!m.check_idle());
    let d = EasterEggManager::default();
    assert!(d.konami_buffer.is_empty() && d.click_times.is_empty());
}

fn runs(right: u32, wrong: u32) -> StruggleState {
    StruggleState {
        consecutive_errors: wrong,
        consecutive_correct: right,
        response_time_ms: 0,
        hint_requested: false,
        difficulty_adjustment_needed: false,
    }
}

#[test]
fn answers_lengthen_one_run_and_end_the_other() {
    let mut s = runs(4, 0);
    s.record_answer(false);
    assert_eq!((s.consecutive_correct, s.consecutive_errors), (0, 1));
    s.record_answer(false);
    assert_eq!((s.consecutive_correct, s.consecutive_errors), (0, 2));
    s.record_answer(true);
    assert_eq!((s.consecutive_correct, s.consecutive_errors), (1, 0));
}

#[test]
fn ten_right_answers_bring_the_crab_out() {
    let mut crab = LittleCrab::with_personality(CrabPersonality::Playful);
    let clock = crab_clock_at(JULY);
    crab.respond_to_answer_at(true, runs(10, 0), 8_000, &Some("alphabet".to_string()), None, clock);
    assert!(crab.active);
    assert_eq!(crab.discovery_count, 1);
    assert_eq!(crab.friendship_level, 3);
    assert_eq!(crab.mood, CrabMood::Celebratory);
    assert_eq!(crab.phase, AnimationPhase::Curious);
    assert_eq!(crab.favorite_domain, Some("alphabet".to_string()));
    assert_eq!(crab.messages.len(), 3);
    assert_eq!(crab.messages[0], get_discovery_message(CrabTrigger::PerfectStreak, 1, clock));
    assert_eq!(crab.messages[2], "🦀 A-B-C... I love the alphabet! 26 friends to learn! 🦀");
}

#[test]
fn nine_right_answers_leave_a_hidden_crab_alone() {
    let mut crab = LittleCrab::with_personality(CrabPersonality::Shy);
    crab.respond_to_answer_at(true, runs(9, 0), 8_000, &Some("alphabet".to_string()), None, crab_clock_at(JULY));
    assert!(!crab.active);
    assert!(crab.messages.is_empty());
    assert_eq!(crab.friendship_level, 0);
    assert_eq!(crab.favorite_domain, None);
}

#[test]
fn third_wrong_answer_in_a_row_brings_encouragement() {
    let mut crab = LittleCrab::with_personality(CrabPersonality::Wise);
    let clock = crab_clock_at(JULY);
    crab.activate_at(CrabTrigger::KonamiCode, clock);
    let said = crab.messages.len();
    crab.respond_to_answer_at(false, runs(0, 2), 5_000, &None, None, clock);
    assert_eq!(crab.messages.len(), said);
    crab.respond_to_answer_at(false, runs(0, 3), 5_000, &None, None, clock);
    assert_eq!(crab.messages.len(), said + 1);
    assert_eq!(crab.mood, CrabMood::Encouraging);
    assert_eq!(crab.phase, AnimationPhase::Helping);
}

#[test]
fn live_answer_after_ten_right_brings_the_crab_out() {
    let mut crab = LittleCrab::with_personality(CrabPersonality::Curious);
    crab.respond_to_answer(true, runs(12, 0), 9_000, &None);
    assert!(crab.active);
    assert_eq!(crab.mood, CrabMood::Celebratory);
}

#[test]
fn behavior_odds_and_choices_by_personality() {
    assert_eq!(behavior_odds(CrabPersonality::Playful), (3, 10));
    assert_eq!(behavior_odds(CrabPersonality::Sleepy), (1, 2));
    assert_eq!(behavior_odds(CrabPersonality::Wise), (3, 20));
    assert_eq!(behavior_choice_count(CrabPersonality::Helpful), 7);
    assert_eq!(behavior_choice_count(CrabPersonality::Shy), 1);
    assert_eq!(behavior_choice_count(CrabPersonality::Curious), 5);
    let mut crab = LittleCrab::with_personality(CrabPersonality::Playful);
    let wander = crab.perform_random_behavior();
    assert!(!wander);
}
