use abcdeez_app::demo::{bump_counter, counter_value, demo_overlay_text, DemoController, DemoTick, InteractionType, UserInteraction};

#[test]
fn test_demo_controller_initialization() {
    let controller = DemoController::new();
    assert!(!controller.is_active);
    assert!(controller.scenarios.len() >= 5);
    assert!(controller.has_scenario("first_time_tour"));
}

#[test]
fn test_prerequisites() {
    let mut controller = DemoController::new();

    let result = controller.start_scenario("advanced_features");
    assert!(result.is_err());

    controller.state.completed_scenarios.push("first_time_tour".to_string());
    controller.state.completed_scenarios.push("learning_session_tour".to_string());

    let result = controller.start_scenario("advanced_features");
    assert!(result.is_ok());
}

#[test]
fn test_demo_rewards() {
    let mut controller = DemoController::new();
    controller.state.completed_scenarios.push("first_time_tour".to_string());
    controller.state.completed_scenarios.push("learning_session_tour".to_string());

    controller.start_scenario("advanced_features").unwrap();

    while controller.next_step().unwrap_or(false) {}

    assert!(controller.state.achievements.contains(&"Power User".to_string()));
    assert!(controller.state.completed_scenarios.contains(&"advanced_features".to_string()));
}

#[test]
fn test_skip_conditions() {
    let mut controller = DemoController::new();

    controller.state.completed_scenarios.push("researcher_role".to_string());
    controller.state.completed_scenarios.push("first_time_tour".to_string());
    controller.state.completed_scenarios.push("learning_session_tour".to_string());
    controller.state.completed_scenarios.push("advanced_features".to_string());

    controller.start_scenario("research_tour").unwrap();

    let step = controller.get_current_step().unwrap();
    assert_ne!(step.id, "research_intro");
}

#[test]
fn test_demo_analytics() {
    let mut controller = DemoController::new();
    controller.start_scenario("quick_tips").unwrap();

    controller.next_step().unwrap();

    controller.skip_step().unwrap();

    assert_eq!(controller.state.skip_count, 1);
    assert!(controller.analytics.step_skips.iter().any(|(k, _)| k == "tip_streaks"));
}

fn tick(ms: i64, ns: u128, hour: u32) -> DemoTick {
    DemoTick { now_ms: ms, mono_ns: ns, hour }
}

#[test]
fn unknown_scenario_is_reported() {
    let mut controller = DemoController::new();
    let err = controller.start_scenario("no_such_tour").unwrap_err();
    assert_eq!(err, "Scenario 'no_such_tour' not found");
    let err = controller.start_scenario("research_tour").unwrap_err();
    assert_eq!(err, "Complete 'advanced_features' first");
}

#[test]
fn welcome_tour_runs_to_completion() {
    let mut controller = DemoController::new();
    controller.start_scenario_at("first_time_tour", tick(1000, 0, 12)).unwrap();
    assert!(controller.is_active);
    assert_eq!(controller.get_progress(), (1, 2));
    assert_eq!(controller.next_step_at(tick(2000, 10, 12)), Ok(true));
    assert_eq!(controller.get_progress(), (2, 2));
    assert_eq!(controller.step_history, vec!["welcome".to_string()]);
    // the second step advances by itself after five seconds
    assert_eq!(controller.auto_advance_timer, Some(10 + 5_000_000_000));
    controller.update_at(tick(3000, 5_000_000_011, 12));
    assert!(!controller.is_active);
    assert_eq!(controller.state.completed_scenarios, vec!["first_time_tour".to_string()]);
    assert_eq!(controller.state.achievements, vec!["First Steps".to_string()]);
    assert!(controller.state.started_scenarios.is_empty());
}

#[test]
fn paused_tour_does_not_advance() {
    let mut controller = DemoController::new();
    controller.start_scenario_at("quick_tips", tick(0, 0, 12)).unwrap();
    controller.pause();
    assert_eq!(controller.next_step_at(tick(0, 5, 12)), Ok(false));
    assert_eq!(controller.current_step_index, 0);
    controller.resume_at(7);
    assert_eq!(controller.step_timer, Some(7));
    assert_eq!(controller.next_step_at(tick(0, 9, 12)), Ok(true));
}

#[test]
fn keyboard_drives_the_tour() {
    let mut controller = DemoController::new();
    controller.start_scenario_at("first_time_tour", tick(0, 0, 12)).unwrap();
    let press = |k: &str| UserInteraction {
        timestamp_ns: 0,
        interaction_type: InteractionType::KeyPress(k.to_string()),
        element_id: None,
    };
    assert!(controller.handle_interaction_at(press("?"), tick(0, 1, 12)));
    assert!(!controller.handle_interaction_at(press("Enter"), tick(0, 2, 12)));
    assert_eq!(controller.current_step_index, 1);
    assert!(!controller.handle_interaction_at(press("Escape"), tick(0, 3, 12)));
    assert!(controller.is_paused);
    assert_eq!(controller.user_interactions.len(), 3);
}

#[test]
fn interaction_buffer_is_bounded() {
    let mut controller = DemoController::new();
    for i in 0..150u128 {
        controller.handle_interaction_at(
            UserInteraction { timestamp_ns: i, interaction_type: InteractionType::Scroll, element_id: None },
            tick(0, i, 12),
        );
    }
    assert_eq!(controller.user_interactions.len(), 100);
    assert_eq!(controller.user_interactions[0].timestamp_ns, 50);
}

#[test]
fn overlay_text_shows_step_and_progress() {
    let mut controller = DemoController::new();
    assert_eq!(demo_overlay_text(&controller), "");
    controller.start_scenario_at("quick_tips", tick(0, 0, 12)).unwrap();
    let text = demo_overlay_text(&controller);
    assert!(text.starts_with("📚 Quick Tips - Quick Tips 💡 (1/2)"));
    assert!(text.ends_with("Press Space to continue • Esc to pause • ? for help"));
}

#[test]
fn highlights_and_tooltips_follow_the_step() {
    let mut controller = DemoController::new();
    controller.state.completed_scenarios.push("first_time_tour".to_string());
    controller.state.completed_scenarios.push("learning_session_tour".to_string());
    controller.start_scenario_at("advanced_features", tick(0, 0, 12)).unwrap();
    assert_eq!(
        controller.get_tooltip("keyboard_guide").map(|s| s.as_str()),
        Some("Press '?' anytime to see all shortcuts")
    );
    controller.state.completed_scenarios.clear();
    let mut c2 = DemoController::new();
    c2.start_scenario_at("first_time_tour", tick(0, 0, 12)).unwrap();
    c2.next_step_at(tick(0, 1, 12)).unwrap();
    let style = c2.should_highlight("adaptive_info").unwrap();
    assert_eq!(style.color, "#4CAF50");
    assert!(c2.should_highlight("nothing").is_none());
}

#[test]
fn recommendation_prefers_easy_unlocked_tours() {
    let mut controller = DemoController::new();
    let rec = controller.get_recommended_scenario().unwrap();
    assert_eq!(rec.id, "first_time_tour");
    controller.state.completed_scenarios.push("first_time_tour".to_string());
    controller.state.completed_scenarios.push("quick_tips".to_string());
    let rec = controller.get_recommended_scenario().unwrap();
    assert_eq!(rec.id, "learning_session_tour");
    let all = controller.get_available_scenarios();
    let ids: Vec<&str> = all.iter().map(|s| s.id.as_str()).collect();
    assert_eq!(ids, vec!["first_time_tour", "learning_session_tour", "advanced_features", "quick_tips", "research_tour"]);
}

#[test]
fn end_demo_records_drop_off() {
    let mut controller = DemoController::new();
    controller.start_scenario_at("quick_tips", tick(0, 0, 12)).unwrap();
    controller.end_demo();
    assert!(!controller.is_active);
    assert_eq!(
        controller.analytics.drop_off_points,
        vec![("quick_tips".to_string(), "tip_overview".to_string())]
    );
}

#[test]
fn restart_is_refused_where_not_allowed() {
    let mut controller = DemoController::new();
    assert_eq!(controller.restart_scenario_at(0), Err("No active scenario".to_string()));
    controller.state.completed_scenarios.push("first_time_tour".to_string());
    controller.state.completed_scenarios.push("learning_session_tour".to_string());
    controller.start_scenario_at("advanced_features", tick(0, 0, 12)).unwrap();
    assert_eq!(
        controller.restart_scenario_at(1),
        Err("This demo doesn't allow restarting".to_string())
    );
}

#[test]
fn speed_is_clamped() {
    let mut controller = DemoController::new();
    controller.set_speed(1000);
    assert_eq!(controller.demo_speed_percent, 500);
    controller.set_speed(1);
    assert_eq!(controller.demo_speed_percent, 10);
}

#[test]
fn step_durations_are_recorded_per_step() {
    let mut controller = DemoController::new();
    controller.start_scenario_at("first_time_tour", tick(0, 100, 12)).unwrap();
    assert_eq!(controller.next_step_at(tick(0, 350, 12)), Ok(true));
    assert_eq!(
        controller.analytics.step_durations,
        vec![("welcome".to_string(), vec![250u128])]
    );
}

#[test]
fn passed_over_first_step_is_recorded_with_zero() {
    let mut controller = DemoController::new();
    for done in ["researcher_role", "first_time_tour", "learning_session_tour", "advanced_features"] {
        controller.state.completed_scenarios.push(done.to_string());
    }
    controller.start_scenario_at("research_tour", tick(0, 40, 12)).unwrap();
    assert_eq!(
        controller.analytics.step_durations,
        vec![("research_intro".to_string(), vec![0u128])]
    );
}

#[test]
fn keyed_counters_count_per_key() {
    let mut v: Vec<(String, u32)> = Vec::new();
    bump_counter(&mut v, "a");
    bump_counter(&mut v, "b");
    bump_counter(&mut v, "a");
    assert_eq!(v, vec![("a".to_string(), 2), ("b".to_string(), 1)]);
    assert_eq!(counter_value(&v, "a"), 2);
    assert_eq!(counter_value(&v, "b"), 1);
    assert_eq!(counter_value(&v, "c"), 0);
}

#[test]
fn skipping_twice_counts_twice() {
    let mut controller = DemoController::new();
    controller.start_scenario_at("first_time_tour", tick(0, 0, 12)).unwrap();
    controller.skip_step_at(tick(0, 1, 12)).unwrap();
    controller.previous_step_at(2);
    controller.skip_step_at(tick(0, 3, 12)).unwrap();
    assert_eq!(counter_value(&controller.analytics.step_skips, "welcome"), 2);
}
