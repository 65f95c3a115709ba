use abcdeez_app::demo::NotificationType;
use abcdeez_app::gamification::achievements::AchievementEvent;
use abcdeez_app::gamification::leaderboard::LeaderboardType;
use abcdeez_app::state::app_state::AppState;
use abcdeez_app::state::{AuthEvent, LoadingKey, Screen};
use abcdeez_app::utils::easter_egg::crab_clock_at;

const NOW: i64 = 1_700_000_000_000;

#[test]
fn starts_on_the_welcome_screen() {
    let s = AppState::new();
    assert!(matches!(s.current_screen, Screen::Welcome));
    assert!(s.user.is_none());
    assert!(s.navigation_stack.is_empty());
    assert!(s.demo_controller.is_some());
    assert!(s.errors.is_empty());
    assert!(!s.easter_egg_manager.crab.active);
    assert_eq!(s.current_user_key(), "guest");
    let d = AppState::default();
    assert!(matches!(d.current_screen, Screen::Welcome));
}

#[test]
fn navigation_history() {
    let mut s = AppState::new();
    s.navigate(Screen::Dashboard);
    s.navigate(Screen::Progress);
    assert!(matches!(s.current_screen, Screen::Progress));
    assert_eq!(s.navigation_stack.len(), 2);
    s.navigate_back();
    assert!(matches!(s.current_screen, Screen::Dashboard));
    s.navigate_back();
    assert!(matches!(s.current_screen, Screen::Welcome));
    s.navigate_back();
    assert!(matches!(s.current_screen, Screen::Welcome));
    assert!(s.navigation_stack.is_empty());
}

#[test]
fn deep_links_open_screens_without_history() {
    let mut s = AppState::new();
    s.handle_deep_link("https://app.example.com/#Leaderboard");
    assert!(matches!(s.current_screen, Screen::Leaderboard));
    assert!(s.navigation_stack.is_empty());
    s.handle_deep_link("https://app.example.com/#nowhere");
    assert!(matches!(s.current_screen, Screen::Leaderboard));
    s.handle_deep_link("https://app.example.com/settings");
    assert!(matches!(s.current_screen, Screen::Leaderboard));
    s.handle_deep_link("app://x/#viz");
    assert!(matches!(s.current_screen, Screen::Visualizations));
    s.handle_deep_link("a#b#dashboard");
    assert!(matches!(s.current_screen, Screen::Visualizations));
    s.handle_deep_link("#");
    assert!(matches!(s.current_screen, Screen::Visualizations));
}

#[test]
fn errors_and_notifications() {
    let mut s = AppState::new();
    s.add_error_at("boom".to_string(), false, NOW);
    s.add_error_at("again".to_string(), true, NOW + 1);
    assert_eq!(s.errors.len(), 2);
    assert_eq!(s.errors[0].message, "boom");
    assert_eq!(s.errors[0].timestamp, NOW);
    assert!(!s.errors[0].recoverable);
    s.clear_errors();
    assert!(s.errors.is_empty());
    s.add_notification("Saved", NotificationType::Success);
    assert_eq!(s.notifications.len(), 1);
    assert_eq!(s.notifications[0].0, "Saved");
    s.clear_notifications();
    assert!(s.notifications.is_empty());
}

#[test]
fn loading_flags_are_a_set() {
    let mut s = AppState::new();
    assert!(!s.is_loading(LoadingKey::Login));
    s.set_loading(LoadingKey::Login, true);
    s.set_loading(LoadingKey::Login, true);
    s.set_loading(LoadingKey::Task, true);
    assert!(s.is_loading(LoadingKey::Login));
    assert_eq!(s.loading.len(), 2);
    s.set_loading(LoadingKey::Login, false);
    assert!(!s.is_loading(LoadingKey::Login));
    assert!(s.is_loading(LoadingKey::Task));
    s.set_loading(LoadingKey::Session, false);
    assert_eq!(s.loading.len(), 1);
}

#[test]
fn tab_and_form_state_read_back() {
    let mut s = AppState::new();
    assert_eq!(s.get_tab_state("analytics"), 0);
    assert_eq!(s.get_form_value("email"), "");
    s.set_tab_state("analytics".to_string(), 2);
    s.set_tab_state("profile".to_string(), 1);
    s.set_tab_state("analytics".to_string(), 3);
    assert_eq!(s.get_tab_state("analytics"), 3);
    assert_eq!(s.get_tab_state("profile"), 1);
    assert_eq!(s.tab_states.len(), 2);
    s.set_form_value("email".to_string(), "a@b.c".to_string());
    s.set_form_value("name".to_string(), "Ada".to_string());
    s.set_form_value("email".to_string(), "x@y.z".to_string());
    assert_eq!(s.get_form_value("email"), "x@y.z");
    assert_eq!(s.get_form_value("name"), "Ada");
    assert_eq!(s.get_form_value("other"), "");
}

#[test]
fn login_needs_both_inputs() {
    let mut s = AppState::new();
    s.username_input = "ada".to_string();
    s.login_at(1, 2, NOW);
    assert!(s.user.is_none());
    assert_eq!(s.errors.len(), 1);
    assert_eq!(s.errors[0].message, "Username and password are required");
    assert!(s.errors[0].recoverable);
    assert!(matches!(s.current_screen, Screen::Welcome));
}

#[test]
fn login_signs_in_and_opens_dashboard() {
    let mut s = AppState::new();
    s.username_input = "ada".to_string();
    s.password_input = "secret".to_string();
    let id: u128 = 0x0123456789abcdef0123456789abcdef;
    s.login_at(id, 7, NOW);
    let u = s.user.as_ref().unwrap();
    assert_eq!(u.id, id);
    assert_eq!(u.username, "ada");
    assert_eq!(u.email, "ada@example.com");
    assert_eq!(u.display_name.as_deref(), Some("ada"));
    assert_eq!(u.learner_id, Some(7));
    assert_eq!((u.level, u.xp, u.streak), (1, 0, 0));
    assert_eq!(u.created_at, NOW);
    assert_eq!(s.current_user.as_ref().unwrap().username, "ada");
    assert_eq!(s.password_input, "");
    assert!(!s.login_request_in_flight);
    assert!(matches!(s.current_screen, Screen::Dashboard));
    assert_eq!(s.current_user_key(), "01234567-89ab-cdef-0123-456789abcdef");
}

#[test]
fn oauth_stand_ins_open_dashboard() {
    let mut s = AppState::new();
    s.apple_sign_in();
    assert!(matches!(s.current_screen, Screen::Dashboard));
    assert!(!s.oauth_login_in_flight);
    let mut t = AppState::new();
    t.github_sign_in();
    assert!(matches!(t.current_screen, Screen::Dashboard));
    assert!(t.user.is_none());
}

#[test]
fn apple_sign_in_events() {
    let mut s = AppState::new();
    s.oauth_login_in_flight = true;
    s.handle_auth_event_at(
        AuthEvent::AppleSignInSuccess {
            user_id: "001.apple".to_string(),
            email: None,
            given_name: Some("Grace".to_string()),
            family_name: Some("Hopper".to_string()),
        },
        5,
        6,
        NOW,
    );
    let u = s.user.as_ref().unwrap();
    assert_eq!(u.username, "Grace");
    assert_eq!(u.email, "");
    assert_eq!(u.display_name.as_deref(), Some("Grace Hopper"));
    assert_eq!(u.id, 5);
    assert!(!s.oauth_login_in_flight);
    assert!(matches!(s.current_screen, Screen::Dashboard));

    let mut t = AppState::new();
    t.handle_auth_event_at(
        AuthEvent::AppleSignInSuccess { user_id: "x".to_string(), email: None, given_name: None, family_name: None },
        1,
        2,
        NOW,
    );
    let u = t.user.as_ref().unwrap();
    assert_eq!(u.username, "Apple User");
    assert_eq!(u.display_name, None);

    let mut e = AppState::new();
    e.handle_auth_event_at(AuthEvent::AppleSignInError("cancelled".to_string()), 1, 2, NOW);
    assert!(e.user.is_none());
    assert_eq!(e.errors.len(), 1);
    assert_eq!(e.errors[0].message, "Apple Sign In failed: cancelled");
    assert!(matches!(e.current_screen, Screen::Welcome));
}

#[test]
fn triple_click_finds_the_crab() {
    let mut s = AppState::new();
    assert!(!s.try_crab_triple_click_at(crab_clock_at(NOW)));
    assert!(!s.try_crab_triple_click_at(crab_clock_at(NOW + 200)));
    assert_eq!(s.triple_click_count, 2);
    assert!(s.try_crab_triple_click_at(crab_clock_at(NOW + 400)));
    assert_eq!(s.triple_click_count, 0);
    assert!(s.easter_egg_manager.crab.active);
    assert_eq!(s.easter_egg_manager.crab.discovery_count, 1);
    assert_eq!(s.errors.len(), 1);
    assert_eq!(s.errors[0].message, "🦀 You found Little Crab! He'll help you learn!");
    // A slow click starts counting again.
    assert!(!s.try_crab_triple_click_at(crab_clock_at(NOW + 2000)));
    assert_eq!(s.triple_click_count, 1);
    assert!(!s.try_crab_triple_click_at(crab_clock_at(NOW + 2600)));
    assert_eq!(s.triple_click_count, 1);
}

#[test]
fn demo_showcase_fills_response_times() {
    let mut s = AppState::new();
    s.demo_start();
    s.demo_start_training();
    s.demo_showcase();
    assert_eq!(s.response_times, vec![1250, 980, 2100, 750, 1100]);
}

#[test]
fn guest_achievements_and_sessions() {
    let mut s = AppState::new();
    assert!(s.get_current_user_profile().is_none());
    s.award_achievement(AchievementEvent::DailyPractice);
    let p = s.get_current_user_profile().unwrap();
    assert_eq!(p.user_id, "guest");
    assert_eq!(p.display_name, "User guest");

    s.update_gamification_session(8, 10, 5);
    let p = s.get_current_user_profile().unwrap();
    assert_eq!(p.statistics.total_sessions, 1);
    assert_eq!(p.statistics.total_tasks, 10);
    assert_eq!(p.statistics.average_accuracy_bp, 8000);
    assert_eq!(p.statistics.fastest_response_ms, 0);
    // Ten per task and 80% of fifty.
    assert_eq!(p.experience, 140);
    let board = s.gamification.get_leaderboard(&LeaderboardType::Global, 10);
    assert_eq!(board.len(), 1);
    assert_eq!(board[0].user_id, "guest");
}

#[test]
fn sessions_use_the_fastest_response_time() {
    let mut s = AppState::new();
    s.demo_showcase();
    s.award_achievement(AchievementEvent::DailyPractice);
    s.update_gamification_session(10, 10, 3);
    let p = s.get_current_user_profile().unwrap();
    assert_eq!(p.statistics.fastest_response_ms, 750);
    assert_eq!(p.statistics.best_accuracy_bp, 10000);
    assert_eq!(p.experience, 150);
}

#[test]
fn sessions_without_a_profile_only_rebuild_boards() {
    let mut s = AppState::new();
    s.update_gamification_session(3, 4, 1);
    assert!(s.gamification.user_profiles.is_empty());
    assert!(s.gamification.get_leaderboard(&LeaderboardType::Weekly, 5).is_empty());
    assert_eq!(s.gamification.leaderboards.len(), 3);
}

#[test]
fn live_login_and_events() {
    let mut s = AppState::new();
    s.username_input = "grace".to_string();
    s.password_input = "pw".to_string();
    s.login();
    let key = s.current_user_key();
    assert_eq!(key.len(), 36);
    assert_eq!(key.matches('-').count(), 4);
    assert!(key.chars().all(|c| c == '-' || c.is_ascii_hexdigit() && !c.is_ascii_uppercase()));
    s.add_error("late".to_string(), true);
    assert_eq!(s.errors.len(), 1);

    let mut t = AppState::new();
    t.handle_auth_event(AuthEvent::AppleSignInSuccess {
        user_id: "u".to_string(),
        email: Some("g@h.io".to_string()),
        given_name: None,
        family_name: Some("Hopper".to_string()),
    });
    let u = t.user.as_ref().unwrap();
    assert_eq!(u.username, "g@h.io");
    assert_eq!(u.display_name.as_deref(), Some("Hopper"));
    assert!(t.try_crab_triple_click() == false);
    assert_eq!(t.triple_click_count, 1);
}

#[test]
fn signup_checks_the_form_then_creates_the_account() {
    let mut s = AppState::new();
    s.signup_at(1, 2, NOW);
    assert_eq!(s.errors.last().unwrap().message, "Please fill in all required fields");
    assert!(s.user.is_none());
    s.auth_username = "ada".to_string();
    s.auth_email = "ada@example.org".to_string();
    s.auth_password = "secret".to_string();
    s.auth_confirm_password = "secrets".to_string();
    s.signup_at(1, 2, NOW);
    assert_eq!(s.errors.last().unwrap().message, "Passwords do not match");
    assert_eq!(s.errors.len(), 2);
    s.auth_confirm_password = "secret".to_string();
    s.navigate(Screen::Progress);
    s.signup_at(7, 8, NOW);
    let u = s.user.clone().unwrap();
    assert_eq!((u.id, u.learner_id, u.created_at), (7, Some(8), NOW));
    assert_eq!(u.username, "ada");
    assert_eq!(u.email, "ada@example.org");
    assert_eq!(u.display_name, Some("ada".to_string()));
    assert!(s.auth_password.is_empty() && s.auth_confirm_password.is_empty());
    assert!(!s.is_loading(LoadingKey::Signup));
    assert!(matches!(s.current_screen, Screen::Welcome));
    assert!(matches!(s.navigation_stack.last(), Some(Screen::Progress)));
    assert_eq!(s.errors.len(), 2);
}

#[test]
fn fresh_ids_are_version_four_uuids() {
    let mut s = AppState::new();
    s.username_input = "grace".to_string();
    s.password_input = "pw".to_string();
    s.login();
    let id = s.user.as_ref().unwrap().id;
    assert_eq!(id & 0xF000_0000_0000_0000_0000u128, 0x4000_0000_0000_0000_0000u128);
    assert_eq!(id & 0xC000_0000_0000_0000u128, 0x8000_0000_0000_0000u128);
    let key = s.current_user_key();
    assert_eq!(key.chars().nth(14), Some('4'));
}
