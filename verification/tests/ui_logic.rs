use abcdeez_app::components::{
    alert_icon, alphabet_sequence_cells, build_navigation_structure, color_to_css, map_color, status_badge_text, step_markers, toast_style,
    trend_indicator, validation_text, AlertType, AppColor, AppTheme, FieldType, FormField, NavItem, StatusType,
    ToastType, Trend,
};
use abcdeez_app::gamification::profile::GamificationProfile;
use abcdeez_app::models::SessionStatus;
use abcdeez_app::state::{Rgb8, Screen, StruggleState, Theme, ThemeMode};
use abcdeez_app::views::{
    format_time_ago, get_accuracy_color, get_performance_rating, map_app_theme_to_theme_mode,
    map_theme_mode_to_app_theme,
};

#[test]
fn palette_colours() {
    assert_eq!(color_to_css(AppColor::Primary), "#0066cc");
    assert_eq!(color_to_css(AppColor::Error), "#dc3545");
    assert_eq!(color_to_css(AppColor::TextMuted), "#6c757d");
    assert_eq!(map_color(AppColor::Primary), Rgb8 { r: 59, g: 130, b: 246 });
    assert_eq!(map_color(AppColor::Surface), Rgb8 { r: 255, g: 255, b: 255 });
    assert_eq!(map_color(AppColor::TextMuted), Rgb8 { r: 128, g: 128, b: 128 });
}

#[test]
fn trend_lines() {
    assert_eq!(trend_indicator(Trend::Up(12)), "↑ 12%");
    assert_eq!(trend_indicator(Trend::Down(0)), "↓ 0%");
    assert_eq!(trend_indicator(Trend::Neutral), "—");
}

#[test]
fn notices_and_badges() {
    assert_eq!(toast_style(ToastType::Success), ("✓", AppColor::Success));
    assert_eq!(toast_style(ToastType::Error), ("✕", AppColor::Error));
    assert_eq!(toast_style(ToastType::Warning), ("⚠", AppColor::Warning));
    assert_eq!(toast_style(ToastType::Info), ("ℹ", AppColor::Info));
    assert_eq!(alert_icon(AlertType::Warning), "⚠");
    assert_eq!(alert_icon(AlertType::Info), "ℹ");
    assert_eq!(status_badge_text("Online", StatusType::Active), "🟢 Online");
    assert_eq!(status_badge_text("Done", StatusType::Completed), "✓ Done");
    assert_eq!(status_badge_text("", StatusType::Pending), "🟡 ");
}

#[test]
fn form_labels_and_messages() {
    let mut f = FormField {
        label: "Email".to_string(),
        value: String::new(),
        field_type: FieldType::Email,
        required: true,
        placeholder: None,
    };
    assert_eq!(f.display_label(), "Email *");
    f.required = false;
    assert_eq!(f.display_label(), "Email");
    assert_eq!(validation_text("Password", Some("too short")).as_deref(), Some("Password: too short"));
    assert_eq!(validation_text("Password", None), None);
}

#[test]
fn step_indicator_markers() {
    assert_eq!(step_markers(2, 5), vec!["✓", "✓", "3", "○", "○"]);
    assert_eq!(step_markers(0, 1), vec!["1"]);
    assert_eq!(step_markers(7, 3), vec!["✓", "✓", "✓"]);
    assert!(step_markers(0, 0).is_empty());
}

#[test]
fn nav_items_are_built_up() {
    let item = NavItem::new("Home", Screen::Dashboard).with_icon("🏠").with_badge("3");
    assert_eq!(item.label, "Home");
    assert_eq!(item.icon.as_deref(), Some("🏠"));
    assert_eq!(item.badge.as_deref(), Some("3"));
    let parent = NavItem::new("More", Screen::Settings).with_sub_items(vec![item]);
    assert_eq!(parent.sub_items.len(), 1);
    assert!(parent.icon.is_none());
}

#[test]
fn navigation_structure() {
    let groups = build_navigation_structure(None);
    let titles: Vec<&str> = groups.iter().map(|g| g.title.as_str()).collect();
    assert_eq!(titles, vec!["Main", "Analytics", "Social", "Account", "Developer"]);
    assert!(groups.iter().all(|g| !g.collapsed));
    let labels: Vec<&str> = groups.iter().flat_map(|g| g.items.iter().map(|i| i.label.as_str())).collect();
    assert_eq!(
        labels,
        vec![
            "Dashboard", "Learning", "Training", "Progress", "Analytics", "Visualizations", "Leaderboard",
            "Challenges", "Friends", "Profile", "Settings", "Widget Gallery", "Demo Mode"
        ]
    );
    assert!(groups[2].items[2].badge.is_none());
    assert!(matches!(groups[4].items[1].screen, Screen::Dashboard));
    assert_eq!(groups[4].items[1].icon.as_deref(), Some("🎭"));

    let mut p = GamificationProfile::new("learner-nav");
    assert!(build_navigation_structure(Some(&p))[2].items[2].badge.is_none());
    p.pending_friend_requests = 4;
    let groups = build_navigation_structure(Some(&p));
    assert_eq!(groups[2].items[2].badge.as_deref(), Some("4"));
    assert!(matches!(groups[2].items[2].screen, Screen::Friends));
}

#[test]
fn accuracy_colours() {
    assert_eq!(get_accuracy_color(100), AppColor::Success);
    assert_eq!(get_accuracy_color(90), AppColor::Success);
    assert_eq!(get_accuracy_color(89), AppColor::Warning);
    assert_eq!(get_accuracy_color(70), AppColor::Warning);
    assert_eq!(get_accuracy_color(69), AppColor::Info);
    assert_eq!(get_accuracy_color(50), AppColor::Info);
    assert_eq!(get_accuracy_color(49), AppColor::Error);
    assert_eq!(get_accuracy_color(101), AppColor::Error);
}

#[test]
fn performance_ratings() {
    assert_eq!(get_performance_rating(9, 10), "Mastery Level");
    assert_eq!(get_performance_rating(8, 10), "Proficient");
    assert_eq!(get_performance_rating(7, 10), "Developing");
    assert_eq!(get_performance_rating(6, 10), "Practicing");
    assert_eq!(get_performance_rating(5, 10), "Learning");
    assert_eq!(get_performance_rating(0, 0), "Learning");
    assert_eq!(get_performance_rating(u32::MAX, u32::MAX), "Mastery Level");
}

#[test]
fn time_ago() {
    assert_eq!(format_time_ago(0), "Just now");
    assert_eq!(format_time_ago(59_999), "Just now");
    assert_eq!(format_time_ago(60_000), "1 minutes ago");
    assert_eq!(format_time_ago(3_599_999), "59 minutes ago");
    assert_eq!(format_time_ago(3_600_000), "1 hours ago");
    assert_eq!(format_time_ago(2 * 86_400_000 + 5), "2 days ago");
    assert_eq!(format_time_ago(-5_000_000), "Just now");
}

#[test]
fn theme_mappings_round_trip() {
    for mode in [ThemeMode::Light, ThemeMode::Dark, ThemeMode::Auto] {
        assert_eq!(map_app_theme_to_theme_mode(map_theme_mode_to_app_theme(mode)), mode);
    }
    assert_eq!(map_theme_mode_to_app_theme(ThemeMode::Dark), AppTheme::Dark);
}

#[test]
fn theme_palette() {
    let light = Theme::default();
    assert_eq!(light.mode, ThemeMode::Light);
    assert_eq!(light.background_color(), Rgb8 { r: 255, g: 255, b: 255 });
    assert_eq!(light.text_color(), Rgb8 { r: 0, g: 0, b: 0 });
    assert_eq!(light.primary_color(), Rgb8 { r: 0, g: 92, b: 197 });
    let dark = Theme { mode: ThemeMode::Dark };
    assert_eq!(dark.background_color(), Rgb8 { r: 18, g: 18, b: 18 });
    assert_eq!(dark.success_color(), Rgb8 { r: 80, g: 220, b: 100 });
    assert_eq!(dark.error_color(), Rgb8 { r: 255, g: 85, b: 85 });
    assert_eq!(dark.warning_color(), Rgb8 { r: 255, g: 204, b: 77 });
    assert_eq!(dark.surface_color(), Rgb8 { r: 28, g: 28, b: 30 });
    let auto = Theme { mode: ThemeMode::Auto };
    assert_eq!(auto.surface_color(), Rgb8 { r: 240, g: 240, b: 240 });
    assert_eq!(auto.warning_color(), Rgb8 { r: 204, g: 102, b: 0 });
}

#[test]
fn screen_titles_and_fragments() {
    assert_eq!(Screen::Learning.title(), "Learning Session");
    assert_eq!(Screen::DomainSelection.title(), "Select Domain");
    assert_eq!(Screen::Error("boom".to_string()).title(), "Error");
    assert_eq!(Screen::OAuthCallback.title(), "");
    assert_eq!(Screen::WidgetGallery.to_url_fragment(), "widget-gallery");
    assert_eq!(Screen::Loading.to_url_fragment(), "dashboard");
    assert!(matches!(Screen::from_url_fragment("#Leaderboard"), Some(Screen::Leaderboard)));
    assert!(matches!(Screen::from_url_fragment("##viz"), Some(Screen::Visualizations)));
    assert!(matches!(Screen::from_url_fragment("SIGN-UP"), Some(Screen::Signup)));
    assert!(matches!(Screen::from_url_fragment("domains"), Some(Screen::DomainSelection)));
    assert!(matches!(Screen::from_url_fragment("widgets"), Some(Screen::WidgetGallery)));
    assert!(Screen::from_url_fragment("nowhere").is_none());
    assert!(Screen::from_url_fragment("").is_none());
    assert!(Screen::from_url_fragment("loading").is_none());
    // A screen's own fragment leads back to it.
    for s in [Screen::Login, Screen::Progress, Screen::Friends, Screen::DomainSelection] {
        let back = Screen::from_url_fragment(s.to_url_fragment()).unwrap();
        assert_eq!(back.title(), s.title());
    }
}

#[test]
fn session_status_names() {
    for s in [SessionStatus::Active, SessionStatus::Completed, SessionStatus::Abandoned] {
        assert_eq!(SessionStatus::from_str(s.as_str()), s);
    }
    assert_eq!(SessionStatus::Completed.as_str(), "completed");
    assert_eq!(SessionStatus::from_str("weird"), SessionStatus::Abandoned);
}

#[test]
fn struggle_defaults() {
    let s = StruggleState::default();
    assert_eq!(s.consecutive_errors, 0);
    assert_eq!(s.consecutive_correct, 0);
    assert_eq!(s.response_time_ms, 0);
    assert!(!s.hint_requested);
    assert!(!s.difficulty_adjustment_needed);
}

#[test]
fn letter_sequence_shows_five_letters_with_one_highlight() {
    let items: Vec<String> = ["A", "B", "C", "D", "E", "F"].iter().map(|s| s.to_string()).collect();
    let cells = alphabet_sequence_cells(&items, Some(2));
    assert_eq!(cells.len(), 5);
    let texts: Vec<&str> = cells.iter().map(|c| c.text.as_str()).collect();
    assert_eq!(texts, vec!["A", "B", "C", "D", "E"]);
    assert!(cells[2].highlighted);
    assert_eq!(cells[2].background, AppColor::Primary);
    assert!(!cells[0].highlighted);
    assert_eq!(cells[0].background, AppColor::Surface);
    assert!(alphabet_sequence_cells(&Vec::new(), Some(0)).is_empty());
    let two = alphabet_sequence_cells(&items[..2].to_vec(), None);
    assert_eq!(two.len(), 2);
    assert!(two.iter().all(|c| !c.highlighted));
}
