//! Guided tours: scenarios of steps that highlight parts of the interface,
//! with prerequisites between scenarios, skip conditions, rewards and usage
//! analytics.

use vstd::prelude::*;
use std::collections::VecDeque;
use std::time::Instant;
use crate::clock::{elapsed_nanos, instant_now, local_hour, utc_now_millis};
use crate::state::Screen;
use crate::text::{concat, contains_str, owned, str_eq, strs, u64_to_string, decimal};

verus! {

/// Kinds of notification a tour step can show.
#[derive(Debug, Clone, Copy, PartialEq, Eq, Structural)]
pub enum NotificationType {
    Info,
    Success,
    Warning,
    Error,
}

/// What a tour step does when it is shown.
#[derive(Debug, Clone)]
pub enum DemoAction {
    ClickButton(String),
    EnterText { field: String, text: String },
    SelectDomain(String),
    SubmitAnswer(String),
    RequestHint,
    NavigateTo(Screen),
    ShowTooltip { element: String, text: String },
    RunMiniDemo,
    Wait(u64),
    SimulateTyping { field: String, text: String, delay_ms: u64 },
    HighlightSequence(Vec<String>),
    ShowNotification { message: String, type_: NotificationType },
    PlaySound(String),
    TriggerEasterEgg,
    ShowConfetti,
    ExecuteCallback(String),
}

/// A check made before leaving a step.
#[derive(Debug, Clone)]
pub enum StepValidation {
    ElementExists(String),
    ElementHasValue { element: String, value: String },
    StateCondition(String),
    CustomValidation(String),
}

/// When a step is passed over.
#[derive(Debug, Clone)]
pub enum SkipCondition {
    /// When the learner has completed the named scenario.
    IfCompleted(String),
    /// On an application-state condition (never met here).
    IfState(String),
    /// Outside the local hours `before_hour ..= after_hour`.
    IfTime { before_hour: u8, after_hour: u8 },
}

/// How a highlighted element is animated.
#[derive(Debug, Clone, Copy, PartialEq, Eq, Structural)]
pub enum HighlightAnimation {
    /// No animation.
    Still,
    Pulse,
    Glow,
    Bounce,
    Arrow,
    Ripple,
    Shake,
    Spotlight,
}

/// The look of a highlighted element; opacity is in percent and the border
/// width in pixels.
#[derive(Debug, Clone)]
pub struct HighlightStyle {
    pub color: String,
    pub animation: HighlightAnimation,
    pub opacity_percent: u32,
    pub border_width_px: u32,
    pub z_index: i32,
    pub pointer_events: bool,
    pub dim_background: bool,
}

/// The default highlight: a pulsing green border.
pub open spec fn is_default_style(s: HighlightStyle) -> bool {
    &&& s.color@ == "#4CAF50"@
    &&& s.animation == HighlightAnimation::Pulse
    &&& s.opacity_percent == 30
    &&& s.border_width_px == 3
    &&& s.z_index == 9999
    &&& s.pointer_events
    &&& !s.dim_background
}

impl Default for HighlightStyle {
    fn default() -> (r: Self)
        ensures
            is_default_style(r),
    {
        HighlightStyle {
            color: owned("#4CAF50"),
            animation: HighlightAnimation::Pulse,
            opacity_percent: 30,
            border_width_px: 3,
            z_index: 9999,
            pointer_events: true,
            dim_background: false,
        }
    }
}

/// One step of a tour.
#[derive(Debug, Clone)]
pub struct DemoStep {
    pub id: String,
    pub title: String,
    pub description: String,
    pub highlight_elements: Vec<String>,
    pub action: Option<DemoAction>,
    pub navigation: Option<Screen>,
    pub wait_for_user: bool,
    pub auto_advance_ms: Option<u64>,
    pub validation: Option<StepValidation>,
    pub skip_condition: Option<SkipCondition>,
    pub on_enter_script: Option<String>,
    pub on_exit_script: Option<String>,
}

/// What kind of tour a scenario is.
#[derive(Debug, Clone, Copy, PartialEq, Eq, Structural)]
pub enum DemoCategory {
    Onboarding,
    Feature,
    Advanced,
    Troubleshooting,
    Tips,
    Research,
}

/// How demanding a tour is.
#[derive(Debug, Clone, Copy, PartialEq, Eq, Structural)]
pub enum DemoDifficulty {
    Beginner,
    Intermediate,
    Advanced,
    Expert,
}

/// What finishing a tour gives.
#[derive(Debug, Clone)]
pub enum DemoReward {
    Achievement(String),
    UnlockFeature(String),
    Points(u32),
    Badge(String),
}

/// A tour: a named sequence of steps.
#[derive(Debug, Clone)]
pub struct DemoScenario {
    pub id: String,
    pub name: String,
    pub description: String,
    pub category: DemoCategory,
    pub difficulty: DemoDifficulty,
    pub estimated_duration_minutes: u32,
    pub prerequisites: Vec<String>,
    pub steps: Vec<DemoStep>,
    pub completion_message: String,
    pub completion_rewards: Vec<DemoReward>,
    pub allow_skip: bool,
    pub allow_restart: bool,
    pub track_analytics: bool,
}

/// Progress through a started tour; times are milliseconds since the Unix
/// epoch and the completion is in whole percent.
#[derive(Debug, Clone)]
pub struct DemoProgress {
    pub scenario_id: String,
    pub current_step: usize,
    pub started_at_ms: i64,
    pub last_active_ms: i64,
    pub completion_percent: u32,
}

/// What the learner has done with the tours.
#[derive(Debug, Clone)]
pub struct DemoState {
    pub completed_scenarios: Vec<String>,
    pub started_scenarios: Vec<DemoProgress>,
    /// Nanoseconds spent in the current step when last updated.
    pub total_time_spent_ns: u128,
    pub achievements: Vec<String>,
    pub skip_count: u32,
    pub restart_count: u32,
}

/// Usage counters, keyed by step id.
#[derive(Debug, Clone)]
pub struct DemoAnalytics {
    /// Nanoseconds spent in each visit of a step.
    pub step_durations: Vec<(String, Vec<u128>)>,
    pub step_failures: Vec<(String, u32)>,
    pub step_skips: Vec<(String, u32)>,
    pub help_requests: Vec<(String, u32)>,
    /// (scenario id, step id) where a tour was ended early.
    pub drop_off_points: Vec<(String, String)>,
}

/// A learner's input during a tour; the time is monotonic nanoseconds since
/// the controller was made.
#[derive(Debug, Clone)]
pub struct UserInteraction {
    pub timestamp_ns: u128,
    pub interaction_type: InteractionType,
    pub element_id: Option<String>,
}

/// Kinds of learner input.
#[derive(Debug, Clone)]
pub enum InteractionType {
    Click,
    Hover,
    KeyPress(String),
    Scroll,
    Focus,
}

/// The readings of the clocks that one tour operation uses: wall-clock
/// milliseconds, monotonic nanoseconds since the controller was made, and
/// the local hour.
#[derive(Debug, Clone, Copy, PartialEq, Eq, Structural)]
pub struct DemoTick {
    pub now_ms: i64,
    pub mono_ns: u128,
    pub hour: u32,
}

/// What the application must do for the current step's action.
#[derive(Debug, Clone)]
pub enum DemoEffect {
    Nothing,
    Navigate(Screen),
    Notify(String, NotificationType),
    TriggerEasterEgg,
    ShowConfetti,
    PlaySound(String),
}


/// The identifiers of the built-in tours, in the order they are kept.
pub open spec fn default_scenario_ids() -> Seq<Seq<char>> {
    seq!["first_time_tour"@, "learning_session_tour"@, "advanced_features"@, "research_tour"@, "quick_tips"@]
}

/// The step identifiers of a scenario.
pub open spec fn step_ids(s: DemoScenario) -> Seq<Seq<char>> {
    s.steps@.map_values(|st: DemoStep| st.id@)
}

/// The names of the achievements among a list of rewards, in order.
pub open spec fn reward_achievements(rs: Seq<DemoReward>) -> Seq<Seq<char>>
    decreases rs.len(),
{
    if rs.len() == 0 {
        seq![]
    } else {
        let rest = reward_achievements(rs.drop_last());
        match rs.last() {
            DemoReward::Achievement(name) => rest.push(name@),
            _ => rest,
        }
    }
}

/// The welcome tour, as built in.
pub open spec fn welcome_tour(s: DemoScenario) -> bool {
    &&& s.id@ == "first_time_tour"@
    &&& s.name@ == "Welcome Tour"@
    &&& s.description@ == "Perfect for first-time users to understand the basics"@
    &&& s.category == DemoCategory::Onboarding
    &&& s.difficulty == DemoDifficulty::Beginner
    &&& s.estimated_duration_minutes == 5
    &&& s.prerequisites@.len() == 0
    &&& s.steps@.len() == 2
    &&& s.steps@[0].id@ == "welcome"@
    &&& s.steps@[0].title@ == "Welcome to ABCDEEZ! 🎉"@
    &&& s.steps@[0].description@ == "Let's take a quick tour to get you started with adaptive learning."@
    &&& s.steps@[0].highlight_elements@.len() == 0
    &&& s.steps@[0].action == Some(DemoAction::ShowConfetti)
    &&& s.steps@[0].navigation == Some(Screen::Welcome)
    &&& s.steps@[0].wait_for_user
    &&& s.steps@[0].auto_advance_ms is None
    &&& s.steps@[0].validation is None
    &&& s.steps@[0].skip_condition is None
    &&& (s.steps@[0].on_enter_script matches Some(x1) && x1@ == "analytics.track('demo_started')"@)
    &&& s.steps@[0].on_exit_script is None
    &&& s.steps@[1].id@ == "explain_adaptive"@
    &&& s.steps@[1].title@ == "What is Adaptive Learning?"@
    &&& s.steps@[1].description@ == "Our system adapts to YOUR learning pace and style, making learning more efficient and enjoyable!"@
    &&& strs(s.steps@[1].highlight_elements@) == seq!["adaptive_info"@]
    &&& (s.steps@[1].action matches Some(x2) && (x2 matches DemoAction::ShowNotification { message: x3, type_: x4 } && x3@ == "The system learns from your responses!"@ && x4 == NotificationType::Info))
    &&& s.steps@[1].navigation is None
    &&& s.steps@[1].wait_for_user
    &&& s.steps@[1].auto_advance_ms == Some(5000u64)
    &&& s.steps@[1].validation is None
    &&& s.steps@[1].skip_condition is None
    &&& s.steps@[1].on_enter_script is None
    &&& s.steps@[1].on_exit_script is None
    &&& s.completion_message@ == "🎊 Congratulations! You're ready to start your learning journey!"@
    &&& (s.completion_rewards@.len() == 2) && ((s.completion_rewards@[0] matches DemoReward::Achievement(x5) && x5@ == "First Steps"@)) && (s.completion_rewards@[1] == DemoReward::Points(100))
    &&& s.allow_skip
    &&& s.allow_restart
    &&& s.track_analytics
}

/// The learning-session tour, as built in.
pub open spec fn session_tour(s: DemoScenario) -> bool {
    &&& s.id@ == "learning_session_tour"@
    &&& s.name@ == "Master the Learning Session"@
    &&& s.description@ == "Deep dive into all learning session features"@
    &&& s.category == DemoCategory::Feature
    &&& s.difficulty == DemoDifficulty::Intermediate
    &&& s.estimated_duration_minutes == 10
    &&& strs(s.prerequisites@) == seq!["first_time_tour"@]
    &&& s.steps@.len() == 2
    &&& s.steps@[0].id@ == "session_start"@
    &&& s.steps@[0].title@ == "Starting Your Learning Session"@
    &&& s.steps@[0].description@ == "Let's explore how to start and customize your learning experience."@
    &&& strs(s.steps@[0].highlight_elements@) == seq!["start_session_button"@]
    &&& (s.steps@[0].action matches Some(x6) && (x6 matches DemoAction::HighlightSequence(x7) && strs(x7@) == seq!["domain_selector"@, "difficulty_slider"@, "session_options"@]))
    &&& s.steps@[0].navigation == Some(Screen::DomainSelection)
    &&& !s.steps@[0].wait_for_user
    &&& s.steps@[0].auto_advance_ms == Some(3000u64)
    &&& (s.steps@[0].validation matches Some(x8) && (x8 matches StepValidation::ElementExists(x9) && x9@ == "domain_cards"@))
    &&& s.steps@[0].skip_condition is None
    &&& s.steps@[0].on_enter_script is None
    &&& s.steps@[0].on_exit_script is None
    &&& s.steps@[1].id@ == "answer_techniques"@
    &&& s.steps@[1].title@ == "Answering Techniques"@
    &&& s.steps@[1].description@ == "Learn different ways to submit answers: clicking, keyboard shortcuts, or voice input!"@
    &&& strs(s.steps@[1].highlight_elements@) == seq!["answer_area"@]
    &&& (s.steps@[1].action matches Some(x10) && (x10 matches DemoAction::SimulateTyping { field: x11, text: x12, delay_ms: x13 } && x11@ == "answer_input"@ && x12@ == "Your answer here"@ && x13 == 100))
    &&& s.steps@[1].navigation == Some(Screen::Training)
    &&& s.steps@[1].wait_for_user
    &&& s.steps@[1].auto_advance_ms is None
    &&& s.steps@[1].validation is None
    &&& s.steps@[1].skip_condition is None
    &&& s.steps@[1].on_enter_script is None
    &&& s.steps@[1].on_exit_script is None
    &&& s.completion_message@ == "🎯 You've mastered the learning session! Time to practice!"@
    &&& (s.completion_rewards@.len() == 3) && ((s.completion_rewards@[0] matches DemoReward::Achievement(x14) && x14@ == "Session Master"@)) && ((s.completion_rewards@[1] matches DemoReward::UnlockFeature(x15) && x15@ == "advanced_hints"@)) && (s.completion_rewards@[2] == DemoReward::Points(250))
    &&& s.allow_skip
    &&& s.allow_restart
    &&& s.track_analytics
}

/// The advanced-features tour, as built in.
pub open spec fn advanced_tour(s: DemoScenario) -> bool {
    &&& s.id@ == "advanced_features"@
    &&& s.name@ == "Advanced Features"@
    &&& s.description@ == "Discover hidden features and power user tips"@
    &&& s.category == DemoCategory::Advanced
    &&& s.difficulty == DemoDifficulty::Advanced
    &&& s.estimated_duration_minutes == 15
    &&& strs(s.prerequisites@) == seq!["learning_session_tour"@]
    &&& s.steps@.len() == 2
    &&& s.steps@[0].id@ == "keyboard_shortcuts"@
    &&& s.steps@[0].title@ == "Keyboard Shortcuts ⌨️"@
    &&& s.steps@[0].description@ == "Power users love shortcuts! Press 'H' for hints, 'Space' to submit, 'N' for next task."@
    &&& s.steps@[0].highlight_elements@.len() == 0
    &&& (s.steps@[0].action matches Some(x16) && (x16 matches DemoAction::ShowTooltip { element: x17, text: x18 } && x17@ == "keyboard_guide"@ && x18@ == "Press '?' anytime to see all shortcuts"@))
    &&& s.steps@[0].navigation is None
    &&& s.steps@[0].wait_for_user
    &&& s.steps@[0].auto_advance_ms is None
    &&& s.steps@[0].validation is None
    &&& s.steps@[0].skip_condition is None
    &&& s.steps@[0].on_enter_script is None
    &&& s.steps@[0].on_exit_script is None
    &&& s.steps@[1].id@ == "easter_eggs"@
    &&& s.steps@[1].title@ == "Hidden Surprises! 🦀"@
    &&& s.steps@[1].description@ == "There are hidden easter eggs throughout the app. Try triple-clicking or typing 'crab'!"@
    &&& s.steps@[1].highlight_elements@.len() == 0
    &&& s.steps@[1].action == Some(DemoAction::TriggerEasterEgg)
    &&& s.steps@[1].navigation is None
    &&& s.steps@[1].wait_for_user
    &&& s.steps@[1].auto_advance_ms is None
    &&& s.steps@[1].validation is None
    &&& s.steps@[1].skip_condition is None
    &&& s.steps@[1].on_enter_script is None
    &&& s.steps@[1].on_exit_script is None
    &&& s.completion_message@ == "🚀 You're now a power user! Enjoy all the advanced features!"@
    &&& (s.completion_rewards@.len() == 3) && ((s.completion_rewards@[0] matches DemoReward::Achievement(x19) && x19@ == "Power User"@)) && ((s.completion_rewards@[1] matches DemoReward::Badge(x20) && x20@ == "Advanced"@)) && (s.completion_rewards@[2] == DemoReward::Points(500))
    &&& s.allow_skip
    &&& !s.allow_restart
    &&& s.track_analytics
}

/// The research tour, as built in. Its second step, `research_metrics`, and
/// that step's text are this library's own: a researcher passes over the
/// introduction, and the tour needs a step to land on after it.
pub open spec fn research_tour_content(s: DemoScenario) -> bool {
    &&& s.id@ == "research_tour"@
    &&& s.name@ == "Research Dashboard"@
    &&& s.description@ == "Learn how to use research and analytics features"@
    &&& s.category == DemoCategory::Research
    &&& s.difficulty == DemoDifficulty::Expert
    &&& s.estimated_duration_minutes == 20
    &&& strs(s.prerequisites@) == seq!["advanced_features"@]
    &&& s.steps@.len() == 2
    &&& s.steps@[0].id@ == "research_intro"@
    &&& s.steps@[0].title@ == "Research Dashboard Overview"@
    &&& s.steps@[0].description@ == "The research dashboard provides deep insights into learning patterns and cognitive metrics."@
    &&& strs(s.steps@[0].highlight_elements@) == seq!["research_dashboard"@]
    &&& s.steps@[0].action is None
    &&& s.steps@[0].navigation == Some(Screen::Analytics)
    &&& s.steps@[0].wait_for_user
    &&& s.steps@[0].auto_advance_ms is None
    &&& s.steps@[0].validation is None
    &&& (s.steps@[0].skip_condition matches Some(x21) && (x21 matches SkipCondition::IfCompleted(x22) && x22@ == "researcher_role"@))
    &&& s.steps@[0].on_enter_script is None
    &&& s.steps@[0].on_exit_script is None
    &&& s.steps@[1].id@ == "research_metrics"@
    &&& s.steps@[1].title@ == "Cognitive Metrics"@
    &&& s.steps@[1].description@ == "Explore response-time distributions, learning curves and error patterns for every learner."@
    &&& strs(s.steps@[1].highlight_elements@) == seq!["metrics_panel"@]
    &&& s.steps@[1].action is None
    &&& s.steps@[1].navigation == Some(Screen::Analytics)
    &&& s.steps@[1].wait_for_user
    &&& s.steps@[1].auto_advance_ms is None
    &&& s.steps@[1].validation is None
    &&& s.steps@[1].skip_condition is None
    &&& s.steps@[1].on_enter_script is None
    &&& s.steps@[1].on_exit_script is None
    &&& s.completion_message@ == "🔬 You're ready to conduct learning research!"@
    &&& (s.completion_rewards@.len() == 3) && ((s.completion_rewards@[0] matches DemoReward::Achievement(x23) && x23@ == "Researcher"@)) && ((s.completion_rewards@[1] matches DemoReward::UnlockFeature(x24) && x24@ == "export_data"@)) && ((s.completion_rewards@[2] matches DemoReward::Badge(x25) && x25@ == "Science"@))
    &&& !s.allow_skip
    &&& s.allow_restart
    &&& s.track_analytics
}

/// The quick-tips tour, as built in. Its first step, `tip_overview`, and
/// that step's text are this library's own: it puts the streak tip second,
/// where a learner can skip it.
pub open spec fn tips_tour(s: DemoScenario) -> bool {
    &&& s.id@ == "quick_tips"@
    &&& s.name@ == "Quick Tips"@
    &&& s.description@ == "Short tips to improve your learning"@
    &&& s.category == DemoCategory::Tips
    &&& s.difficulty == DemoDifficulty::Beginner
    &&& s.estimated_duration_minutes == 2
    &&& s.prerequisites@.len() == 0
    &&& s.steps@.len() == 2
    &&& s.steps@[0].id@ == "tip_overview"@
    &&& s.steps@[0].title@ == "Quick Tips 💡"@
    &&& s.steps@[0].description@ == "A few short tips to help you learn more effectively."@
    &&& s.steps@[0].highlight_elements@.len() == 0
    &&& s.steps@[0].action is None
    &&& s.steps@[0].navigation is None
    &&& !s.steps@[0].wait_for_user
    &&& s.steps@[0].auto_advance_ms == Some(3000u64)
    &&& s.steps@[0].validation is None
    &&& s.steps@[0].skip_condition is None
    &&& s.steps@[0].on_enter_script is None
    &&& s.steps@[0].on_exit_script is None
    &&& s.steps@[1].id@ == "tip_streaks"@
    &&& s.steps@[1].title@ == "Build Learning Streaks! 🔥"@
    &&& s.steps@[1].description@ == "Practice daily to build streaks and earn bonus points!"@
    &&& strs(s.steps@[1].highlight_elements@) == seq!["streak_counter"@]
    &&& s.steps@[1].action is None
    &&& s.steps@[1].navigation is None
    &&& !s.steps@[1].wait_for_user
    &&& s.steps@[1].auto_advance_ms == Some(3000u64)
    &&& s.steps@[1].validation is None
    &&& s.steps@[1].skip_condition is None
    &&& s.steps@[1].on_enter_script is None
    &&& s.steps@[1].on_exit_script is None
    &&& s.completion_message@ == "💡 Now you know the secrets to effective learning!"@
    &&& (s.completion_rewards@.len() == 1) && (s.completion_rewards@[0] == DemoReward::Points(50))
    &&& s.allow_skip
    &&& s.allow_restart
    &&& !s.track_analytics
}


/// The built-in tours, in the order they are kept: their ids,
/// prerequisites, steps, skip conditions, rewards and permissions, and
/// everything else each tour holds.
pub open spec fn builtin_tours(s: Seq<DemoScenario>) -> bool {
    &&& s.len() == 5
    &&& forall|i: int| 0 <= i < 5 ==> #[trigger] s[i].id@ == default_scenario_ids()[i]
    &&& strs(s[0].prerequisites@) == Seq::<Seq<char>>::empty()
    &&& strs(s[1].prerequisites@) == seq!["first_time_tour"@]
    &&& strs(s[2].prerequisites@) == seq!["learning_session_tour"@]
    &&& strs(s[3].prerequisites@) == seq!["advanced_features"@]
    &&& strs(s[4].prerequisites@) == Seq::<Seq<char>>::empty()
    &&& step_ids(s[0]) == seq!["welcome"@, "explain_adaptive"@]
    &&& step_ids(s[1]) == seq!["session_start"@, "answer_techniques"@]
    &&& step_ids(s[2]) == seq!["keyboard_shortcuts"@, "easter_eggs"@]
    &&& step_ids(s[3]) == seq!["research_intro"@, "research_metrics"@]
    &&& step_ids(s[4]) == seq!["tip_overview"@, "tip_streaks"@]
    &&& reward_achievements(s[0].completion_rewards@) == seq!["First Steps"@]
    &&& reward_achievements(s[1].completion_rewards@) == seq!["Session Master"@]
    &&& reward_achievements(s[2].completion_rewards@) == seq!["Power User"@]
    &&& reward_achievements(s[3].completion_rewards@) == seq!["Researcher"@]
    &&& reward_achievements(s[4].completion_rewards@) == Seq::<Seq<char>>::empty()
    &&& s[0].allow_skip && s[0].allow_restart
    &&& s[1].allow_skip && s[1].allow_restart
    &&& s[2].allow_skip && !s[2].allow_restart
    &&& !s[3].allow_skip && s[3].allow_restart
    &&& s[4].allow_skip && s[4].allow_restart
    &&& s[3].steps@[0].skip_condition matches Some(SkipCondition::IfCompleted(c)) && c@ == "researcher_role"@
    &&& forall|i: int, j: int| 0 <= i < 5 && 0 <= j < s[i].steps@.len() && !(i == 3 && j == 0)
        ==> (#[trigger] s[i].steps@[j]).skip_condition is None
    &&& welcome_tour(s[0])
    &&& session_tour(s[1])
    &&& advanced_tour(s[2])
    &&& research_tour_content(s[3])
    &&& tips_tour(s[4])
}

/// The built-in tours.
pub fn default_scenarios() -> (r: Vec<DemoScenario>)
    ensures
        builtin_tours(r@),
{
    let v = vec![
    DemoScenario {
        id: owned("first_time_tour"),
        name: owned("Welcome Tour"),
        description: owned("Perfect for first-time users to understand the basics"),
        category: DemoCategory::Onboarding,
        difficulty: DemoDifficulty::Beginner,
        estimated_duration_minutes: 5,
        prerequisites: vec![],
        steps: vec![
        DemoStep {
            id: owned("welcome"),
            title: owned("Welcome to ABCDEEZ! 🎉"),
            description: owned("Let's take a quick tour to get you started with adaptive learning."),
            highlight_elements: vec![],
            action: Some(DemoAction::ShowConfetti),
            navigation: Some(Screen::Welcome),
            wait_for_user: true,
            auto_advance_ms: None,
            validation: None,
            skip_condition: None,
            on_enter_script: Some(owned("analytics.track('demo_started')")),
            on_exit_script: None,
        },
        DemoStep {
            id: owned("explain_adaptive"),
            title: owned("What is Adaptive Learning?"),
            description: owned("Our system adapts to YOUR learning pace and style, making learning more efficient and enjoyable!"),
            highlight_elements: vec![owned("adaptive_info")],
            action: Some(DemoAction::ShowNotification { message: owned("The system learns from your responses!"), type_: NotificationType::Info }),
            navigation: None,
            wait_for_user: true,
            auto_advance_ms: Some(5000),
            validation: None,
            skip_condition: None,
            on_enter_script: None,
            on_exit_script: None,
        }
        ],
        completion_message: owned("🎊 Congratulations! You're ready to start your learning journey!"),
        completion_rewards: vec![DemoReward::Achievement(owned("First Steps")), DemoReward::Points(100)],
        allow_skip: true,
        allow_restart: true,
        track_analytics: true,
    },
    DemoScenario {
        id: owned("learning_session_tour"),
        name: owned("Master the Learning Session"),
        description: owned("Deep dive into all learning session features"),
        category: DemoCategory::Feature,
        difficulty: DemoDifficulty::Intermediate,
        estimated_duration_minutes: 10,
        prerequisites: vec![owned("first_time_tour")],
        steps: vec![
        DemoStep {
            id: owned("session_start"),
            title: owned("Starting Your Learning Session"),
            description: owned("Let's explore how to start and customize your learning experience."),
            highlight_elements: vec![owned("start_session_button")],
            action: Some(DemoAction::HighlightSequence(vec![owned("domain_selector"), owned("difficulty_slider"), owned("session_options")])),
            navigation: Some(Screen::DomainSelection),
            wait_for_user: false,
            auto_advance_ms: Some(3000),
            validation: Some(StepValidation::ElementExists(owned("domain_cards"))),
            skip_condition: None,
            on_enter_script: None,
            on_exit_script: None,
        },
        DemoStep {
            id: owned("answer_techniques"),
            title: owned("Answering Techniques"),
            description: owned("Learn different ways to submit answers: clicking, keyboard shortcuts, or voice input!"),
            highlight_elements: vec![owned("answer_area")],
            action: Some(DemoAction::SimulateTyping { field: owned("answer_input"), text: owned("Your answer here"), delay_ms: 100 }),
            navigation: Some(Screen::Training),
            wait_for_user: true,
            auto_advance_ms: None,
            validation: None,
            skip_condition: None,
            on_enter_script: None,
            on_exit_script: None,
        }
        ],
        completion_message: owned("🎯 You've mastered the learning session! Time to practice!"),
        completion_rewards: vec![DemoReward::Achievement(owned("Session Master")), DemoReward::UnlockFeature(owned("advanced_hints")), DemoReward::Points(250)],
        allow_skip: true,
        allow_restart: true,
        track_analytics: true,
    },
    DemoScenario {
        id: owned("advanced_features"),
        name: owned("Advanced Features"),
        description: owned("Discover hidden features and power user tips"),
        category: DemoCategory::Advanced,
        difficulty: DemoDifficulty::Advanced,
        estimated_duration_minutes: 15,
        prerequisites: vec![owned("learning_session_tour")],
        steps: vec![
        DemoStep {
            id: owned("keyboard_shortcuts"),
            title: owned("Keyboard Shortcuts ⌨️"),
            description: owned("Power users love shortcuts! Press 'H' for hints, 'Space' to submit, 'N' for next task."),
            highlight_elements: vec![],
            action: Some(DemoAction::ShowTooltip { element: owned("keyboard_guide"), text: owned("Press '?' anytime to see all shortcuts") }),
            navigation: None,
            wait_for_user: true,
            auto_advance_ms: None,
            validation: None,
            skip_condition: None,
            on_enter_script: None,
            on_exit_script: None,
        },
        DemoStep {
            id: owned("easter_eggs"),
            title: owned("Hidden Surprises! 🦀"),
            description: owned("There are hidden easter eggs throughout the app. Try triple-clicking or typing 'crab'!"),
            highlight_elements: vec![],
            action: Some(DemoAction::TriggerEasterEgg),
            navigation: None,
            wait_for_user: true,
            auto_advance_ms: None,
            validation: None,
            skip_condition: None,
            on_enter_script: None,
            on_exit_script: None,
        }
        ],
        completion_message: owned("🚀 You're now a power user! Enjoy all the advanced features!"),
        completion_rewards: vec![DemoReward::Achievement(owned("Power User")), DemoReward::Badge(owned("Advanced")), DemoReward::Points(500)],
        allow_skip: true,
        allow_restart: false,
        track_analytics: true,
    },
    DemoScenario {
        id: owned("research_tour"),
        name: owned("Research Dashboard"),
        description: owned("Learn how to use research and analytics features"),
        category: DemoCategory::Research,
        difficulty: DemoDifficulty::Expert,
        estimated_duration_minutes: 20,
        prerequisites: vec![owned("advanced_features")],
        steps: vec![
        DemoStep {
            id: owned("research_intro"),
            title: owned("Research Dashboard Overview"),
            description: owned("The research dashboard provides deep insights into learning patterns and cognitive metrics."),
            highlight_elements: vec![owned("research_dashboard")],
            action: None,
            navigation: Some(Screen::Analytics),
            wait_for_user: true,
            auto_advance_ms: None,
            validation: None,
            skip_condition: Some(SkipCondition::IfCompleted(owned("researcher_role"))),
            on_enter_script: None,
            on_exit_script: None,
        },
        // This library's own step, for a researcher who passes over the
        // introduction.
        DemoStep {
            id: owned("research_metrics"),
            title: owned("Cognitive Metrics"),
            description: owned("Explore response-time distributions, learning curves and error patterns for every learner."),
            highlight_elements: vec![owned("metrics_panel")],
            action: None,
            navigation: Some(Screen::Analytics),
            wait_for_user: true,
            auto_advance_ms: None,
            validation: None,
            skip_condition: None,
            on_enter_script: None,
            on_exit_script: None,
        }
        ],
        completion_message: owned("🔬 You're ready to conduct learning research!"),
        completion_rewards: vec![DemoReward::Achievement(owned("Researcher")), DemoReward::UnlockFeature(owned("export_data")), DemoReward::Badge(owned("Science"))],
        allow_skip: false,
        allow_restart: true,
        track_analytics: true,
    },
    DemoScenario {
        id: owned("quick_tips"),
        name: owned("Quick Tips"),
        description: owned("Short tips to improve your learning"),
        category: DemoCategory::Tips,
        difficulty: DemoDifficulty::Beginner,
        estimated_duration_minutes: 2,
        prerequisites: vec![],
        steps: vec![
        // This library's own step, ahead of the streak tip.
        DemoStep {
            id: owned("tip_overview"),
            title: owned("Quick Tips 💡"),
            description: owned("A few short tips to help you learn more effectively."),
            highlight_elements: vec![],
            action: None,
            navigation: None,
            wait_for_user: false,
            auto_advance_ms: Some(3000),
            validation: None,
            skip_condition: None,
            on_enter_script: None,
            on_exit_script: None,
        },
        DemoStep {
            id: owned("tip_streaks"),
            title: owned("Build Learning Streaks! 🔥"),
            description: owned("Practice daily to build streaks and earn bonus points!"),
            highlight_elements: vec![owned("streak_counter")],
            action: None,
            navigation: None,
            wait_for_user: false,
            auto_advance_ms: Some(3000),
            validation: None,
            skip_condition: None,
            on_enter_script: None,
            on_exit_script: None,
        }
        ],
        completion_message: owned("💡 Now you know the secrets to effective learning!"),
        completion_rewards: vec![DemoReward::Points(50)],
        allow_skip: true,
        allow_restart: true,
        track_analytics: false,
    }
    ];
    proof {
        assert(step_ids(v@[0]) =~= seq!["welcome"@, "explain_adaptive"@]);
        assert(step_ids(v@[1]) =~= seq!["session_start"@, "answer_techniques"@]);
        assert(step_ids(v@[2]) =~= seq!["keyboard_shortcuts"@, "easter_eggs"@]);
        assert(step_ids(v@[3]) =~= seq!["research_intro"@, "research_metrics"@]);
        assert(step_ids(v@[4]) =~= seq!["tip_overview"@, "tip_streaks"@]);
        assert(strs(v@[0].prerequisites@) =~= Seq::<Seq<char>>::empty());
        assert(strs(v@[1].prerequisites@) =~= seq!["first_time_tour"@]);
        assert(strs(v@[2].prerequisites@) =~= seq!["learning_session_tour"@]);
        assert(strs(v@[3].prerequisites@) =~= seq!["advanced_features"@]);
        assert(strs(v@[4].prerequisites@) =~= Seq::<Seq<char>>::empty());
        reveal_with_fuel(reward_achievements, 4);
        assert(v@[0].completion_rewards@.drop_last().drop_last() =~= Seq::<DemoReward>::empty());
        assert(reward_achievements(v@[0].completion_rewards@) =~= seq!["First Steps"@]);
        assert(v@[1].completion_rewards@.drop_last().drop_last().drop_last() =~= Seq::<DemoReward>::empty());
        assert(reward_achievements(v@[1].completion_rewards@) =~= seq!["Session Master"@]);
        assert(v@[2].completion_rewards@.drop_last().drop_last().drop_last() =~= Seq::<DemoReward>::empty());
        assert(reward_achievements(v@[2].completion_rewards@) =~= seq!["Power User"@]);
        assert(v@[3].completion_rewards@.drop_last().drop_last().drop_last() =~= Seq::<DemoReward>::empty());
        assert(reward_achievements(v@[3].completion_rewards@) =~= seq!["Researcher"@]);
        assert(v@[4].completion_rewards@.drop_last() =~= Seq::<DemoReward>::empty());
        assert(reward_achievements(v@[4].completion_rewards@) =~= Seq::<Seq<char>>::empty());
        assert(strs(v@[0].steps@[1].highlight_elements@) =~= seq!["adaptive_info"@]);
        assert(strs(v@[1].steps@[0].highlight_elements@) =~= seq!["start_session_button"@]);
        assert((v@[1].steps@[0].action matches Some(x6) && (x6 matches DemoAction::HighlightSequence(x7) && strs(x7@) =~= seq!["domain_selector"@, "difficulty_slider"@, "session_options"@])));
        assert(strs(v@[1].steps@[1].highlight_elements@) =~= seq!["answer_area"@]);
        assert(strs(v@[3].steps@[0].highlight_elements@) =~= seq!["research_dashboard"@]);
        assert(strs(v@[3].steps@[1].highlight_elements@) =~= seq!["metrics_panel"@]);
        assert(strs(v@[4].steps@[1].highlight_elements@) =~= seq!["streak_counter"@]);
        assert(welcome_tour(v@[0]));
        assert(session_tour(v@[1]));
        assert(advanced_tour(v@[2]));
        assert(research_tour_content(v@[3]));
        assert(tips_tour(v@[4]));
    }
    v
}


/// Whether each scenario has its own identifier.
pub open spec fn unique_ids(s: Seq<DemoScenario>) -> bool {
    forall|i: int, j: int| 0 <= i < s.len() && 0 <= j < s.len() && i != j ==> s[i].id@ != s[j].id@
}

/// Whether a skip condition holds, given the completed scenarios and the
/// local hour.
pub open spec fn skip_met(c: SkipCondition, completed: Seq<Seq<char>>, hour: u32) -> bool {
    match c {
        SkipCondition::IfCompleted(name) => completed.contains(name@),
        SkipCondition::IfState(_) => false,
        SkipCondition::IfTime { before_hour, after_hour } => hour < before_hour || hour > after_hour,
    }
}

/// Whether a step is passed over.
pub open spec fn step_skipped(st: DemoStep, completed: Seq<Seq<char>>, hour: u32) -> bool {
    match st.skip_condition {
        Some(c) => skip_met(c, completed, hour),
        None => false,
    }
}

/// The index at which a tour lands when it leaves step `i`: the next step
/// that is not passed over, or the number of steps when the tour ends.
pub open spec fn landing(steps: Seq<DemoStep>, i: int, completed: Seq<Seq<char>>, hour: u32) -> int
    decreases steps.len() - i,
{
    if i + 1 >= steps.len() {
        steps.len() as int
    } else if step_skipped(steps[i + 1], completed, hour) {
        landing(steps, i + 1, completed, hour)
    } else {
        i + 1
    }
}

/// The identifiers of the steps `from .. to`.
pub open spec fn step_id_range(steps: Seq<DemoStep>, from: int, to: int) -> Seq<Seq<char>> {
    steps.subrange(from, to).map_values(|st: DemoStep| st.id@)
}

/// Whether a title marks its step as important.
pub open spec fn is_important(t: Seq<char>) -> bool {
    exists|i: int| 0 <= i && i + 9 <= t.len() && #[trigger] t.subrange(i, i + 9) == "Important"@
}

/// The style given to the elements of a step with the title `t`: the
/// default, or a shaking orange-red border for important steps.
pub open spec fn style_for(s: HighlightStyle, t: Seq<char>) -> bool {
    if is_important(t) {
        &&& s.color@ == "#FF5722"@
        &&& s.animation == HighlightAnimation::Shake
        &&& s.opacity_percent == 30
        &&& s.border_width_px == 3
        &&& s.z_index == 9999
        &&& s.pointer_events
        &&& !s.dim_background
    } else {
        is_default_style(s)
    }
}

/// The highlights that show a step.
pub open spec fn highlights_for(h: Seq<(String, HighlightStyle)>, st: DemoStep) -> bool {
    &&& h.len() == st.highlight_elements@.len()
    &&& forall|i: int| 0 <= i < h.len() ==> (#[trigger] h[i]).0@ == st.highlight_elements@[i]@
        && style_for(h[i].1, st.title@)
}

/// The tooltips that show a step: the one its action names, if any.
pub open spec fn tooltips_for(t: Seq<(String, String)>, st: DemoStep) -> bool {
    match st.action {
        Some(DemoAction::ShowTooltip { element, text }) => t.len() == 1 && t[0].0@ == element@
            && t[0].1@ == text@,
        _ => t.len() == 0,
    }
}

/// The progress entries of started tours, by scenario.
pub open spec fn progress_ids(v: Seq<DemoProgress>) -> Seq<Seq<char>> {
    v.map_values(|p: DemoProgress| p.scenario_id@)
}

/// The guided-tour engine.
pub struct DemoController {
    pub scenarios: Vec<DemoScenario>,
    /// The position of the running tour in `scenarios`.
    pub current_scenario: Option<usize>,
    pub current_step_index: usize,
    pub highlights: Vec<(String, HighlightStyle)>,
    pub is_active: bool,
    pub is_paused: bool,
    pub step_history: Vec<String>,
    pub tooltips: Vec<(String, String)>,
    pub state: DemoState,
    pub analytics: DemoAnalytics,
    /// Monotonic time (ns) at which the current step began.
    pub step_timer: Option<u128>,
    /// Monotonic time (ns) at which the current step advances by itself.
    pub auto_advance_timer: Option<u128>,
    pub user_interactions: VecDeque<UserInteraction>,
    /// Speed of animations and delays, in percent of normal.
    pub demo_speed_percent: u32,
    pub voice_enabled: bool,
    pub subtitle_enabled: bool,
    pub keyboard_shortcuts_enabled: bool,
    /// The monotonic time from which `DemoTick::mono_ns` counts.
    pub origin: Instant,
}

/// At most this many learner inputs are kept.
pub const MAX_INTERACTIONS: usize = 100;

impl DemoController {
    /// The steps of the running tour.
    pub open spec fn current_steps(self) -> Seq<DemoStep> {
        self.scenarios@[self.current_scenario.unwrap() as int].steps@
    }

    /// The step being shown, if a tour runs.
    pub open spec fn current_step_view(self) -> Option<DemoStep> {
        if self.current_scenario is Some {
            Some(self.current_steps()[self.current_step_index as int])
        } else {
            None
        }
    }

    /// The controller's invariant.
    pub open spec fn wf(self) -> bool {
        &&& unique_ids(self.scenarios@)
        &&& forall|i: int| 0 <= i < self.scenarios@.len() ==> #[trigger] self.scenarios@[i].steps@.len() > 0
        &&& self.is_active == self.current_scenario is Some
        &&& self.current_scenario matches Some(k) ==> k < self.scenarios@.len()
            && self.current_step_index < self.scenarios@[k as int].steps@.len()
        &&& self.user_interactions@.len() <= MAX_INTERACTIONS
        &&& 10 <= self.demo_speed_percent <= 500
    }

    /// The names of completed scenarios.
    pub open spec fn completed_view(self) -> Seq<Seq<char>> {
        strs(self.state.completed_scenarios@)
    }

    /// A controller with the built-in tours and nothing running.
    pub fn new() -> (r: Self)
        ensures
            r.wf(),
            !r.is_active,
            !r.is_paused,
            builtin_tours(r.scenarios@),
            r.state.completed_scenarios@.len() == 0,
            r.state.started_scenarios@.len() == 0,
            r.state.achievements@.len() == 0,
            r.state.skip_count == 0,
            r.state.restart_count == 0,
            r.state.total_time_spent_ns == 0,
            r.demo_speed_percent == 100,
            r.current_scenario is None,
            r.current_step_index == 0,
            r.highlights@.len() == 0,
            r.tooltips@.len() == 0,
            r.step_history@.len() == 0,
            r.analytics.step_durations@.len() == 0,
            r.analytics.step_failures@.len() == 0,
            r.analytics.step_skips@.len() == 0,
            r.analytics.help_requests@.len() == 0,
            r.analytics.drop_off_points@.len() == 0,
            r.step_timer is None,
            r.auto_advance_timer is None,
            r.user_interactions@.len() == 0,
            !r.voice_enabled,
            r.subtitle_enabled,
            r.keyboard_shortcuts_enabled,
    {
        let scenarios = default_scenarios();
        proof {
            reveal_strlit("first_time_tour");
            reveal_strlit("learning_session_tour");
            reveal_strlit("advanced_features");
            reveal_strlit("research_tour");
            reveal_strlit("quick_tips");
            assert(unique_ids(scenarios@)) by {
                assert forall|i: int, j: int| 0 <= i < 5 && 0 <= j < 5 && i != j
                    implies scenarios@[i].id@ != scenarios@[j].id@ by {
                    assert(scenarios@[i].id@ == default_scenario_ids()[i]);
                    assert(scenarios@[j].id@ == default_scenario_ids()[j]);
                    assert("learning_session_tour"@[0] != "first_time_tour"@[0]);
                    assert("advanced_features"@[0] != "first_time_tour"@[0]);
                    assert("research_tour"@[0] != "first_time_tour"@[0]);
                    assert("quick_tips"@[0] != "first_time_tour"@[0]);
                    assert("advanced_features"@[0] != "learning_session_tour"@[0]);
                    assert("research_tour"@[0] != "learning_session_tour"@[0]);
                    assert("quick_tips"@[0] != "learning_session_tour"@[0]);
                    assert("research_tour"@[0] != "advanced_features"@[0]);
                    assert("quick_tips"@[0] != "advanced_features"@[0]);
                    assert("quick_tips"@[0] != "research_tour"@[0]);
                }
            }
            assert forall|i: int| 0 <= i < scenarios@.len() implies #[trigger] scenarios@[i].steps@.len() > 0 by {
                assert(step_ids(scenarios@[i]).len() == scenarios@[i].steps@.len());
            }
        }
        DemoController {
            scenarios,
            current_scenario: None,
            current_step_index: 0,
            highlights: Vec::new(),
            is_active: false,
            is_paused: false,
            step_history: Vec::new(),
            tooltips: Vec::new(),
            state: DemoState {
                completed_scenarios: Vec::new(),
                started_scenarios: Vec::new(),
                total_time_spent_ns: 0,
                achievements: Vec::new(),
                skip_count: 0,
                restart_count: 0,
            },
            analytics: DemoAnalytics {
                step_durations: Vec::new(),
                step_failures: Vec::new(),
                step_skips: Vec::new(),
                help_requests: Vec::new(),
                drop_off_points: Vec::new(),
            },
            step_timer: None,
            auto_advance_timer: None,
            user_interactions: VecDeque::with_capacity(100),
            demo_speed_percent: 100,
            voice_enabled: false,
            subtitle_enabled: true,
            keyboard_shortcuts_enabled: true,
            origin: instant_now(),
        }
    }

    /// Reads the clocks for one operation.
    pub fn read_clock(&self) -> (t: DemoTick)
        ensures
            t.now_ms >= 0,
            t.hour < 24,
    {
        DemoTick { now_ms: utc_now_millis(), mono_ns: elapsed_nanos(&self.origin), hour: local_hour() }
    }

    /// The number of available tours.
    pub fn scenario_count(&self) -> (r: usize)
        ensures
            r == self.scenarios@.len(),
    {
        self.scenarios.len()
    }

    /// The position of the tour with the given identifier.
    pub fn scenario_index(&self, id: &str) -> (r: Option<usize>)
        ensures
            r matches Some(k) ==> k < self.scenarios@.len() && self.scenarios@[k as int].id@ == id@,
            r is None ==> forall|k: int| 0 <= k < self.scenarios@.len() ==> #[trigger] self.scenarios@[k].id@ != id@,
    {
        let mut k: usize = 0;
        while k < self.scenarios.len()
            invariant
                k <= self.scenarios@.len(),
                forall|j: int| 0 <= j < k ==> #[trigger] self.scenarios@[j].id@ != id@,
            decreases self.scenarios@.len() - k,
        {
            if str_eq(self.scenarios[k].id.as_str(), id) {
                return Some(k);
            }
            k = k + 1;
        }
        None
    }

    /// Whether a tour with the given identifier exists.
    pub fn has_scenario(&self, id: &str) -> (r: bool)
        ensures
            r == exists|k: int| 0 <= k < self.scenarios@.len() && #[trigger] self.scenarios@[k].id@ == id@,
    {
        match self.scenario_index(id) {
            Some(k) => true,
            None => false,
        }
    }
}


/// Whether `t` contains the word "Important".
pub fn contains_important(t: &str) -> (r: bool)
    ensures
        r == is_important(t@),
{
    let n = t.unicode_len();
    let w = "Important";
    proof {
        reveal_strlit("Important");
    }
    if n < 9 {
        return false;
    }
    let mut i: usize = 0;
    while i <= n - 9
        invariant
            n == t@.len(),
            n >= 9,
            w@ == "Important"@,
            w@.len() == 9,
            i <= n - 8,
            forall|j: int| 0 <= j < i ==> #[trigger] t@.subrange(j, j + 9) != "Important"@,
        decreases n - i,
    {
        let mut k: usize = 0;
        let mut same = true;
        while k < 9
            invariant
                n == t@.len(),
                i + 9 <= n,
                w@ == "Important"@,
                w@.len() == 9,
                k <= 9,
                same == forall|m: int| 0 <= m < k ==> t@[i + m] == w@[m],
            decreases 9 - k,
        {
            if t.get_char(i + k) != w.get_char(k) {
                same = false;
            }
            k = k + 1;
        }
        if same {
            assert(t@.subrange(i as int, i + 9) =~= "Important"@);
            return true;
        }
        assert(t@.subrange(i as int, i + 9) != "Important"@) by {
            let m = choose|m: int| 0 <= m < 9 && t@[i + m] != w@[m];
            assert(t@.subrange(i as int, i + 9)[m] == t@[i + m]);
        }
        i = i + 1;
    }
    false
}

/// The position of the progress entry of a scenario.
fn progress_position(v: &Vec<DemoProgress>, id: &str) -> (r: Option<usize>)
    ensures
        r matches Some(p) ==> p < v@.len() && v@[p as int].scenario_id@ == id@,
        r is None ==> !progress_ids(v@).contains(id@),
{
    let mut i: usize = 0;
    while i < v.len()
        invariant
            i <= v@.len(),
            forall|j: int| 0 <= j < i ==> #[trigger] v@[j].scenario_id@ != id@,
        decreases v@.len() - i,
    {
        if str_eq(v[i].scenario_id.as_str(), id) {
            return Some(i);
        }
        i = i + 1;
    }
    assert forall|j: int| 0 <= j < progress_ids(v@).len() implies progress_ids(v@)[j] != id@ by {
        assert(progress_ids(v@)[j] == v@[j].scenario_id@);
    }
    None
}

/// Whether `j` is the first position of `key` among the keys of `m`.
pub open spec fn first_at<V>(m: Seq<(Seq<char>, V)>, key: Seq<char>, j: int) -> bool {
    &&& 0 <= j < m.len()
    &&& m[j].0 == key
    &&& forall|i: int| 0 <= i < j ==> (#[trigger] m[i]).0 != key
}

/// The first position of `key` among the keys of `m`, when it is there:
/// where a keyed table finds the entry of `key`.
pub open spec fn position_of<V>(m: Seq<(Seq<char>, V)>, key: Seq<char>) -> Option<int> {
    if exists|j: int| first_at(m, key, j) {
        Some(choose|j: int| first_at(m, key, j))
    } else {
        None
    }
}

/// A key has one first position.
pub proof fn lemma_first_position<V>(m: Seq<(Seq<char>, V)>, key: Seq<char>, j: int)
    requires
        first_at(m, key, j),
    ensures
        position_of(m, key) == Some(j),
{
    let c = choose|x: int| first_at(m, key, x);
    assert(first_at(m, key, c));
    if c < j {
        assert(m[c].0 != key);
    } else if j < c {
        assert(m[j].0 != key);
    }
}

/// A key that some entry has has a position.
pub proof fn lemma_some_position<V>(m: Seq<(Seq<char>, V)>, key: Seq<char>, i: int)
    requires
        0 <= i < m.len(),
        m[i].0 == key,
    ensures
        position_of(m, key) is Some,
    decreases i,
{
    if exists|x: int| 0 <= x < i && (#[trigger] m[x]).0 == key {
        let x = choose|x: int| 0 <= x < i && (#[trigger] m[x]).0 == key;
        lemma_some_position(m, key, x);
    } else {
        assert(first_at(m, key, i));
    }
}

/// A key that no entry has has no position.
pub proof fn lemma_no_position<V>(m: Seq<(Seq<char>, V)>, key: Seq<char>)
    requires
        forall|j: int| 0 <= j < m.len() ==> (#[trigger] m[j]).0 != key,
    ensures
        position_of(m, key) is None,
{
    if exists|j: int| first_at(m, key, j) {
        let c = choose|j: int| first_at(m, key, j);
        assert(m[c].0 != key);
    }
}

/// A keyed table by its keys' text.
pub open spec fn keyed<V>(v: Seq<(String, V)>) -> Seq<(Seq<char>, V)> {
    v.map_values(|e: (String, V)| (e.0@, e.1))
}

/// A table of duration lists by its keys' text.
pub open spec fn durations_view(v: Seq<(String, Vec<u128>)>) -> Seq<(Seq<char>, Seq<u128>)> {
    v.map_values(|e: (String, Vec<u128>)| (e.0@, e.1@))
}

/// The count kept under `key`, or zero.
pub open spec fn count_in(m: Seq<(Seq<char>, u32)>, key: Seq<char>) -> u32 {
    match position_of(m, key) {
        Some(j) => m[j].1,
        None => 0,
    }
}

/// `m` with the counter of `key` raised by one, or started at one at the
/// end.
pub open spec fn with_count(m: Seq<(Seq<char>, u32)>, key: Seq<char>) -> Seq<(Seq<char>, u32)> {
    match position_of(m, key) {
        Some(j) => m.update(j, (key, (m[j].1 + 1) as u32)),
        None => m.push((key, 1u32)),
    }
}

/// `m` with `d` added to the list of `key`, or a new list of `d` at the
/// end.
pub open spec fn with_duration(m: Seq<(Seq<char>, Seq<u128>)>, key: Seq<char>, d: u128) -> Seq<
    (Seq<char>, Seq<u128>),
> {
    match position_of(m, key) {
        Some(j) => m.update(j, (key, m[j].1.push(d))),
        None => m.push((key, seq![d])),
    }
}

/// Counting under `key` raises the count read under `key` by one and leaves
/// the count read under every other key as it was.
pub proof fn lemma_count_read_after_bump(m: Seq<(Seq<char>, u32)>, key: Seq<char>, other: Seq<char>)
    requires
        count_in(m, key) < u32::MAX,
    ensures
        count_in(with_count(m, key), key) == count_in(m, key) + 1,
        other != key ==> count_in(with_count(m, key), other) == count_in(m, other),
{
    let n = with_count(m, key);
    match position_of(m, key) {
        Some(j) => {
            assert(first_at(m, key, j));
            assert(first_at(n, key, j)) by {
                assert forall|i: int| 0 <= i < j implies (#[trigger] n[i]).0 != key by {
                    assert(n[i] == m[i]);
                }
            }
            lemma_first_position(n, key, j);
        },
        None => {
            assert forall|i: int| 0 <= i < m.len() implies (#[trigger] m[i]).0 != key by {
                if m[i].0 == key {
                    lemma_some_position(m, key, i);
                }
            }
            assert(first_at(n, key, m.len() as int)) by {
                assert forall|i: int| 0 <= i < m.len() implies (#[trigger] n[i]).0 != key by {
                    assert(n[i] == m[i]);
                }
            }
            lemma_first_position(n, key, m.len() as int);
        },
    }
    if other != key {
        match position_of(m, other) {
            Some(j) => {
                assert(first_at(m, other, j));
                assert(first_at(n, other, j)) by {
                    assert forall|i: int| 0 <= i < j implies (#[trigger] n[i]).0 != other by {
                        assert(n[i].0 == m[i].0);
                    }
                    assert(n[j].0 == m[j].0);
                }
                lemma_first_position(n, other, j);
            },
            None => {
                assert forall|i: int| 0 <= i < m.len() implies (#[trigger] m[i]).0 != other by {
                    if m[i].0 == other {
                        lemma_some_position(m, other, i);
                    }
                }
                assert forall|i: int| 0 <= i < n.len() implies (#[trigger] n[i]).0 != other by {
                    if i < m.len() {
                        assert(n[i].0 == m[i].0);
                    }
                }
                lemma_no_position(n, other);
            },
        }
    }
}

/// Adds one to the counter of `key`, starting it at one.
pub fn bump_counter(v: &mut Vec<(String, u32)>, key: &str)
    requires
        count_in(keyed(old(v)@), key@) < u32::MAX,
    ensures
        keyed(final(v)@) == with_count(keyed(old(v)@), key@),
{
    let mut i: usize = 0;
    while i < v.len()
        invariant
            i <= v@.len(),
            v@ == old(v)@,
            count_in(keyed(old(v)@), key@) < u32::MAX,
            forall|j: int| 0 <= j < i ==> #[trigger] v@[j].0@ != key@,
        decreases v@.len() - i,
    {
        if str_eq(v[i].0.as_str(), key) {
            proof {
                assert forall|j: int| 0 <= j < i implies (#[trigger] keyed(v@)[j]).0 != key@ by {
                    assert(keyed(v@)[j].0 == v@[j].0@);
                }
                lemma_first_position(keyed(v@), key@, i as int);
            }
            assert(count_in(keyed(v@), key@) == v@[i as int].1);
            let (name, c) = v.remove(i);
            assert(c == old(v)@[i as int].1);
            v.insert(i, (name, c + 1));
            assert(keyed(v@) =~= keyed(old(v)@).update(i as int, (key@, (c + 1) as u32)));
            return;
        }
        i = i + 1;
    }
    proof {
        assert forall|j: int| 0 <= j < keyed(v@).len() implies (#[trigger] keyed(v@)[j]).0 != key@ by {
            assert(keyed(v@)[j].0 == v@[j].0@);
        }
        lemma_no_position(keyed(v@), key@);
    }
    v.push((owned(key), 1));
    assert(keyed(v@) =~= keyed(old(v)@).push((key@, 1u32)));
}

/// The count kept under `key`, or zero.
pub fn counter_value(v: &Vec<(String, u32)>, key: &str) -> (r: u32)
    ensures
        r == count_in(keyed(v@), key@),
{
    let mut i: usize = 0;
    while i < v.len()
        invariant
            i <= v@.len(),
            forall|j: int| 0 <= j < i ==> #[trigger] v@[j].0@ != key@,
        decreases v@.len() - i,
    {
        if str_eq(v[i].0.as_str(), key) {
            proof {
                assert forall|j: int| 0 <= j < i implies (#[trigger] keyed(v@)[j]).0 != key@ by {
                    assert(keyed(v@)[j].0 == v@[j].0@);
                }
                lemma_first_position(keyed(v@), key@, i as int);
            }
            return v[i].1;
        }
        i = i + 1;
    }
    proof {
        assert forall|j: int| 0 <= j < keyed(v@).len() implies (#[trigger] keyed(v@)[j]).0 != key@ by {
            assert(keyed(v@)[j].0 == v@[j].0@);
        }
        lemma_no_position(keyed(v@), key@);
    }
    0
}

/// Appends one duration to the list kept under `key`.
fn record_duration(v: &mut Vec<(String, Vec<u128>)>, key: &str, d: u128)
    ensures
        durations_view(final(v)@) == with_duration(durations_view(old(v)@), key@, d),
{
    let mut i: usize = 0;
    while i < v.len()
        invariant
            i <= v@.len(),
            v@ == old(v)@,
            forall|j: int| 0 <= j < i ==> #[trigger] v@[j].0@ != key@,
        decreases v@.len() - i,
    {
        if str_eq(v[i].0.as_str(), key) {
            proof {
                assert forall|j: int| 0 <= j < i implies (#[trigger] durations_view(v@)[j]).0 != key@ by {
                    assert(durations_view(v@)[j].0 == v@[j].0@);
                }
                lemma_first_position(durations_view(v@), key@, i as int);
            }
            let mut entry = v.remove(i);
            let ghost before = entry.1@;
            entry.1.push(d);
            v.insert(i, entry);
            assert(durations_view(v@) =~= durations_view(old(v)@).update(i as int, (key@, before.push(d))));
            return;
        }
        i = i + 1;
    }
    proof {
        assert forall|j: int| 0 <= j < durations_view(v@).len() implies (#[trigger] durations_view(v@)[j]).0 != key@ by {
            assert(durations_view(v@)[j].0 == v@[j].0@);
        }
        lemma_no_position(durations_view(v@), key@);
    }
    let mut ds: Vec<u128> = Vec::new();
    ds.push(d);
    v.push((owned(key), ds));
    assert(durations_view(v@) =~= durations_view(old(v)@).push((key@, seq![d])));
}

/// The monotonic deadline (ns) of a step that advances by itself after
/// `ms` milliseconds at `speed` percent of normal speed.
pub open spec fn auto_deadline(mono: u128, ms: u64, speed: u32) -> u128 {
    let adj = (ms as int * 100 / speed as int) * 1_000_000;
    if mono + adj > u128::MAX { u128::MAX } else { (mono + adj) as u128 }
}

/// Whether each started tour has one progress entry.
pub open spec fn unique_progress(v: Seq<DemoProgress>) -> bool {
    forall|i: int, j: int| 0 <= i < v.len() && 0 <= j < v.len() && i != j ==> v[i].scenario_id@ != v[j].scenario_id@
}

/// The first of `p` that is not in `completed`.
pub open spec fn first_missing(p: Seq<Seq<char>>, completed: Seq<Seq<char>>) -> Option<Seq<char>>
    decreases p.len(),
{
    if p.len() == 0 {
        None
    } else if !completed.contains(p[0]) {
        Some(p[0])
    } else {
        first_missing(p.drop_first(), completed)
    }
}

/// The step at which a tour starts: the first step, or where the tour
/// lands from it when the first step is passed over.
pub open spec fn start_landing(steps: Seq<DemoStep>, completed: Seq<Seq<char>>, hour: u32) -> int {
    if step_skipped(steps[0], completed, hour) { landing(steps, 0, completed, hour) } else { 0 }
}

/// Everything but the visible state of a tour is as in `a`.
pub open spec fn same_setup(a: DemoController, b: DemoController) -> bool {
    &&& b.scenarios == a.scenarios
    &&& b.state.skip_count == a.state.skip_count
    &&& b.state.restart_count == a.state.restart_count
    &&& b.state.total_time_spent_ns == a.state.total_time_spent_ns
    &&& b.analytics.step_skips == a.analytics.step_skips
    &&& b.analytics.step_failures == a.analytics.step_failures
    &&& b.analytics.help_requests == a.analytics.help_requests
    &&& b.analytics.drop_off_points == a.analytics.drop_off_points
    &&& b.user_interactions == a.user_interactions
    &&& b.demo_speed_percent == a.demo_speed_percent
    &&& b.is_paused == a.is_paused
}

/// `b` shows step `l` of scenario `k`, reached at `tick`.
pub open spec fn showing(b: DemoController, k: int, l: int, tick: DemoTick) -> bool {
    let steps = b.scenarios@[k].steps@;
    let id = b.scenarios@[k].id@;
    &&& b.is_active
    &&& b.current_scenario == Some(k as usize)
    &&& b.current_step_index == l
    &&& highlights_for(b.highlights@, steps[l])
    &&& tooltips_for(b.tooltips@, steps[l])
    &&& b.step_timer == Some(tick.mono_ns)
    &&& forall|j: int| 0 <= j < b.state.started_scenarios@.len() && (#[trigger] b.state.started_scenarios@[j]).scenario_id@ == id
        ==> b.state.started_scenarios@[j].current_step == l
}

/// `b` is `a` after scenario `k` was completed.
pub open spec fn completed_from(a: DemoController, b: DemoController, k: int) -> bool {
    let id = a.scenarios@[k].id@;
    let done = a.completed_view();
    &&& !b.is_active
    &&& b.current_scenario is None
    &&& b.completed_view() == (if done.contains(id) { done } else { done.push(id) })
    &&& strs(b.state.achievements@) == strs(a.state.achievements@) + reward_achievements(a.scenarios@[k].completion_rewards@)
    &&& !progress_ids(b.state.started_scenarios@).contains(id)
}

/// `b` is `a` with the current step of the running tour put on screen at
/// monotonic time `mono_ns`: its highlights and tooltips, and its
/// self-advance deadline when it advances by itself.
pub open spec fn shown_afresh(a: DemoController, b: DemoController, mono_ns: u128) -> bool {
    let st = a.current_step_view().unwrap();
    &&& highlights_for(b.highlights@, st)
    &&& tooltips_for(b.tooltips@, st)
    &&& b.auto_advance_timer == (match st.auto_advance_ms {
        Some(ms) => Some(auto_deadline(mono_ns, ms, a.demo_speed_percent)),
        None => a.auto_advance_timer,
    })
    &&& b == (DemoController {
        highlights: b.highlights,
        tooltips: b.tooltips,
        auto_advance_timer: b.auto_advance_timer,
        ..a
    })
}

/// `b` is `a` after going back one step at monotonic time `mono_ns`, which
/// happens (`r`) when a tour runs and is past its first step.
pub open spec fn went_back(a: DemoController, b: DemoController, mono_ns: u128, r: bool) -> bool {
    &&& r == (a.is_active && a.current_step_index > 0)
    &&& !r ==> b == a
    &&& r ==> shown_afresh(
        DemoController { current_step_index: (a.current_step_index - 1) as usize, step_timer: Some(mono_ns), ..a },
        b,
        mono_ns,
    )
}

/// `b` is `a` after a restart of the running tour at monotonic time
/// `mono_ns`, answered with `r`.
pub open spec fn restarted(a: DemoController, b: DemoController, mono_ns: u128, r: Result<(), String>) -> bool {
    &&& !a.is_active ==> b == a && (r matches Err(e) && e@ == "No active scenario"@)
    &&& a.is_active && !a.scenarios@[a.current_scenario.unwrap() as int].allow_restart ==> b == a && (r matches Err(
        e,
    ) && e@ == "This demo doesn't allow restarting"@)
    &&& a.is_active && a.scenarios@[a.current_scenario.unwrap() as int].allow_restart ==> {
        &&& r is Ok
        &&& b.step_history@.len() == 0
        &&& shown_afresh(
            DemoController {
                state: DemoState { restart_count: (a.state.restart_count + 1) as u32, ..a.state },
                current_step_index: 0,
                step_history: b.step_history,
                ..a
            },
            b,
            mono_ns,
        )
    }
}

/// `b` is `a` resumed at monotonic time `mono_ns`, the current step timed
/// from then.
pub open spec fn resumed(a: DemoController, b: DemoController, mono_ns: u128) -> bool {
    b == (DemoController { is_paused: false, step_timer: Some(mono_ns), ..a })
}

/// `b` is `a` after passing over the current step at `tick`, answered
/// with `r`: the skip is counted, in all and for the step, and the tour
/// leaves the step as `advanced` says (a paused tour stays where it is).
pub open spec fn skipped_step(a: DemoController, b: DemoController, tick: DemoTick, r: Result<bool, String>) -> bool {
    &&& !a.is_active ==> b == a && (r matches Err(e) && e@ == "No active scenario"@)
    &&& a.is_active && !a.scenarios@[a.current_scenario.unwrap() as int].allow_skip ==> b == a && (r matches Err(e)
        && e@ == "This demo doesn't allow skipping"@)
    &&& a.is_active && a.scenarios@[a.current_scenario.unwrap() as int].allow_skip ==> {
        let mid = DemoController {
            state: DemoState { skip_count: (a.state.skip_count + 1) as u32, ..a.state },
            analytics: DemoAnalytics { step_skips: b.analytics.step_skips, ..a.analytics },
            ..a
        };
        &&& keyed(b.analytics.step_skips@) == with_count(keyed(a.analytics.step_skips@), a.current_step_view().unwrap().id@)
        &&& if a.is_paused {
            b == mid && r == Ok::<bool, String>(false)
        } else {
            advanced(mid, b, tick, r)
        }
    }
}

/// `b` is `a` after a check of the self-advance deadline at `tick`: a
/// running tour whose deadline has passed leaves its step as `advanced`
/// says (the deadline cleared), and the time spent in the step shown is
/// noted; a paused or finished tour does not change.
pub open spec fn updated(a: DemoController, b: DemoController, tick: DemoTick) -> bool {
    &&& !a.is_active || a.is_paused ==> b == a
    &&& a.is_active && !a.is_paused ==> {
        let due = a.auto_advance_timer matches Some(d) && tick.mono_ns >= d;
        let mid = without_deadline(a);
        &&& due ==> exists|r: Result<bool, String>| #[trigger] advanced(mid, with_time_spent(b, a.state.total_time_spent_ns), tick, r)
        &&& !due ==> b == (DemoController {
            state: DemoState { total_time_spent_ns: b.state.total_time_spent_ns, ..a.state },
            ..a
        })
        &&& b.state.total_time_spent_ns == (match b.step_timer {
            Some(t) => if tick.mono_ns >= t { (tick.mono_ns - t) as u128 } else { 0 },
            None => a.state.total_time_spent_ns,
        })
    }
}

/// `b` is `a` after the learner input `x` at `tick`, answered with `r`
/// (whether help was asked for): the input is kept among the recent ones;
/// on a step that waits for the learner, the step's button or Enter or
/// space leaves the step, Escape pauses the tour and `?` asks for help.
pub open spec fn interaction_handled(
    a: DemoController,
    b: DemoController,
    x: UserInteraction,
    tick: DemoTick,
    r: bool,
) -> bool {
    let recorded = DemoController { user_interactions: b.user_interactions, ..a };
    let waits = a.current_step_view() matches Some(st) && st.wait_for_user;
    &&& b.user_interactions@ == bounded_push(a.user_interactions@, x)
    &&& r == (waits && is_key(x, "?"@))
    &&& (waits && advances_step(x, a.current_step_view().unwrap())) ==> exists|res: Result<bool, String>|
        #[trigger] advanced_or_held(recorded, b, tick, res)
    &&& (waits && is_key(x, "Escape"@)) ==> b == (DemoController { is_paused: true, ..recorded })
    &&& !(waits && (advances_step(x, a.current_step_view().unwrap()) || is_key(x, "Escape"@))) ==> b == recorded
}

/// `b` is `a` after a request, at some moment, to start the tour `id`,
/// answered with `r`: an unknown tour or one whose prerequisites are not all
/// completed is refused and nothing changes; otherwise the tour starts.
pub open spec fn start_outcome(a: DemoController, b: DemoController, id: Seq<char>, r: Result<(), String>) -> bool {
    &&& (forall|k: int| 0 <= k < a.scenarios@.len() ==> #[trigger] a.scenarios@[k].id@ != id) ==> b == a && (r matches Err(
        e,
    ) && e@ == not_found_message(id))
    &&& forall|k: int| 0 <= k < a.scenarios@.len() && #[trigger] a.scenarios@[k].id@ == id ==> {
        let p = first_missing(strs(a.scenarios@[k].prerequisites@), a.completed_view());
        &&& p matches Some(m) ==> b == a && (r matches Err(e) && e@ == prerequisite_message(m))
        &&& p is None ==> r is Ok && exists|t: DemoTick| #[trigger] started(a, b, k, t)
    }
}

/// The durations kept after the tour leaves the steps `ids` one after the
/// other: the first is kept with `first` (nothing when there is none), and
/// each step passed over on the way is kept with zero, having been shown
/// for no time.
pub open spec fn leave_records(m: Seq<(Seq<char>, Seq<u128>)>, ids: Seq<Seq<char>>, first: Option<u128>) -> Seq<
    (Seq<char>, Seq<u128>),
>
    decreases ids.len(),
{
    if ids.len() == 0 {
        m
    } else {
        let m1 = match first {
            Some(d) => with_duration(m, ids[0], d),
            None => m,
        };
        leave_records(m1, ids.drop_first(), Some(0u128))
    }
}

/// How long the step left at `tick` was shown: since its timer was set, if
/// it was.
pub open spec fn shown_for(timer: Option<u128>, tick: DemoTick) -> Option<u128> {
    match timer {
        Some(t) => Some(if tick.mono_ns >= t { (tick.mono_ns - t) as u128 } else { 0u128 }),
        None => None,
    }
}

/// How `b` follows from `a` when the running tour leaves its step at `tick`.
pub open spec fn advanced(a: DemoController, b: DemoController, tick: DemoTick, r: Result<bool, String>) -> bool {
    let k = a.current_scenario.unwrap() as int;
    let steps = a.scenarios@[k].steps@;
    let i = a.current_step_index as int;
    let l = landing(steps, i, a.completed_view(), tick.hour);
    let last = if l < steps.len() { l } else { steps.len() - 1 };
    &&& same_setup(a, b)
    &&& durations_view(b.analytics.step_durations@) == leave_records(
        durations_view(a.analytics.step_durations@),
        step_id_range(steps, i, l),
        shown_for(a.step_timer, tick),
    )
    &&& r == Ok::<bool, String>(l < steps.len())
    &&& strs(b.step_history@) == strs(a.step_history@) + step_id_range(steps, i, last)
    &&& if l < steps.len() {
        &&& showing(b, k, l, tick)
        &&& b.state.completed_scenarios == a.state.completed_scenarios
        &&& b.state.achievements == a.state.achievements
        &&& progress_ids(b.state.started_scenarios@) == progress_ids(a.state.started_scenarios@)
    } else {
        completed_from(a, b, k)
    }
}

impl DemoController {
    /// The controller's invariant, with unique progress entries.
    pub open spec fn inv(self) -> bool {
        &&& self.wf()
        &&& unique_progress(self.state.started_scenarios@)
    }

    /// Shows the current step: its highlights, tooltip and self-advance
    /// deadline.
    fn apply_current_step(&mut self, mono_ns: u128)
        requires
            old(self).inv(),
            old(self).is_active,
        ensures
            final(self).inv(),
            shown_afresh(*old(self), *final(self), mono_ns),
    {
        let k = self.current_scenario.unwrap();
        let idx = self.current_step_index;
        let ghost st = self.scenarios@[k as int].steps@[idx as int];
        let important = contains_important(self.scenarios[k].steps[idx].title.as_str());
        let mut hl: Vec<(String, HighlightStyle)> = Vec::new();
        let n = self.scenarios[k].steps[idx].highlight_elements.len();
        let mut i: usize = 0;
        while i < n
            invariant
                self.scenarios@[k as int].steps@[idx as int] == st,
                k < self.scenarios@.len(),
                idx < self.scenarios@[k as int].steps@.len(),
                n == st.highlight_elements@.len(),
                important == is_important(st.title@),
                i <= n,
                hl@.len() == i,
                forall|j: int| 0 <= j < i ==> (#[trigger] hl@[j]).0@ == st.highlight_elements@[j]@
                    && style_for(hl@[j].1, st.title@),
            decreases n - i,
        {
            let mut style = HighlightStyle::default();
            if important {
                style.color = owned("#FF5722");
                style.animation = HighlightAnimation::Shake;
            }
            let e = self.scenarios[k].steps[idx].highlight_elements[i].clone();
            hl.push((e, style));
            i = i + 1;
        }
        let mut tips: Vec<(String, String)> = Vec::new();
        match &self.scenarios[k].steps[idx].action {
            Some(DemoAction::ShowTooltip { element, text }) => {
                tips.push((element.clone(), text.clone()));
            },
            _ => {},
        }
        let auto = self.scenarios[k].steps[idx].auto_advance_ms;
        self.highlights = hl;
        self.tooltips = tips;
        match auto {
            Some(ms) => {
                let adj: u128 = (ms as u128 * 100 / self.demo_speed_percent as u128) * 1_000_000;
                self.auto_advance_timer = Some(mono_ns.saturating_add(adj));
            },
            None => {},
        }
    }

    /// Whether a skip condition holds now.
    pub fn should_skip(&self, condition: &SkipCondition, hour: u32) -> (r: bool)
        ensures
            r == skip_met(*condition, self.completed_view(), hour),
    {
        match condition {
            SkipCondition::IfCompleted(name) => contains_str(&self.state.completed_scenarios, name.as_str()),
            SkipCondition::IfState(_) => false,
            SkipCondition::IfTime { before_hour, after_hour } => hour < *before_hour as u32 || hour > *after_hour as u32,
        }
    }

    /// Checks a step's validation; every kind of check passes.
    pub fn validate_step(&self, validation: &StepValidation) -> (r: Result<bool, String>)
        ensures
            r == Ok::<bool, String>(true),
    {
        Ok(true)
    }

    /// Marks the running tour completed and hands out its rewards.
    fn complete_demo(&mut self)
        requires
            old(self).inv(),
            old(self).is_active,
        ensures
            final(self).inv(),
            completed_from(*old(self), *final(self), old(self).current_scenario.unwrap() as int),
            *final(self) == (DemoController {
                is_active: false,
                current_scenario: None,
                state: DemoState {
                    completed_scenarios: final(self).state.completed_scenarios,
                    started_scenarios: final(self).state.started_scenarios,
                    achievements: final(self).state.achievements,
                    ..old(self).state
                },
                ..*old(self)
            }),
    {
        let k = self.current_scenario.unwrap();
        let ghost old_self = *self;
        let id = self.scenarios[k].id.clone();
        if !contains_str(&self.state.completed_scenarios, id.as_str()) {
            self.state.completed_scenarios.push(id.clone());
            assert(self.completed_view() =~= old_self.completed_view().push(id@));
        }
        match progress_position(&self.state.started_scenarios, id.as_str()) {
            Some(p) => {
                let ghost before = self.state.started_scenarios@;
                self.state.started_scenarios.remove(p);
                assert(self.state.started_scenarios@ == before.remove(p as int));
                assert forall|a: int, b: int| 0 <= a < self.state.started_scenarios@.len() && 0 <= b < self.state.started_scenarios@.len() && a != b
                    implies self.state.started_scenarios@[a].scenario_id@ != self.state.started_scenarios@[b].scenario_id@ by {
                    let a2 = if a < p { a } else { a + 1 };
                    let b2 = if b < p { b } else { b + 1 };
                    assert(self.state.started_scenarios@[a] == before[a2]);
                    assert(self.state.started_scenarios@[b] == before[b2]);
                }
                assert forall|j: int| 0 <= j < progress_ids(self.state.started_scenarios@).len()
                    implies progress_ids(self.state.started_scenarios@)[j] != id@ by {
                    if j < p {
                        assert(self.state.started_scenarios@[j] == before[j]);
                    } else {
                        assert(self.state.started_scenarios@[j] == before[j + 1]);
                    }
                }
            },
            None => {},
        }
        let n = self.scenarios[k].completion_rewards.len();
        let ghost rewards = self.scenarios@[k as int].completion_rewards@;
        let mut i: usize = 0;
        assert(rewards.take(0) =~= Seq::<DemoReward>::empty());
        let ghost pre_loop = *self;
        while i < n
            invariant
                k < self.scenarios@.len(),
                self.scenarios == old_self.scenarios,
                *self == (DemoController { state: DemoState { achievements: self.state.achievements, ..pre_loop.state }, ..pre_loop }),
                rewards == self.scenarios@[k as int].completion_rewards@,
                n == rewards.len(),
                i <= n,
                strs(self.state.achievements@) == strs(old_self.state.achievements@) + reward_achievements(rewards.take(i as int)),
            decreases n - i,
        {
            assert(rewards.take(i + 1).drop_last() =~= rewards.take(i as int));
            assert(rewards.take(i + 1).last() == rewards[i as int]);
            match &self.scenarios[k].completion_rewards[i] {
                DemoReward::Achievement(name) => {
                    let nm = name.clone();
                    let ghost before = self.state.achievements@;
                    self.state.achievements.push(nm);
                    assert(reward_achievements(rewards.take(i + 1)) == reward_achievements(rewards.take(i as int)).push(name@));
                    assert(strs(self.state.achievements@) =~= strs(before).push(name@));
                    assert(strs(self.state.achievements@) =~= strs(old_self.state.achievements@) + reward_achievements(rewards.take(i + 1)));
                },
                _ => {
                    assert(strs(self.state.achievements@) =~= strs(old_self.state.achievements@) + reward_achievements(rewards.take(i + 1)));
                },
            }
            i = i + 1;
        }
        assert(rewards.take(n as int) =~= rewards);
        self.is_active = false;
        self.current_scenario = None;
    }
}


/// A tour always moves forward and never beyond its end.
pub proof fn lemma_landing_bounds(steps: Seq<DemoStep>, i: int, completed: Seq<Seq<char>>, hour: u32)
    requires
        0 <= i < steps.len(),
    ensures
        i < landing(steps, i, completed, hour) <= steps.len(),
    decreases steps.len() - i,
{
    if i + 1 < steps.len() && step_skipped(steps[i + 1], completed, hour) {
        lemma_landing_bounds(steps, i + 1, completed, hour);
    }
}

impl DemoController {
    /// Leaves the current step at `tick`: records how long it was shown,
    /// then shows the next step that is not passed over, or completes the
    /// tour after its last step. Answers whether a step is now shown.
    pub fn next_step_at(&mut self, tick: DemoTick) -> (r: Result<bool, String>)
        requires
            old(self).inv(),
        ensures
            final(self).inv(),
            !old(self).is_active || old(self).is_paused ==> r == Ok::<bool, String>(false) && *final(self) == *old(self),
            old(self).is_active && !old(self).is_paused ==> advanced(*old(self), *final(self), tick, r),
        decreases old(self).current_steps().len() - old(self).current_step_index,
    {
        if !self.is_active || self.is_paused {
            return Ok(false);
        }
        let ghost a = *self;
        let k = self.current_scenario.unwrap();
        let idx = self.current_step_index;
        let ghost steps = self.scenarios@[k as int].steps@;
        let len = self.scenarios[k].steps.len();
        let ok = match &self.scenarios[k].steps[idx].validation {
            Some(v) => self.validate_step(v),
            None => Ok(true),
        };
        match ok {
            Ok(true) => {},
            _ => {
                // Every validation of a step passes (see `validate_step`).
                assert(false);
                return Err(owned("Step validation failed"));
            },
        }
        match self.step_timer {
            Some(t) => {
                let id = self.scenarios[k].steps[idx].id.clone();
                record_duration(&mut self.analytics.step_durations, id.as_str(), tick.mono_ns.saturating_sub(t));
            },
            None => {},
        }
        let ghost m1 = durations_view(self.analytics.step_durations@);
        assert(m1 == match shown_for(a.step_timer, tick) {
            Some(d) => with_duration(durations_view(a.analytics.step_durations@), steps[idx as int].id@, d),
            None => durations_view(a.analytics.step_durations@),
        });
        assert(step_id_range(steps, idx as int, idx + 1).drop_first() =~= Seq::<Seq<char>>::empty());
        assert(leave_records(m1, Seq::<Seq<char>>::empty(), Some(0u128)) == m1);
        if idx < len - 1 {
            let sid = self.scenarios[k].steps[idx].id.clone();
            let ghost h0 = self.step_history@;
            self.step_history.push(sid);
            assert(strs(self.step_history@) =~= strs(h0).push(steps[idx as int].id@));
            self.current_step_index = idx + 1;
            self.step_timer = Some(tick.mono_ns);
            let scen_id = self.scenarios[k].id.clone();
            match progress_position(&self.state.started_scenarios, scen_id.as_str()) {
                Some(p) => {
                    let ghost before = self.state.started_scenarios@;
                    let old_p = self.state.started_scenarios[p].started_at_ms;
                    let pid = self.state.started_scenarios[p].scenario_id.clone();
                    let num: u128 = (idx + 1) as u128 * 100;
                    let den: u128 = len as u128;
                    assert(num / den <= 100) by (nonlinear_arith)
                        requires num == (idx + 1) * 100, den == len, idx + 1 <= len, len > 0;
                    let pct: u32 = (num / den) as u32;
                    self.state.started_scenarios.set(p, DemoProgress {
                        scenario_id: pid,
                        current_step: idx + 1,
                        started_at_ms: old_p,
                        last_active_ms: tick.now_ms,
                        completion_percent: pct,
                    });
                    assert(progress_ids(self.state.started_scenarios@) =~= progress_ids(before));
                    assert forall|j: int| 0 <= j < self.state.started_scenarios@.len()
                        && (#[trigger] self.state.started_scenarios@[j]).scenario_id@ == a.scenarios@[k as int].id@
                        implies self.state.started_scenarios@[j].current_step == idx + 1 by {
                        if j != p {
                            assert(before[j].scenario_id@ == before[p as int].scenario_id@);
                        }
                    }
                    assert(unique_progress(self.state.started_scenarios@)) by {
                        assert forall|x: int, y: int| 0 <= x < self.state.started_scenarios@.len() && 0 <= y < self.state.started_scenarios@.len() && x != y
                            implies self.state.started_scenarios@[x].scenario_id@ != self.state.started_scenarios@[y].scenario_id@ by {
                            assert(progress_ids(self.state.started_scenarios@)[x] == progress_ids(before)[x]);
                            assert(progress_ids(self.state.started_scenarios@)[y] == progress_ids(before)[y]);
                        }
                    }
                },
                None => {
                    assert forall|j: int| 0 <= j < self.state.started_scenarios@.len()
                        implies (#[trigger] self.state.started_scenarios@[j]).scenario_id@ != a.scenarios@[k as int].id@ by {
                        assert(progress_ids(self.state.started_scenarios@)[j] == self.state.started_scenarios@[j].scenario_id@);
                    }
                },
            }
            let skip = match &self.scenarios[k].steps[idx + 1].skip_condition {
                Some(c) => self.should_skip(c, tick.hour),
                None => false,
            };
            if skip {
                let ghost mid = *self;
                let r = self.next_step_at(tick);
                proof {
                    let l = landing(steps, idx as int, a.completed_view(), tick.hour);
                    assert(l == landing(steps, idx + 1, a.completed_view(), tick.hour));
                    lemma_landing_bounds(steps, idx + 1, a.completed_view(), tick.hour);
                    let last = if l < steps.len() { l } else { steps.len() - 1 };
                    assert(step_id_range(steps, idx as int, last) =~= seq![steps[idx as int].id@] + step_id_range(steps, idx + 1, last));
                    assert(step_id_range(steps, idx as int, l).drop_first() =~= step_id_range(steps, idx + 1, l));
                    assert(step_id_range(steps, idx as int, l)[0] == steps[idx as int].id@);
                    assert(shown_for(mid.step_timer, tick) == Some(0u128));
                    assert(durations_view(mid.analytics.step_durations@) == m1);
                    assert(strs(self.step_history@) =~= strs(a.step_history@) + step_id_range(steps, idx as int, last));
                    assert(mid.scenarios == a.scenarios);
                    assert(mid.completed_view() == a.completed_view());
                    assert(mid.current_scenario == a.current_scenario);
                    assert(same_setup(a, *self));
                    assert(r == Ok::<bool, String>(l < steps.len()));
                    if l < steps.len() {
                        assert(showing(*self, k as int, l, tick));
                        assert(progress_ids(self.state.started_scenarios@) == progress_ids(a.state.started_scenarios@));
                    } else {
                        assert(completed_from(a, *self, k as int));
                    }
                    assert(advanced(a, *self, tick, r));
                }
                return r;
            }
            self.apply_current_step(tick.mono_ns);
            proof {
                assert(step_id_range(steps, idx as int, idx + 1) =~= seq![steps[idx as int].id@]);
                assert(same_setup(a, *self));
                assert(landing(steps, idx as int, a.completed_view(), tick.hour) == idx + 1);
                assert(showing(*self, k as int, idx + 1, tick));
                assert(progress_ids(self.state.started_scenarios@) == progress_ids(a.state.started_scenarios@));
                assert(strs(self.step_history@) =~= strs(a.step_history@) + step_id_range(steps, idx as int, idx + 1));
                assert(self.state.completed_scenarios == a.state.completed_scenarios);
                assert(self.state.achievements == a.state.achievements);
                assert(advanced(a, *self, tick, Ok(true)));
            }
            Ok(true)
        } else {
            self.complete_demo();
            proof {
                assert(step_id_range(steps, idx as int, steps.len() - 1) =~= Seq::<Seq<char>>::empty());
                assert(same_setup(a, *self));
                assert(completed_from(a, *self, k as int));
                assert(advanced(a, *self, tick, Ok(false)));
            }
            Ok(false)
        }
    }

    /// Leaves the current step now; see `next_step_at`.
    pub fn next_step(&mut self) -> (r: Result<bool, String>)
        requires
            old(self).inv(),
        ensures
            final(self).inv(),
            !old(self).is_active || old(self).is_paused ==> r == Ok::<bool, String>(false) && *final(self) == *old(self),
            old(self).is_active && !old(self).is_paused ==> exists|t: DemoTick| #[trigger] advanced(*old(self), *final(self), t, r),
    {
        let t = self.read_clock();
        self.next_step_at(t)
    }
}


/// The controller with no self-advance deadline.
pub open spec fn without_deadline(c: DemoController) -> DemoController {
    DemoController { auto_advance_timer: None, ..c }
}

/// The controller with `t` as the time spent in the current step.
pub open spec fn with_time_spent(c: DemoController, t: u128) -> DemoController {
    DemoController { state: DemoState { total_time_spent_ns: t, ..c.state }, ..c }
}

/// The message for a tour that does not exist.
pub open spec fn not_found_message(id: Seq<char>) -> Seq<char> {
    "Scenario '"@ + id + "' not found"@
}

/// The message for a tour whose prerequisite `p` is not completed.
pub open spec fn prerequisite_message(p: Seq<char>) -> Seq<char> {
    "Complete '"@ + p + "' first"@
}

/// `b` is `a` after scenario `k` was started at `tick`.
pub open spec fn started(a: DemoController, b: DemoController, k: int, tick: DemoTick) -> bool {
    let steps = a.scenarios@[k].steps@;
    let l = start_landing(steps, a.completed_view(), tick.hour);
    let last = if l < steps.len() { l } else { steps.len() - 1 };
    &&& b.scenarios == a.scenarios
    &&& b.state.skip_count == a.state.skip_count
    &&& b.state.restart_count == a.state.restart_count
    &&& b.analytics.step_skips == a.analytics.step_skips
    &&& b.analytics.step_failures == a.analytics.step_failures
    &&& b.analytics.help_requests == a.analytics.help_requests
    &&& b.analytics.drop_off_points == a.analytics.drop_off_points
    &&& durations_view(b.analytics.step_durations@) == leave_records(
        durations_view(a.analytics.step_durations@),
        step_id_range(steps, 0, l),
        Some(0u128),
    )
    &&& b.user_interactions == a.user_interactions
    &&& b.demo_speed_percent == a.demo_speed_percent
    &&& !b.is_paused
    &&& strs(b.step_history@) == step_id_range(steps, 0, last)
    &&& if l < steps.len() {
        &&& showing(b, k, l, tick)
        &&& b.state.completed_scenarios == a.state.completed_scenarios
        &&& b.state.achievements == a.state.achievements
        &&& progress_ids(b.state.started_scenarios@).contains(a.scenarios@[k].id@)
    } else {
        completed_from(a, b, k)
    }
}

/// Keeps the last `MAX_INTERACTIONS` of the inputs with `x` appended.
pub open spec fn bounded_push(v: Seq<UserInteraction>, x: UserInteraction) -> Seq<UserInteraction> {
    if v.len() + 1 > MAX_INTERACTIONS { v.push(x).drop_first() } else { v.push(x) }
}

/// Whether an input advances a step that waits for the learner.
pub open spec fn advances_step(x: UserInteraction, st: DemoStep) -> bool {
    match x.interaction_type {
        InteractionType::Click => st.action matches Some(DemoAction::ClickButton(b))
            && x.element_id matches Some(e) && e@ == b@,
        InteractionType::KeyPress(key) => key@ == "Enter"@ || key@ == " "@,
        _ => false,
    }
}

/// Whether an input is the key that pauses a tour.
pub open spec fn is_key(x: UserInteraction, k: Seq<char>) -> bool {
    x.interaction_type matches InteractionType::KeyPress(key) && key@ == k
}

/// The rank of a category when tours are listed.
pub open spec fn category_rank(c: DemoCategory) -> int {
    match c {
        DemoCategory::Onboarding => 0,
        DemoCategory::Feature => 1,
        DemoCategory::Advanced => 2,
        DemoCategory::Troubleshooting => 3,
        DemoCategory::Tips => 4,
        DemoCategory::Research => 5,
    }
}

/// The rank of a difficulty when a tour is recommended.
pub open spec fn difficulty_rank(d: DemoDifficulty) -> int {
    match d {
        DemoDifficulty::Beginner => 0,
        DemoDifficulty::Intermediate => 1,
        DemoDifficulty::Advanced => 2,
        DemoDifficulty::Expert => 3,
    }
}

fn category_number(c: DemoCategory) -> (r: u8)
    ensures
        r == category_rank(c),
{
    match c {
        DemoCategory::Onboarding => 0,
        DemoCategory::Feature => 1,
        DemoCategory::Advanced => 2,
        DemoCategory::Troubleshooting => 3,
        DemoCategory::Tips => 4,
        DemoCategory::Research => 5,
    }
}

fn difficulty_number(d: DemoDifficulty) -> (r: u8)
    ensures
        r == difficulty_rank(d),
{
    match d {
        DemoDifficulty::Beginner => 0,
        DemoDifficulty::Intermediate => 1,
        DemoDifficulty::Advanced => 2,
        DemoDifficulty::Expert => 3,
    }
}

/// Whether a tour can be recommended: not completed, with all of its
/// prerequisites completed.
pub open spec fn eligible(s: DemoScenario, completed: Seq<Seq<char>>) -> bool {
    &&& !completed.contains(s.id@)
    &&& forall|j: int| 0 <= j < s.prerequisites@.len() ==> completed.contains(#[trigger] s.prerequisites@[j]@)
}

impl DemoController {
    /// Starts a tour at `tick`, provided it exists and its prerequisites
    /// are completed. A first step that is passed over is left at once.
    pub fn start_scenario_at(&mut self, scenario_id: &str, tick: DemoTick) -> (r: Result<(), String>)
        requires
            old(self).inv(),
        ensures
            final(self).inv(),
            (forall|k: int| 0 <= k < old(self).scenarios@.len() ==> #[trigger] old(self).scenarios@[k].id@ != scenario_id@)
                ==> *final(self) == *old(self) && (r matches Err(e) && e@ == not_found_message(scenario_id@)),
            forall|k: int| 0 <= k < old(self).scenarios@.len() && #[trigger] old(self).scenarios@[k].id@ == scenario_id@ ==> {
                let p = first_missing(strs(old(self).scenarios@[k].prerequisites@), old(self).completed_view());
                &&& p matches Some(m) ==> *final(self) == *old(self) && (r matches Err(e) && e@ == prerequisite_message(m))
                &&& p is None ==> r is Ok && started(*old(self), *final(self), k, tick)
            },
    {
        let k = match self.scenario_index(scenario_id) {
            Some(k) => k,
            None => {
                let msg = concat(concat("Scenario '", scenario_id).as_str(), "' not found");
                return Err(msg);
            },
        };
        let ghost a = *self;
        let ghost prereqs = strs(self.scenarios@[k as int].prerequisites@);
        let np = self.scenarios[k].prerequisites.len();
        let mut i: usize = 0;
        assert(prereqs.skip(0) =~= prereqs);
        while i < np
            invariant
                *self == a,
                a == *old(self),
                a.inv(),
                k < self.scenarios@.len(),
                self.scenarios@[k as int].id@ == scenario_id@,
                prereqs == strs(self.scenarios@[k as int].prerequisites@),
                np == prereqs.len(),
                i <= np,
                first_missing(prereqs, a.completed_view()) == first_missing(prereqs.skip(i as int), a.completed_view()),
            decreases np - i,
        {
            assert(prereqs.skip(i as int)[0] == self.scenarios@[k as int].prerequisites@[i as int]@);
            if !contains_str(&self.state.completed_scenarios, self.scenarios[k].prerequisites[i].as_str()) {
                let msg = concat(concat("Complete '", self.scenarios[k].prerequisites[i].as_str()).as_str(), "' first");
                return Err(msg);
            }
            assert(prereqs.skip(i as int).drop_first() =~= prereqs.skip(i + 1));
            i = i + 1;
        }
        proof {
            assert(unique_ids(a.scenarios@));
        }
        let id = self.scenarios[k].id.clone();
        self.current_scenario = Some(k);
        self.current_step_index = 0;
        self.is_active = true;
        self.is_paused = false;
        self.step_history = Vec::new();
        self.highlights = Vec::new();
        self.tooltips = Vec::new();
        self.step_timer = Some(tick.mono_ns);
        let entry = DemoProgress {
            scenario_id: id.clone(),
            current_step: 0,
            started_at_ms: tick.now_ms,
            last_active_ms: tick.now_ms,
            completion_percent: 0,
        };
        let ghost before = self.state.started_scenarios@;
        match progress_position(&self.state.started_scenarios, id.as_str()) {
            Some(p) => {
                self.state.started_scenarios.set(p, entry);
                assert(progress_ids(self.state.started_scenarios@) =~= progress_ids(before));
                assert(progress_ids(self.state.started_scenarios@)[p as int] == id@);
                assert(progress_ids(self.state.started_scenarios@).contains(id@));
                assert forall|x: int, y: int| 0 <= x < self.state.started_scenarios@.len() && 0 <= y < self.state.started_scenarios@.len() && x != y
                    implies self.state.started_scenarios@[x].scenario_id@ != self.state.started_scenarios@[y].scenario_id@ by {
                    assert(progress_ids(self.state.started_scenarios@)[x] == progress_ids(before)[x]);
                    assert(progress_ids(self.state.started_scenarios@)[y] == progress_ids(before)[y]);
                }
                assert forall|j: int| 0 <= j < self.state.started_scenarios@.len()
                    && (#[trigger] self.state.started_scenarios@[j]).scenario_id@ == id@
                    implies self.state.started_scenarios@[j].current_step == 0 by {
                    if j != p {
                        assert(before[j].scenario_id@ == before[p as int].scenario_id@);
                    }
                }
            },
            None => {
                self.state.started_scenarios.push(entry);
                assert(progress_ids(self.state.started_scenarios@) =~= progress_ids(before).push(id@));
                assert(progress_ids(self.state.started_scenarios@)[before.len() as int] == id@);
                assert(progress_ids(self.state.started_scenarios@).contains(id@));
                assert forall|x: int, y: int| 0 <= x < self.state.started_scenarios@.len() && 0 <= y < self.state.started_scenarios@.len() && x != y
                    implies self.state.started_scenarios@[x].scenario_id@ != self.state.started_scenarios@[y].scenario_id@ by {
                    if x < before.len() && y < before.len() {
                    } else if x < before.len() {
                        assert(progress_ids(before)[x] == before[x].scenario_id@);
                    } else if y < before.len() {
                        assert(progress_ids(before)[y] == before[y].scenario_id@);
                    }
                }
                assert forall|j: int| 0 <= j < self.state.started_scenarios@.len()
                    && (#[trigger] self.state.started_scenarios@[j]).scenario_id@ == id@
                    implies self.state.started_scenarios@[j].current_step == 0 by {
                    if j < before.len() {
                        assert(progress_ids(before)[j] == before[j].scenario_id@);
                    }
                }
            },
        }
        let skip = match &self.scenarios[k].steps[0].skip_condition {
            Some(c) => self.should_skip(c, tick.hour),
            None => false,
        };
        if skip {
            let ghost mid = *self;
            let res = self.next_step_at(tick);
            proof {
                let steps = a.scenarios@[k as int].steps@;
                lemma_landing_bounds(steps, 0, a.completed_view(), tick.hour);
                assert(strs(mid.step_history@) =~= Seq::<Seq<char>>::empty());
                let l = landing(steps, 0, a.completed_view(), tick.hour);
                let last = if l < steps.len() { l } else { steps.len() - 1 };
                assert(strs(self.step_history@) =~= step_id_range(steps, 0, last));
                if l < steps.len() {
                    assert(progress_ids(self.state.started_scenarios@) == progress_ids(mid.state.started_scenarios@));
                } else {
                    assert(completed_from(a, *self, k as int));
                }
            }
            return Ok(());
        }
        self.apply_current_step(tick.mono_ns);
        proof {
            let steps = a.scenarios@[k as int].steps@;
            assert(strs(self.step_history@) =~= step_id_range(steps, 0, 0));
        }
        Ok(())
    }

    /// Starts a tour now; see `start_scenario_at`.
    pub fn start_scenario(&mut self, scenario_id: &str) -> (r: Result<(), String>)
        requires
            old(self).inv(),
        ensures
            final(self).inv(),
            start_outcome(*old(self), *final(self), scenario_id@, r),
    {
        let t = self.read_clock();
        self.start_scenario_at(scenario_id, t)
    }
}


impl DemoController {
    /// Goes back one step at monotonic time `mono_ns`; answers whether it did.
    pub fn previous_step_at(&mut self, mono_ns: u128) -> (r: bool)
        requires
            old(self).inv(),
        ensures
            final(self).inv(),
            went_back(*old(self), *final(self), mono_ns, r),
    {
        if !self.is_active || self.current_step_index == 0 {
            return false;
        }
        self.current_step_index = self.current_step_index - 1;
        self.step_timer = Some(mono_ns);
        self.apply_current_step(mono_ns);
        true
    }

    /// Goes back one step now; see `previous_step_at`.
    pub fn previous_step(&mut self) -> (r: bool)
        requires
            old(self).inv(),
        ensures
            final(self).inv(),
            exists|mono_ns: u128| #[trigger] went_back(*old(self), *final(self), mono_ns, r),
    {
        let t = self.read_clock();
        self.previous_step_at(t.mono_ns)
    }

    /// Passes over the current step at `tick`, counting the skip, when the
    /// running tour allows it.
    pub fn skip_step_at(&mut self, tick: DemoTick) -> (r: Result<bool, String>)
        requires
            old(self).inv(),
            old(self).state.skip_count < u32::MAX,
            old(self).is_active ==> count_in(
                keyed(old(self).analytics.step_skips@),
                old(self).current_step_view().unwrap().id@,
            ) < u32::MAX,
        ensures
            final(self).inv(),
            skipped_step(*old(self), *final(self), tick, r),
    {
        let k = match self.current_scenario {
            Some(k) => k,
            None => {
                return Err(owned("No active scenario"));
            },
        };
        if !self.scenarios[k].allow_skip {
            return Err(owned("This demo doesn't allow skipping"));
        }
        self.state.skip_count = self.state.skip_count + 1;
        let id = self.scenarios[k].steps[self.current_step_index].id.clone();
        bump_counter(&mut self.analytics.step_skips, id.as_str());
        self.next_step_at(tick)
    }

    /// Passes over the current step now; see `skip_step_at`.
    pub fn skip_step(&mut self) -> (r: Result<bool, String>)
        requires
            old(self).inv(),
            old(self).state.skip_count < u32::MAX,
            old(self).is_active ==> count_in(
                keyed(old(self).analytics.step_skips@),
                old(self).current_step_view().unwrap().id@,
            ) < u32::MAX,
        ensures
            final(self).inv(),
            exists|tick: DemoTick| #[trigger] skipped_step(*old(self), *final(self), tick, r),
    {
        let t = self.read_clock();
        self.skip_step_at(t)
    }

    /// Shows the running tour again from its first step, when it allows it.
    pub fn restart_scenario_at(&mut self, mono_ns: u128) -> (r: Result<(), String>)
        requires
            old(self).inv(),
            old(self).state.restart_count < u32::MAX,
        ensures
            final(self).inv(),
            restarted(*old(self), *final(self), mono_ns, r),
    {
        let k = match self.current_scenario {
            Some(k) => k,
            None => {
                return Err(owned("No active scenario"));
            },
        };
        if !self.scenarios[k].allow_restart {
            return Err(owned("This demo doesn't allow restarting"));
        }
        self.state.restart_count = self.state.restart_count + 1;
        self.current_step_index = 0;
        self.step_history = Vec::new();
        self.apply_current_step(mono_ns);
        Ok(())
    }

    /// Restarts the running tour now; see `restart_scenario_at`.
    pub fn restart_scenario(&mut self) -> (r: Result<(), String>)
        requires
            old(self).inv(),
            old(self).state.restart_count < u32::MAX,
        ensures
            final(self).inv(),
            exists|mono_ns: u128| #[trigger] restarted(*old(self), *final(self), mono_ns, r),
    {
        let t = self.read_clock();
        self.restart_scenario_at(t.mono_ns)
    }

    /// Advances a step whose self-advance deadline has passed at `tick`, and
    /// records the time spent in the current step.
    pub fn update_at(&mut self, tick: DemoTick)
        requires
            old(self).inv(),
        ensures
            final(self).inv(),
            updated(*old(self), *final(self), tick),
    {
        if !self.is_active || self.is_paused {
            return;
        }
        match self.auto_advance_timer {
            Some(d) => {
                if tick.mono_ns >= d {
                    self.auto_advance_timer = None;
                    let res = self.next_step_at(tick);
                    let ghost after = *self;
                    match self.step_timer {
                        Some(t) => {
                            self.state.total_time_spent_ns = tick.mono_ns.saturating_sub(t);
                        },
                        None => {},
                    }
                    assert(with_time_spent(*self, old(self).state.total_time_spent_ns) == after);
                    assert(advanced(without_deadline(*old(self)), with_time_spent(*self, old(self).state.total_time_spent_ns), tick, res));
                    assert(self.state.total_time_spent_ns == (match self.step_timer {
                        Some(t) => if tick.mono_ns >= t { (tick.mono_ns - t) as u128 } else { 0 },
                        None => old(self).state.total_time_spent_ns,
                    }));
                    return;
                }
            },
            None => {},
        }
        match self.step_timer {
            Some(t) => {
                self.state.total_time_spent_ns = tick.mono_ns.saturating_sub(t);
            },
            None => {},
        }
    }

    /// Checks the self-advance deadline now; see `update_at`.
    pub fn update(&mut self)
        requires
            old(self).inv(),
        ensures
            final(self).inv(),
            exists|tick: DemoTick| #[trigger] updated(*old(self), *final(self), tick),
    {
        let t = self.read_clock();
        self.update_at(t)
    }

    /// Pauses the running tour.
    pub fn pause(&mut self)
        requires
            old(self).inv(),
        ensures
            final(self).inv(),
            *final(self) == (DemoController { is_paused: true, ..*old(self) }),
    {
        self.is_paused = true;
    }

    /// Resumes the tour, timing the current step from `mono_ns`.
    pub fn resume_at(&mut self, mono_ns: u128)
        requires
            old(self).inv(),
        ensures
            final(self).inv(),
            resumed(*old(self), *final(self), mono_ns),
    {
        self.is_paused = false;
        self.step_timer = Some(mono_ns);
    }

    /// Resumes the tour now.
    pub fn resume(&mut self)
        requires
            old(self).inv(),
        ensures
            final(self).inv(),
            exists|mono_ns: u128| #[trigger] resumed(*old(self), *final(self), mono_ns),
    {
        let t = self.read_clock();
        self.resume_at(t.mono_ns)
    }

    /// Ends the tour early, noting where the learner left it.
    pub fn end_demo(&mut self)
        requires
            old(self).inv(),
        ensures
            final(self).inv(),
            !final(self).is_active,
            !final(self).is_paused,
            final(self).current_scenario is None,
            final(self).current_step_index == 0,
            final(self).highlights@.len() == 0,
            final(self).tooltips@.len() == 0,
            final(self).auto_advance_timer is None,
            final(self).step_timer is None,
            final(self).state == old(self).state,
            final(self).scenarios == old(self).scenarios,
            final(self).analytics.drop_off_points@ == (if old(self).is_active {
                old(self).analytics.drop_off_points@.push(final(self).analytics.drop_off_points@.last())
            } else {
                old(self).analytics.drop_off_points@
            }),
            old(self).is_active ==> final(self).analytics.drop_off_points@.last().0@
                == old(self).scenarios@[old(self).current_scenario.unwrap() as int].id@
                && final(self).analytics.drop_off_points@.last().1@ == old(self).current_step_view().unwrap().id@,
    {
        match self.current_scenario {
            Some(k) => {
                let sid = self.scenarios[k].id.clone();
                let st = self.scenarios[k].steps[self.current_step_index].id.clone();
                self.analytics.drop_off_points.push((sid, st));
            },
            None => {},
        }
        self.is_active = false;
        self.is_paused = false;
        self.current_scenario = None;
        self.current_step_index = 0;
        self.highlights = Vec::new();
        self.tooltips = Vec::new();
        self.auto_advance_timer = None;
        self.step_timer = None;
    }

    /// Sets the animation speed in percent of normal, kept within 10 and 500.
    pub fn set_speed(&mut self, speed_percent: u32)
        requires
            old(self).inv(),
        ensures
            final(self).inv(),
            final(self).demo_speed_percent == (if speed_percent < 10 { 10 } else if speed_percent > 500 { 500 } else { speed_percent }),
    {
        self.demo_speed_percent = if speed_percent < 10 { 10 } else if speed_percent > 500 { 500 } else { speed_percent };
    }

    /// The step being shown, if a tour runs.
    pub fn get_current_step(&self) -> (r: Option<&DemoStep>)
        requires
            self.inv(),
        ensures
            r == (match self.current_scenario {
                Some(k) => Some(&self.scenarios@[k as int].steps@[self.current_step_index as int]),
                None => None,
            }),
    {
        match self.current_scenario {
            Some(k) => Some(&self.scenarios[k].steps[self.current_step_index]),
            None => None,
        }
    }

    /// The running tour.
    pub fn get_current_scenario(&self) -> (r: Option<&DemoScenario>)
        requires
            self.inv(),
        ensures
            r == (match self.current_scenario {
                Some(k) => Some(&self.scenarios@[k as int]),
                None => None,
            }),
    {
        match self.current_scenario {
            Some(k) => Some(&self.scenarios[k]),
            None => None,
        }
    }

    /// The running tour's identifier.
    pub fn current_scenario_id(&self) -> (r: Option<String>)
        requires
            self.inv(),
        ensures
            r matches Some(id) ==> self.current_scenario matches Some(k) && id@ == self.scenarios@[k as int].id@,
            r is None <==> self.current_scenario is None,
    {
        match self.current_scenario {
            Some(k) => Some(self.scenarios[k].id.clone()),
            None => None,
        }
    }

    /// The position of the shown step, counted from one, and the number of
    /// steps; both zero when no tour runs.
    pub fn get_progress(&self) -> (r: (usize, usize))
        requires
            self.inv(),
        ensures
            r == (match self.current_scenario {
                Some(k) => ((self.current_step_index + 1) as usize, self.scenarios@[k as int].steps@.len() as usize),
                None => (0usize, 0usize),
            }),
    {
        match self.current_scenario {
            Some(k) => {
                let n = self.scenarios[k].steps.len();
                (self.current_step_index + 1, n)
            },
            None => (0, 0),
        }
    }
}


/// The effect of a step's action on the application.
pub open spec fn effect_of(a: Option<DemoAction>) -> DemoEffect {
    match a {
        Some(DemoAction::NavigateTo(s)) => DemoEffect::Navigate(s),
        Some(DemoAction::ShowNotification { message, type_ }) => DemoEffect::Notify(message, type_),
        Some(DemoAction::TriggerEasterEgg) => DemoEffect::TriggerEasterEgg,
        Some(DemoAction::ShowConfetti) => DemoEffect::ShowConfetti,
        Some(DemoAction::PlaySound(s)) => DemoEffect::PlaySound(s),
        _ => DemoEffect::Nothing,
    }
}

/// The effect of asking the tour to advance: nothing while it is paused.
pub open spec fn advanced_or_held(a: DemoController, b: DemoController, tick: DemoTick, r: Result<bool, String>) -> bool {
    if a.is_paused {
        b == a && r == Ok::<bool, String>(false)
    } else {
        advanced(a, b, tick, r)
    }
}

/// The keyboard help shown during a tour.
pub fn help_text() -> (r: &'static str)
    ensures
        r@ == "Demo Help:\n  Space/Enter - Next step\n  Escape - Pause demo\n  S - Skip step\n  R - Restart demo\n  Q - Quit demo"@,
{
    "Demo Help:\n  Space/Enter - Next step\n  Escape - Pause demo\n  S - Skip step\n  R - Restart demo\n  Q - Quit demo"
}

impl DemoController {
    /// What the application must do for the current step's action.
    pub fn execute_current_action(&self) -> (r: DemoEffect)
        requires
            self.inv(),
        ensures
            r == (match self.current_step_view() {
                Some(st) => effect_of(st.action),
                None => DemoEffect::Nothing,
            }),
    {
        let k = match self.current_scenario {
            Some(k) => k,
            None => {
                return DemoEffect::Nothing;
            },
        };
        match &self.scenarios[k].steps[self.current_step_index].action {
            Some(DemoAction::NavigateTo(s)) => DemoEffect::Navigate(s.clone()),
            Some(DemoAction::ShowNotification { message, type_ }) => DemoEffect::Notify(message.clone(), *type_),
            Some(DemoAction::TriggerEasterEgg) => DemoEffect::TriggerEasterEgg,
            Some(DemoAction::ShowConfetti) => DemoEffect::ShowConfetti,
            Some(DemoAction::PlaySound(s)) => DemoEffect::PlaySound(s.clone()),
            _ => DemoEffect::Nothing,
        }
    }

    /// Records a learner input at `tick` and reacts to it when the shown step
    /// waits for the learner: a click on the expected button, Enter or Space
    /// advance the tour, Escape pauses it. Answers whether the learner asked
    /// for help with `?`.
    pub fn handle_interaction_at(&mut self, interaction: UserInteraction, tick: DemoTick) -> (r: bool)
        requires
            old(self).inv(),
        ensures
            final(self).inv(),
            interaction_handled(*old(self), *final(self), interaction, tick, r),
    {
        let ghost before = self.user_interactions@;
        let mut click_matches = false;
        let mut key_advances = false;
        let mut key_escape = false;
        let mut key_help = false;
        match self.current_scenario {
            Some(k) => {
                let idx = self.current_step_index;
                match &interaction.interaction_type {
                    InteractionType::Click => {
                        click_matches = match (&self.scenarios[k].steps[idx].action, &interaction.element_id) {
                            (Some(DemoAction::ClickButton(b)), Some(e)) => str_eq(e.as_str(), b.as_str()),
                            _ => false,
                        };
                    },
                    InteractionType::KeyPress(key) => {
                        key_advances = str_eq(key.as_str(), "Enter") || str_eq(key.as_str(), " ");
                        key_escape = str_eq(key.as_str(), "Escape");
                        key_help = str_eq(key.as_str(), "?");
                    },
                    _ => {},
                }
            },
            None => {},
        }
        proof {
            reveal_strlit("Enter");
            reveal_strlit(" ");
            reveal_strlit("?");
            reveal_strlit("Escape");
            if self.current_scenario is Some {
                assert(key_escape == is_key(interaction, "Escape"@));
                assert(key_help == is_key(interaction, "?"@));
                assert((click_matches || key_advances) == advances_step(interaction, self.current_step_view().unwrap()));
                assert("Enter"@.len() != "?"@.len() && "Enter"@.len() != "Escape"@.len());
                assert(" "@[0] != "?"@[0] && " "@.len() != "Escape"@.len());
                assert(key_advances ==> !key_help && !key_escape);
            }
        }
        self.user_interactions.push_back(interaction);
        if self.user_interactions.len() > MAX_INTERACTIONS {
            let _oldest = self.user_interactions.pop_front();
            assert(self.user_interactions@ =~= before.push(interaction).drop_first());
        }
        let ghost recorded = *self;
        let k = match self.current_scenario {
            Some(k) => k,
            None => {
                return false;
            },
        };
        if !self.scenarios[k].steps[self.current_step_index].wait_for_user {
            return false;
        }
        if click_matches || key_advances {
            let res = self.next_step_at(tick);
            assert(advanced_or_held(recorded, *self, tick, res));
            false
        } else if key_escape {
            self.pause();
            false
        } else {
            key_help
        }
    }

    /// Records a learner input now; see `handle_interaction_at`.
    pub fn handle_interaction(&mut self, interaction: UserInteraction) -> (r: bool)
        requires
            old(self).inv(),
        ensures
            final(self).inv(),
            exists|tick: DemoTick| #[trigger] interaction_handled(*old(self), *final(self), interaction, tick, r),
    {
        let t = self.read_clock();
        self.handle_interaction_at(interaction, t)
    }

    /// The highlight of an element, if the shown step highlights it.
    pub fn should_highlight(&self, element_id: &str) -> (r: Option<&HighlightStyle>)
        ensures
            r == match position_of(keyed(self.highlights@), element_id@) {
                Some(j) => Some(&self.highlights@[j].1),
                None => None,
            },
    {
        let mut i: usize = 0;
        while i < self.highlights.len()
            invariant
                i <= self.highlights@.len(),
                forall|j: int| 0 <= j < i ==> (#[trigger] self.highlights@[j]).0@ != element_id@,
            decreases self.highlights@.len() - i,
        {
            if str_eq(self.highlights[i].0.as_str(), element_id) {
                proof {
                    assert forall|j: int| 0 <= j < i implies (#[trigger] keyed(self.highlights@)[j]).0 != element_id@ by {
                        assert(keyed(self.highlights@)[j].0 == self.highlights@[j].0@);
                    }
                    lemma_first_position(keyed(self.highlights@), element_id@, i as int);
                }
                return Some(&self.highlights[i].1);
            }
            i = i + 1;
        }
        proof {
            assert forall|j: int| 0 <= j < keyed(self.highlights@).len() implies (#[trigger] keyed(self.highlights@)[j]).0 != element_id@ by {
                assert(keyed(self.highlights@)[j].0 == self.highlights@[j].0@);
            }
            lemma_no_position(keyed(self.highlights@), element_id@);
        }
        None
    }

    /// The tooltip of an element, if the shown step has one for it.
    pub fn get_tooltip(&self, element_id: &str) -> (r: Option<&String>)
        ensures
            r == match position_of(keyed(self.tooltips@), element_id@) {
                Some(j) => Some(&self.tooltips@[j].1),
                None => None,
            },
    {
        let mut i: usize = 0;
        while i < self.tooltips.len()
            invariant
                i <= self.tooltips@.len(),
                forall|j: int| 0 <= j < i ==> (#[trigger] self.tooltips@[j]).0@ != element_id@,
            decreases self.tooltips@.len() - i,
        {
            if str_eq(self.tooltips[i].0.as_str(), element_id) {
                proof {
                    assert forall|j: int| 0 <= j < i implies (#[trigger] keyed(self.tooltips@)[j]).0 != element_id@ by {
                        assert(keyed(self.tooltips@)[j].0 == self.tooltips@[j].0@);
                    }
                    lemma_first_position(keyed(self.tooltips@), element_id@, i as int);
                }
                return Some(&self.tooltips[i].1);
            }
            i = i + 1;
        }
        proof {
            assert forall|j: int| 0 <= j < keyed(self.tooltips@).len() implies (#[trigger] keyed(self.tooltips@)[j]).0 != element_id@ by {
                assert(keyed(self.tooltips@)[j].0 == self.tooltips@[j].0@);
            }
            lemma_no_position(keyed(self.tooltips@), element_id@);
        }
        None
    }

    /// Whether every prerequisite of scenario `k` is completed.
    fn prerequisites_met(&self, k: usize) -> (r: bool)
        requires
            k < self.scenarios@.len(),
        ensures
            r == forall|j: int| 0 <= j < self.scenarios@[k as int].prerequisites@.len()
                ==> self.completed_view().contains(#[trigger] self.scenarios@[k as int].prerequisites@[j]@),
    {
        let n = self.scenarios[k].prerequisites.len();
        let mut i: usize = 0;
        while i < n
            invariant
                k < self.scenarios@.len(),
                n == self.scenarios@[k as int].prerequisites@.len(),
                i <= n,
                forall|j: int| 0 <= j < i ==> self.completed_view().contains(#[trigger] self.scenarios@[k as int].prerequisites@[j]@),
            decreases n - i,
        {
            if !contains_str(&self.state.completed_scenarios, self.scenarios[k].prerequisites[i].as_str()) {
                return false;
            }
            i = i + 1;
        }
        true
    }

    /// The easiest tour that is not completed and whose prerequisites are;
    /// among equally easy ones, the first kept.
    pub fn get_recommended_scenario(&self) -> (r: Option<&DemoScenario>)
        ensures
            r is None <==> forall|k: int| 0 <= k < self.scenarios@.len() ==> !eligible(#[trigger] self.scenarios@[k], self.completed_view()),
            r matches Some(s) ==> easiest_eligible(self.scenarios@, self.completed_view(), *s),
    {
        let mut best: Option<usize> = None;
        let mut i: usize = 0;
        while i < self.scenarios.len()
            invariant
                i <= self.scenarios@.len(),
                best matches Some(b) ==> b < i && eligible(self.scenarios@[b as int], self.completed_view())
                    && forall|m: int| 0 <= m < i && eligible(#[trigger] self.scenarios@[m], self.completed_view())
                        ==> difficulty_rank(self.scenarios@[b as int].difficulty) <= difficulty_rank(self.scenarios@[m].difficulty),
                best is None ==> forall|m: int| 0 <= m < i ==> !eligible(#[trigger] self.scenarios@[m], self.completed_view()),
            decreases self.scenarios@.len() - i,
        {
            let done = contains_str(&self.state.completed_scenarios, self.scenarios[i].id.as_str());
            if !done && self.prerequisites_met(i) {
                let better = match best {
                    Some(b) => difficulty_number(self.scenarios[i].difficulty) < difficulty_number(self.scenarios[b].difficulty),
                    None => true,
                };
                if better {
                    best = Some(i);
                }
            }
            i = i + 1;
        }
        match best {
            Some(b) => Some(&self.scenarios[b]),
            None => None,
        }
    }

    /// All tours, ordered by category; tours of one category keep their order.
    pub fn get_available_scenarios(&self) -> (r: Vec<&DemoScenario>)
        ensures
            r@.len() == self.scenarios@.len(),
            in_category_order(r@),
            forall|j: int| 0 <= j < r@.len() ==> self.scenarios@.contains(*#[trigger] r@[j]),
    {
        let mut out: Vec<&DemoScenario> = Vec::new();
        let mut c: u8 = 0;
        proof {
            lemma_filter_below_zero(self.scenarios@);
        }
        while c < 6
            invariant
                c <= 6,
                forall|j: int| 0 <= j < out@.len() ==> category_rank(#[trigger] out@[j].category) < c,
                forall|a: int, b: int| 0 <= a < b < out@.len() ==> category_rank(out@[a].category) <= category_rank(out@[b].category),
                forall|j: int| 0 <= j < out@.len() ==> self.scenarios@.contains(*#[trigger] out@[j]),
                out@.len() == self.scenarios@.filter(|s: DemoScenario| category_rank(s.category) < c).len(),
            decreases 6 - c,
        {
            let ghost prev = out@;
            let mut i: usize = 0;
            assert(self.scenarios@.take(0).filter(|s: DemoScenario| category_rank(s.category) == c).len() == 0) by {
                reveal(Seq::filter);
            }
            while i < self.scenarios.len()
                invariant
                    c < 6,
                    i <= self.scenarios@.len(),
                    prev.len() <= out@.len(),
                    forall|j: int| 0 <= j < prev.len() ==> out@[j] == prev[j],
                    forall|j: int| prev.len() <= j < out@.len() ==> category_rank((#[trigger] out@[j]).category) == c,
                    forall|j: int| 0 <= j < prev.len() ==> category_rank(#[trigger] prev[j].category) < c,
                    forall|a: int, b: int| 0 <= a < b < prev.len() ==> category_rank(prev[a].category) <= category_rank(prev[b].category),
                    forall|j: int| 0 <= j < out@.len() ==> self.scenarios@.contains(*#[trigger] out@[j]),
                    out@.len() - prev.len() == self.scenarios@.take(i as int).filter(|s: DemoScenario| category_rank(s.category) == c).len(),
                decreases self.scenarios@.len() - i,
            {
                proof {
                    reveal(Seq::filter);
                }
                assert(self.scenarios@.take(i + 1).drop_last() =~= self.scenarios@.take(i as int));
                if category_number(self.scenarios[i].category) == c {
                    out.push(&self.scenarios[i]);
                    assert(self.scenarios@.contains(self.scenarios@[i as int]));
                }
                i = i + 1;
            }
            proof {
                assert(self.scenarios@.take(self.scenarios@.len() as int) =~= self.scenarios@);
                lemma_filter_split(self.scenarios@, c as int);
                assert forall|j: int| 0 <= j < out@.len() implies category_rank(#[trigger] out@[j].category) < c + 1 by {
                    if j < prev.len() {
                        assert(out@[j] == prev[j]);
                    }
                }
                assert forall|a: int, b: int| 0 <= a < b < out@.len() implies category_rank(out@[a].category) <= category_rank(out@[b].category) by {
                    if b < prev.len() {
                        assert(out@[a] == prev[a]);
                        assert(out@[b] == prev[b]);
                    } else if a < prev.len() {
                        assert(out@[a] == prev[a]);
                        assert(category_rank(prev[a].category) < c);
                        assert(category_rank(out@[b].category) == c);
                    } else {
                        assert(category_rank(out@[a].category) == c);
                        assert(category_rank(out@[b].category) == c);
                    }
                }
            }
            c = c + 1;
        }
        proof {
            lemma_filter_all(self.scenarios@);
        }
        out
    }
}

/// No scenario has a category rank below zero.
proof fn lemma_filter_below_zero(s: Seq<DemoScenario>)
    ensures
        s.filter(|x: DemoScenario| category_rank(x.category) < 0).len() == 0,
    decreases s.len(),
{
    reveal(Seq::filter);
    if s.len() > 0 {
        lemma_filter_below_zero(s.drop_last());
    }
}

/// Scenarios of category rank below `c + 1` are those below `c` and those of rank `c`.
proof fn lemma_filter_split(s: Seq<DemoScenario>, c: int)
    ensures
        s.filter(|x: DemoScenario| category_rank(x.category) < c + 1).len()
            == s.filter(|x: DemoScenario| category_rank(x.category) < c).len()
            + s.filter(|x: DemoScenario| category_rank(x.category) == c).len(),
    decreases s.len(),
{
    reveal(Seq::filter);
    if s.len() > 0 {
        lemma_filter_split(s.drop_last(), c);
    }
}

/// Every scenario has a category rank below six.
proof fn lemma_filter_all(s: Seq<DemoScenario>)
    ensures
        s.filter(|x: DemoScenario| category_rank(x.category) < 6) == s,
    decreases s.len(),
{
    reveal(Seq::filter);
    if s.len() > 0 {
        lemma_filter_all(s.drop_last());
        assert(s.drop_last().push(s.last()) =~= s);
    }
}


/// The overlay text of a running tour.
pub open spec fn overlay_spec(c: DemoController) -> Seq<char> {
    if !c.is_active || c.current_scenario is None {
        Seq::empty()
    } else {
        let sc = c.scenarios@[c.current_scenario.unwrap() as int];
        let st = c.current_step_view().unwrap();
        "📚 "@ + sc.name@ + " - "@ + st.title@ + " ("@ + decimal((c.current_step_index + 1) as nat) + "/"@
            + decimal(sc.steps@.len()) + ")\n\n"@ + st.description@ + "\n\n"@
            + (if c.is_paused { "⏸ PAUSED"@ } else { ""@ })
            + "\n\nPress Space to continue • Esc to pause • ? for help"@
    }
}

/// The text shown over the interface while a tour runs: tour, step,
/// position, description and key help; empty when no tour runs.
pub fn demo_overlay_text(controller: &DemoController) -> (r: String)
    requires
        controller.inv(),
    ensures
        r@ == overlay_spec(*controller),
{
    if !controller.is_active {
        return String::new();
    }
    let k = match controller.current_scenario {
        Some(k) => k,
        None => {
            return String::new();
        },
    };
    let sc = &controller.scenarios[k];
    let st = &sc.steps[controller.current_step_index];
    let n = sc.steps.len();
    let mut s = owned("📚 ");
    s.append(sc.name.as_str());
    s.append(" - ");
    s.append(st.title.as_str());
    s.append(" (");
    s.append(u64_to_string((controller.current_step_index + 1) as u64).as_str());
    s.append("/");
    s.append(u64_to_string(n as u64).as_str());
    s.append(")\n\n");
    s.append(st.description.as_str());
    s.append("\n\n");
    if controller.is_paused {
        s.append("⏸ PAUSED");
    } else {
        s.append("");
    }
    s.append("\n\nPress Space to continue • Esc to pause • ? for help");
    s
}

/// `s` is one of `scenarios`, eligible given `completed`, and no eligible
/// tour is easier.
pub open spec fn easiest_eligible(scenarios: Seq<DemoScenario>, completed: Seq<Seq<char>>, s: DemoScenario) -> bool {
    exists|k: int|
        0 <= k < scenarios.len() && #[trigger] scenarios[k] == s && eligible(s, completed) && forall|m: int|
            0 <= m < scenarios.len() && eligible(#[trigger] scenarios[m], completed) ==> difficulty_rank(s.difficulty)
                <= difficulty_rank(scenarios[m].difficulty)
}

/// The tours `r` are listed by category, in the order the categories are
/// declared.
pub open spec fn in_category_order(r: Seq<&DemoScenario>) -> bool {
    forall|a: int, b: int| 0 <= a < b < r.len() ==> category_rank(r[a].category) <= category_rank(r[b].category)
}

/// Whether difficulty `d` is no harder than `e`: beginner, then
/// intermediate, then advanced, then expert.
pub open spec fn no_harder(d: DemoDifficulty, e: DemoDifficulty) -> bool {
    ||| d == e
    ||| d == DemoDifficulty::Beginner
    ||| e == DemoDifficulty::Expert
    ||| d == DemoDifficulty::Intermediate && e == DemoDifficulty::Advanced
}

/// Whether category `c` comes no later than `d`: onboarding, then feature
/// tours, advanced ones, troubleshooting, tips and research.
pub open spec fn no_later(c: DemoCategory, d: DemoCategory) -> bool {
    ||| c == d
    ||| c == DemoCategory::Onboarding
    ||| d == DemoCategory::Research
    ||| c == DemoCategory::Feature && (d == DemoCategory::Advanced || d == DemoCategory::Troubleshooting || d
        == DemoCategory::Tips)
    ||| c == DemoCategory::Advanced && (d == DemoCategory::Troubleshooting || d == DemoCategory::Tips)
    ||| c == DemoCategory::Troubleshooting && d == DemoCategory::Tips
}

/// The recommended tour is the easiest one that can be taken: every
/// eligible tour is at least as hard, so a beginner tour is recommended
/// whenever one is eligible, and an expert tour only when every eligible
/// tour is one.
pub proof fn lemma_recommendation_is_easiest(scenarios: Seq<DemoScenario>, completed: Seq<Seq<char>>, s: DemoScenario)
    requires
        easiest_eligible(scenarios, completed, s),
    ensures
        eligible(s, completed),
        scenarios.contains(s),
        forall|m: int|
            0 <= m < scenarios.len() && eligible(#[trigger] scenarios[m], completed) ==> no_harder(
                s.difficulty,
                scenarios[m].difficulty,
            ),
        (exists|m: int|
            0 <= m < scenarios.len() && eligible(#[trigger] scenarios[m], completed) && scenarios[m].difficulty
                == DemoDifficulty::Beginner) ==> s.difficulty == DemoDifficulty::Beginner,
        s.difficulty == DemoDifficulty::Expert ==> forall|m: int|
            0 <= m < scenarios.len() && eligible(#[trigger] scenarios[m], completed) ==> scenarios[m].difficulty
                == DemoDifficulty::Expert,
{
    let k = choose|k: int|
        0 <= k < scenarios.len() && #[trigger] scenarios[k] == s && eligible(s, completed) && forall|m: int|
            0 <= m < scenarios.len() && eligible(#[trigger] scenarios[m], completed) ==> difficulty_rank(s.difficulty)
                <= difficulty_rank(scenarios[m].difficulty);
    assert(scenarios[k] == s);
}

/// The tours are listed by category: onboarding first, then feature tours,
/// advanced ones, troubleshooting, tips, and research last.
pub proof fn lemma_listed_by_category(r: Seq<&DemoScenario>)
    requires
        in_category_order(r),
    ensures
        forall|a: int, b: int| 0 <= a < b < r.len() ==> no_later(r[a].category, r[b].category),
{
}

/// When a step is passed over: a step kept for the hours `before_hour` to
/// `after_hour` is passed over at exactly the hours outside that window
/// (and never inside it); a step for learners who have not yet completed a
/// tour is passed over exactly when they have; a step on an application
/// state is never passed over.
pub proof fn lemma_skip_conditions(
    before_hour: u8,
    after_hour: u8,
    name: String,
    state: String,
    completed: Seq<Seq<char>>,
    hour: u32,
)
    ensures
        skip_met(SkipCondition::IfTime { before_hour, after_hour }, completed, hour) <==> !(before_hour <= hour
            && hour <= after_hour),
        skip_met(SkipCondition::IfCompleted(name), completed, hour) <==> completed.contains(name@),
        !skip_met(SkipCondition::IfState(state), completed, hour),
{
}

} // verus!
