//! Application state: screens and navigation, loading flags, theme colours,
//! user and session bookkeeping.

pub mod app_state;

use vstd::prelude::*;
use crate::text::{leading_count, lower, lower_char, lower_matches, strip_leading};

verus! {

/// Operations that can be in flight while the UI shows a spinner.
#[derive(Debug, Clone, Copy, PartialEq, Eq, Structural)]
pub enum LoadingKey {
    Login,
    Signup,
    Session,
    Task,
    Analytics,
}

/// Outcomes of a background sign-in, handed back to the UI loop.
#[derive(Debug, Clone)]
pub enum AuthEvent {
    AppleSignInSuccess {
        user_id: String,
        email: Option<String>,
        given_name: Option<String>,
        family_name: Option<String>,
    },
    AppleSignInError(String),
}

/// Every screen of the application.
#[derive(Debug)]
pub enum Screen {
    Login,
    Signup,
    OAuthCallback,
    Dashboard,
    Learning,
    Welcome,
    DomainSelection,
    Training,
    Progress,
    Analytics,
    Visualizations,
    Leaderboard,
    Challenges,
    Friends,
    Settings,
    Profile,
    Loading,
    Error(String),
    Logout,
    WidgetGallery,
}

impl Clone for Screen {
    fn clone(&self) -> (r: Self)
        ensures
            r == *self,
    {
        match self {
            Screen::Login => Screen::Login,
            Screen::Signup => Screen::Signup,
            Screen::OAuthCallback => Screen::OAuthCallback,
            Screen::Dashboard => Screen::Dashboard,
            Screen::Learning => Screen::Learning,
            Screen::Welcome => Screen::Welcome,
            Screen::DomainSelection => Screen::DomainSelection,
            Screen::Training => Screen::Training,
            Screen::Progress => Screen::Progress,
            Screen::Analytics => Screen::Analytics,
            Screen::Visualizations => Screen::Visualizations,
            Screen::Leaderboard => Screen::Leaderboard,
            Screen::Challenges => Screen::Challenges,
            Screen::Friends => Screen::Friends,
            Screen::Settings => Screen::Settings,
            Screen::Profile => Screen::Profile,
            Screen::Loading => Screen::Loading,
            Screen::Error(m) => Screen::Error(m.clone()),
            Screen::Logout => Screen::Logout,
            Screen::WidgetGallery => Screen::WidgetGallery,
        }
    }
}

/// The title shown for a screen.
pub open spec fn screen_title(s: Screen) -> Seq<char> {
    match s {
        Screen::Login => "Login"@,
        Screen::Signup => "Sign Up"@,
        Screen::Dashboard => "Dashboard"@,
        Screen::Learning => "Learning Session"@,
        Screen::Welcome => "Welcome"@,
        Screen::DomainSelection => "Select Domain"@,
        Screen::Training => "Training"@,
        Screen::Progress => "Progress"@,
        Screen::Analytics => "Analytics"@,
        Screen::Visualizations => "Visualizations"@,
        Screen::Leaderboard => "Leaderboard"@,
        Screen::Challenges => "Challenges"@,
        Screen::Friends => "Friends"@,
        Screen::Settings => "Settings"@,
        Screen::Profile => "Profile"@,
        Screen::Loading => "Loading"@,
        Screen::Error(_) => "Error"@,
        Screen::Logout => "Logout"@,
        Screen::WidgetGallery => "Widget Gallery"@,
        Screen::OAuthCallback => ""@,
    }
}

/// The URL fragment of a screen; screens without one use the dashboard's.
pub open spec fn screen_fragment(s: Screen) -> Seq<char> {
    match s {
        Screen::Login => "login"@,
        Screen::Signup => "signup"@,
        Screen::Dashboard => "dashboard"@,
        Screen::Learning => "learning"@,
        Screen::Welcome => "welcome"@,
        Screen::DomainSelection => "domain-selection"@,
        Screen::Training => "training"@,
        Screen::Progress => "progress"@,
        Screen::Analytics => "analytics"@,
        Screen::Visualizations => "visualizations"@,
        Screen::Leaderboard => "leaderboard"@,
        Screen::Challenges => "challenges"@,
        Screen::Friends => "friends"@,
        Screen::Settings => "settings"@,
        Screen::Profile => "profile"@,
        Screen::WidgetGallery => "widget-gallery"@,
        _ => "dashboard"@,
    }
}

/// The screen that a normalised fragment (no leading `#`, lower case) names.
pub open spec fn screen_for_word(w: Seq<char>) -> Option<Screen> {
    if w == "login"@ { Some(Screen::Login) }
    else if w == "signup"@ || w == "sign-up"@ { Some(Screen::Signup) }
    else if w == "dashboard"@ { Some(Screen::Dashboard) }
    else if w == "learning"@ { Some(Screen::Learning) }
    else if w == "welcome"@ { Some(Screen::Welcome) }
    else if w == "domain-selection"@ || w == "domains"@ { Some(Screen::DomainSelection) }
    else if w == "training"@ { Some(Screen::Training) }
    else if w == "progress"@ { Some(Screen::Progress) }
    else if w == "analytics"@ { Some(Screen::Analytics) }
    else if w == "visualizations"@ || w == "viz"@ { Some(Screen::Visualizations) }
    else if w == "leaderboard"@ { Some(Screen::Leaderboard) }
    else if w == "challenges"@ { Some(Screen::Challenges) }
    else if w == "friends"@ { Some(Screen::Friends) }
    else if w == "settings"@ { Some(Screen::Settings) }
    else if w == "profile"@ { Some(Screen::Profile) }
    else if w == "widget-gallery"@ || w == "widgets"@ { Some(Screen::WidgetGallery) }
    else { None }
}

/// The screen named by a URL fragment: leading `#` characters are dropped
/// and letters compared without regard to case.
pub open spec fn screen_for_fragment(f: Seq<char>) -> Option<Screen> {
    screen_for_word(lower(strip_leading(f, '#')))
}

/// The screens that have a fragment of their own.
pub open spec fn has_own_fragment(s: Screen) -> bool {
    !(s is OAuthCallback || s is Loading || s is Error || s is Logout)
}

impl Screen {
    pub fn title(&self) -> (r: &'static str)
        ensures
            r@ == screen_title(*self),
    {
        match self {
            Screen::Login => "Login",
            Screen::Signup => "Sign Up",
            Screen::Dashboard => "Dashboard",
            Screen::Learning => "Learning Session",
            Screen::Welcome => "Welcome",
            Screen::DomainSelection => "Select Domain",
            Screen::Training => "Training",
            Screen::Progress => "Progress",
            Screen::Analytics => "Analytics",
            Screen::Visualizations => "Visualizations",
            Screen::Leaderboard => "Leaderboard",
            Screen::Challenges => "Challenges",
            Screen::Friends => "Friends",
            Screen::Settings => "Settings",
            Screen::Profile => "Profile",
            Screen::Loading => "Loading",
            Screen::Error(_) => "Error",
            Screen::Logout => "Logout",
            Screen::WidgetGallery => "Widget Gallery",
            Screen::OAuthCallback => "",
        }
    }

    /// Parses a screen from a URL fragment such as `#Dashboard`.
    pub fn from_url_fragment(fragment: &str) -> (r: Option<Screen>)
        ensures
            r == screen_for_fragment(fragment@),
    {
        let st = leading_count(fragment, '#');
        if lower_matches(fragment, st, "login") { Some(Screen::Login) }
        else if lower_matches(fragment, st, "signup") || lower_matches(fragment, st, "sign-up") { Some(Screen::Signup) }
        else if lower_matches(fragment, st, "dashboard") { Some(Screen::Dashboard) }
        else if lower_matches(fragment, st, "learning") { Some(Screen::Learning) }
        else if lower_matches(fragment, st, "welcome") { Some(Screen::Welcome) }
        else if lower_matches(fragment, st, "domain-selection") || lower_matches(fragment, st, "domains") { Some(Screen::DomainSelection) }
        else if lower_matches(fragment, st, "training") { Some(Screen::Training) }
        else if lower_matches(fragment, st, "progress") { Some(Screen::Progress) }
        else if lower_matches(fragment, st, "analytics") { Some(Screen::Analytics) }
        else if lower_matches(fragment, st, "visualizations") || lower_matches(fragment, st, "viz") { Some(Screen::Visualizations) }
        else if lower_matches(fragment, st, "leaderboard") { Some(Screen::Leaderboard) }
        else if lower_matches(fragment, st, "challenges") { Some(Screen::Challenges) }
        else if lower_matches(fragment, st, "friends") { Some(Screen::Friends) }
        else if lower_matches(fragment, st, "settings") { Some(Screen::Settings) }
        else if lower_matches(fragment, st, "profile") { Some(Screen::Profile) }
        else if lower_matches(fragment, st, "widget-gallery") || lower_matches(fragment, st, "widgets") { Some(Screen::WidgetGallery) }
        else { None }
    }

    /// The URL fragment for this screen.
    pub fn to_url_fragment(&self) -> (r: &'static str)
        ensures
            r@ == screen_fragment(*self),
    {
        match self {
            Screen::Login => "login",
            Screen::Signup => "signup",
            Screen::Dashboard => "dashboard",
            Screen::Learning => "learning",
            Screen::Welcome => "welcome",
            Screen::DomainSelection => "domain-selection",
            Screen::Training => "training",
            Screen::Progress => "progress",
            Screen::Analytics => "analytics",
            Screen::Visualizations => "visualizations",
            Screen::Leaderboard => "leaderboard",
            Screen::Challenges => "challenges",
            Screen::Friends => "friends",
            Screen::Settings => "settings",
            Screen::Profile => "profile",
            Screen::WidgetGallery => "widget-gallery",
            _ => "dashboard",
        }
    }
}


/// Status of the live connection to the backend.
#[derive(Debug, Clone)]
pub enum ConnectionStatus {
    Connected,
    Connecting,
    Disconnected,
    Error(String),
}

/// Signals that a learner is struggling with the current tasks.
#[derive(Debug, Clone, Copy, PartialEq, Eq, Structural)]
pub struct StruggleState {
    pub consecutive_errors: u32,
    pub consecutive_correct: u32,
    pub response_time_ms: u128,
    pub hint_requested: bool,
    pub difficulty_adjustment_needed: bool,
}

impl Default for StruggleState {
    fn default() -> (r: Self)
        ensures
            r.consecutive_errors == 0,
            r.consecutive_correct == 0,
            r.response_time_ms == 0,
            !r.hint_requested,
            !r.difficulty_adjustment_needed,
    {
        StruggleState {
            consecutive_errors: 0,
            consecutive_correct: 0,
            response_time_ms: 0,
            hint_requested: false,
            difficulty_adjustment_needed: false,
        }
    }
}

impl StruggleState {
    /// Counts an answer: a right one lengthens the run of right answers and
    /// ends the run of errors, a wrong one the other way round.
    pub fn record_answer(&mut self, correct: bool)
        requires
            correct ==> old(self).consecutive_correct < u32::MAX,
            !correct ==> old(self).consecutive_errors < u32::MAX,
        ensures
            correct ==> *final(self) == (StruggleState {
                consecutive_correct: (old(self).consecutive_correct + 1) as u32,
                consecutive_errors: 0,
                ..*old(self)
            }),
            !correct ==> *final(self) == (StruggleState {
                consecutive_errors: (old(self).consecutive_errors + 1) as u32,
                consecutive_correct: 0,
                ..*old(self)
            }),
    {
        if correct {
            self.consecutive_correct = self.consecutive_correct + 1;
            self.consecutive_errors = 0;
        } else {
            self.consecutive_errors = self.consecutive_errors + 1;
            self.consecutive_correct = 0;
        }
    }
}

/// Light, dark, or following the system.
#[derive(Debug, Clone, Copy, PartialEq, Eq, Structural)]
pub enum ThemeMode {
    Light,
    Dark,
    Auto,
}

/// An opaque colour given by its red, green and blue bytes.
#[derive(Debug, Clone, Copy, PartialEq, Eq, Structural)]
pub struct Rgb8 {
    pub r: u8,
    pub g: u8,
    pub b: u8,
}

pub open spec fn rgb(r: u8, g: u8, b: u8) -> Rgb8 {
    Rgb8 { r, g, b }
}

/// The high-contrast palette of the application.
#[derive(Debug, Clone, Copy, PartialEq, Eq, Structural)]
pub struct Theme {
    pub mode: ThemeMode,
}

impl Default for Theme {
    fn default() -> (r: Self)
        ensures
            r.mode == ThemeMode::Light,
    {
        Theme { mode: ThemeMode::Light }
    }
}

/// Automatic mode uses the light palette.
pub open spec fn is_dark(m: ThemeMode) -> bool {
    m == ThemeMode::Dark
}

impl Theme {
    /// Background: white, or near-black in dark mode.
    pub fn background_color(&self) -> (c: Rgb8)
        ensures
            c == (if is_dark(self.mode) { rgb(18, 18, 18) } else { rgb(255, 255, 255) }),
    {
        match self.mode {
            ThemeMode::Dark => Rgb8 { r: 18, g: 18, b: 18 },
            _ => Rgb8 { r: 255, g: 255, b: 255 },
        }
    }

    /// Text: black, or white in dark mode.
    pub fn text_color(&self) -> (c: Rgb8)
        ensures
            c == (if is_dark(self.mode) { rgb(255, 255, 255) } else { rgb(0, 0, 0) }),
    {
        match self.mode {
            ThemeMode::Dark => Rgb8 { r: 255, g: 255, b: 255 },
            _ => Rgb8 { r: 0, g: 0, b: 0 },
        }
    }

    /// Primary accent: a strong blue, lighter in dark mode.
    pub fn primary_color(&self) -> (c: Rgb8)
        ensures
            c == (if is_dark(self.mode) { rgb(51, 153, 255) } else { rgb(0, 92, 197) }),
    {
        match self.mode {
            ThemeMode::Dark => Rgb8 { r: 51, g: 153, b: 255 },
            _ => Rgb8 { r: 0, g: 92, b: 197 },
        }
    }

    /// Success: a strong green, lighter in dark mode.
    pub fn success_color(&self) -> (c: Rgb8)
        ensures
            c == (if is_dark(self.mode) { rgb(80, 220, 100) } else { rgb(0, 128, 0) }),
    {
        match self.mode {
            ThemeMode::Dark => Rgb8 { r: 80, g: 220, b: 100 },
            _ => Rgb8 { r: 0, g: 128, b: 0 },
        }
    }

    /// Error: a strong red, lighter in dark mode.
    pub fn error_color(&self) -> (c: Rgb8)
        ensures
            c == (if is_dark(self.mode) { rgb(255, 85, 85) } else { rgb(200, 0, 0) }),
    {
        match self.mode {
            ThemeMode::Dark => Rgb8 { r: 255, g: 85, b: 85 },
            _ => Rgb8 { r: 200, g: 0, b: 0 },
        }
    }

    /// Warning: a strong orange, lighter in dark mode.
    pub fn warning_color(&self) -> (c: Rgb8)
        ensures
            c == (if is_dark(self.mode) { rgb(255, 204, 77) } else { rgb(204, 102, 0) }),
    {
        match self.mode {
            ThemeMode::Dark => Rgb8 { r: 255, g: 204, b: 77 },
            _ => Rgb8 { r: 204, g: 102, b: 0 },
        }
    }

    /// Surface for cards and panels.
    pub fn surface_color(&self) -> (c: Rgb8)
        ensures
            c == (if is_dark(self.mode) { rgb(28, 28, 30) } else { rgb(240, 240, 240) }),
    {
        match self.mode {
            ThemeMode::Dark => Rgb8 { r: 28, g: 28, b: 30 },
            _ => Rgb8 { r: 240, g: 240, b: 240 },
        }
    }
}

proof fn lemma_plain_word(w: Seq<char>)
    requires
        w.len() > 0,
        w[0] != '#',
        forall|j: int| 0 <= j < w.len() ==> lower_char(#[trigger] w[j]) == w[j],
    ensures
        screen_for_fragment(w) == screen_for_word(w),
{
    assert(lower(w) =~= w);
}

/// The fragment of every screen that has one leads back to that screen.
pub proof fn lemma_fragment_round_trip(s: Screen)
    requires
        has_own_fragment(s),
    ensures
        screen_for_fragment(screen_fragment(s)) == Some(s),
{
    reveal_strlit("login");
    reveal_strlit("signup");
    reveal_strlit("sign-up");
    reveal_strlit("dashboard");
    reveal_strlit("learning");
    reveal_strlit("welcome");
    reveal_strlit("domain-selection");
    reveal_strlit("domains");
    reveal_strlit("training");
    reveal_strlit("progress");
    reveal_strlit("analytics");
    reveal_strlit("visualizations");
    reveal_strlit("viz");
    reveal_strlit("leaderboard");
    reveal_strlit("challenges");
    reveal_strlit("friends");
    reveal_strlit("settings");
    reveal_strlit("profile");
    reveal_strlit("widget-gallery");
    reveal_strlit("widgets");
    let w = screen_fragment(s);
    lemma_plain_word(w);
}

} // verus!
