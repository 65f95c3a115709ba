//! Platform-independent pieces of the component library: colours and
//! themes, the kinds of cards, toasts, alerts, badges and form fields, the
//! texts those components show, and the sidebar's navigation structure.

use vstd::prelude::*;
use crate::gamification::profile::GamificationProfile;
use crate::state::{rgb, Rgb8, Screen};
use crate::text::{decimal, owned, u64_to_string};

verus! {

/// A component that a platform builds into its own view type.
pub trait Component: Sized {
    type Output;

    fn build(self) -> Self::Output;
}

/// The colours of the application's palette.
#[derive(Debug, Clone, Copy, PartialEq, Eq, Structural)]
pub enum AppColor {
    Primary,
    Secondary,
    Success,
    Warning,
    Error,
    Info,
    Surface,
    Background,
    Text,
    TextMuted,
}

/// The appearance the user picked.
#[derive(Debug, Clone, Copy, PartialEq, Eq, Structural)]
pub enum AppTheme {
    Light,
    Dark,
    Auto,
}

pub open spec fn css_color(c: AppColor) -> Seq<char> {
    match c {
        AppColor::Primary => "#0066cc"@,
        AppColor::Secondary => "#6c757d"@,
        AppColor::Success => "#28a745"@,
        AppColor::Warning => "#ffc107"@,
        AppColor::Error => "#dc3545"@,
        AppColor::Info => "#17a2b8"@,
        AppColor::Surface => "#f8f9fa"@,
        AppColor::Background => "#ffffff"@,
        AppColor::Text => "#212529"@,
        AppColor::TextMuted => "#6c757d"@,
    }
}

/// The CSS colour of a palette colour on the web.
pub fn color_to_css(color: AppColor) -> (r: &'static str)
    ensures
        r@ == css_color(color),
{
    match color {
        AppColor::Primary => "#0066cc",
        AppColor::Secondary => "#6c757d",
        AppColor::Success => "#28a745",
        AppColor::Warning => "#ffc107",
        AppColor::Error => "#dc3545",
        AppColor::Info => "#17a2b8",
        AppColor::Surface => "#f8f9fa",
        AppColor::Background => "#ffffff",
        AppColor::Text => "#212529",
        AppColor::TextMuted => "#6c757d",
    }
}

pub open spec fn native_color(c: AppColor) -> Rgb8 {
    match c {
        AppColor::Primary => rgb(59, 130, 246),
        AppColor::Secondary => rgb(147, 51, 234),
        AppColor::Success => rgb(34, 197, 94),
        AppColor::Warning => rgb(251, 146, 60),
        AppColor::Error => rgb(239, 68, 68),
        AppColor::Info => rgb(23, 162, 184),
        AppColor::Surface => rgb(255, 255, 255),
        AppColor::Background => rgb(249, 250, 251),
        AppColor::Text => rgb(17, 24, 39),
        AppColor::TextMuted => rgb(128, 128, 128),
    }
}

/// The colour of a palette colour in the native toolkit.
pub fn map_color(color: AppColor) -> (r: Rgb8)
    ensures
        r == native_color(color),
{
    match color {
        AppColor::Primary => Rgb8 { r: 59, g: 130, b: 246 },
        AppColor::Secondary => Rgb8 { r: 147, g: 51, b: 234 },
        AppColor::Success => Rgb8 { r: 34, g: 197, b: 94 },
        AppColor::Warning => Rgb8 { r: 251, g: 146, b: 60 },
        AppColor::Error => Rgb8 { r: 239, g: 68, b: 68 },
        AppColor::Info => Rgb8 { r: 23, g: 162, b: 184 },
        AppColor::Surface => Rgb8 { r: 255, g: 255, b: 255 },
        AppColor::Background => Rgb8 { r: 249, g: 250, b: 251 },
        AppColor::Text => Rgb8 { r: 17, g: 24, b: 39 },
        AppColor::TextMuted => Rgb8 { r: 128, g: 128, b: 128 },
    }
}

/// How hard a challenge is.
#[derive(Debug, Clone, Copy, PartialEq, Eq, Structural)]
pub enum ChallengeDifficulty {
    Easy,
    Medium,
    Hard,
    Expert,
}

/// The change shown on a statistics card, in percent.
#[derive(Debug, Clone, Copy, PartialEq, Eq, Structural)]
pub enum Trend {
    Up(u32),
    Down(u32),
    Neutral,
}

pub open spec fn trend_indicator_text(t: Trend) -> Seq<char> {
    match t {
        Trend::Up(p) => "↑ "@ + decimal(p as nat) + "%"@,
        Trend::Down(p) => "↓ "@ + decimal(p as nat) + "%"@,
        Trend::Neutral => "—"@,
    }
}

/// The trend line of a statistics card: an arrow and the change in
/// percent, or a dash.
pub fn trend_indicator(trend: Trend) -> (r: String)
    ensures
        r@ == trend_indicator_text(trend),
{
    match trend {
        Trend::Up(p) => {
            let mut s = owned("↑ ");
            s.append(u64_to_string(p as u64).as_str());
            s.append("%");
            s
        },
        Trend::Down(p) => {
            let mut s = owned("↓ ");
            s.append(u64_to_string(p as u64).as_str());
            s.append("%");
            s
        },
        Trend::Neutral => owned("—"),
    }
}

/// The kinds of toast notification.
#[derive(Debug, Clone, Copy, PartialEq, Eq, Structural)]
pub enum ToastType {
    Success,
    Error,
    Warning,
    Info,
}

/// The icon and colour of a toast or alert of each kind.
pub open spec fn notice_style(kind: ToastType) -> (Seq<char>, AppColor) {
    match kind {
        ToastType::Success => ("✓"@, AppColor::Success),
        ToastType::Error => ("✕"@, AppColor::Error),
        ToastType::Warning => ("⚠"@, AppColor::Warning),
        ToastType::Info => ("ℹ"@, AppColor::Info),
    }
}

/// The icon and colour of a toast.
pub fn toast_style(toast_type: ToastType) -> (r: (&'static str, AppColor))
    ensures
        (r.0@, r.1) == notice_style(toast_type),
{
    match toast_type {
        ToastType::Success => ("✓", AppColor::Success),
        ToastType::Error => ("✕", AppColor::Error),
        ToastType::Warning => ("⚠", AppColor::Warning),
        ToastType::Info => ("ℹ", AppColor::Info),
    }
}

/// The kinds of alert banner.
#[derive(Debug, Clone, Copy, PartialEq, Eq, Structural)]
pub enum AlertType {
    Success,
    Error,
    Warning,
    Info,
}

pub open spec fn alert_icon_text(kind: AlertType) -> Seq<char> {
    match kind {
        AlertType::Success => "✓"@,
        AlertType::Error => "✕"@,
        AlertType::Warning => "⚠"@,
        AlertType::Info => "ℹ"@,
    }
}

/// The icon of an alert banner.
pub fn alert_icon(alert_type: AlertType) -> (r: &'static str)
    ensures
        r@ == alert_icon_text(alert_type),
{
    match alert_type {
        AlertType::Success => "✓",
        AlertType::Error => "✕",
        AlertType::Warning => "⚠",
        AlertType::Info => "ℹ",
    }
}

/// The states a status badge shows.
#[derive(Debug, Clone, Copy, PartialEq, Eq, Structural)]
pub enum StatusType {
    Active,
    Inactive,
    Pending,
    Completed,
}

pub open spec fn status_prefix(s: StatusType) -> Seq<char> {
    match s {
        StatusType::Active => "🟢"@,
        StatusType::Inactive => "🔴"@,
        StatusType::Pending => "🟡"@,
        StatusType::Completed => "✓"@,
    }
}

/// The text of a status badge: the status marker, a space, the text.
pub fn status_badge_text(text: &str, status: StatusType) -> (r: String)
    ensures
        r@ == status_prefix(status) + " "@ + text@,
{
    let mut s = owned(
        match status {
            StatusType::Active => "🟢",
            StatusType::Inactive => "🔴",
            StatusType::Pending => "🟡",
            StatusType::Completed => "✓",
        },
    );
    s.append(" ");
    s.append(text);
    s
}

/// The kinds of form input.
#[derive(Debug, Clone, Copy, PartialEq, Eq, Structural)]
pub enum FieldType {
    Text,
    Email,
    Password,
    Number,
    TextArea,
}

/// One field of a form.
#[derive(Debug)]
pub struct FormField {
    pub label: String,
    pub value: String,
    pub field_type: FieldType,
    pub required: bool,
    pub placeholder: Option<String>,
}

impl FormField {
    /// The label shown for the field: required fields are marked with " *".
    pub fn display_label(&self) -> (r: String)
        ensures
            r@ == if self.required {
                self.label@ + " *"@
            } else {
                self.label@
            },
    {
        if self.required {
            let mut s = self.label.clone();
            s.append(" *");
            s
        } else {
            self.label.clone()
        }
    }
}

/// The text of a validation message: the field and the error, or nothing
/// without an error.
pub fn validation_text(field: &str, error: Option<&str>) -> (r: Option<String>)
    ensures
        error is None ==> r is None,
        error matches Some(e) ==> (r matches Some(t) && t@ == field@ + ": "@ + e@),
{
    match error {
        Some(e) => {
            let mut s = owned(field);
            s.append(": ");
            s.append(e);
            Some(s)
        },
        None => None,
    }
}

/// The marker of step `i` in a step indicator at `current`: a tick for a
/// finished step, the step's number for the current one, a circle for the
/// rest.
pub open spec fn step_marker(i: nat, current: nat) -> Seq<char> {
    if i < current {
        "✓"@
    } else if i == current {
        decimal(i + 1)
    } else {
        "○"@
    }
}

/// The markers of a step indicator for `total` steps at `current`.
pub fn step_markers(current_step: usize, total_steps: usize) -> (r: Vec<String>)
    requires
        total_steps < u64::MAX,
    ensures
        r@.len() == total_steps,
        forall|i: int| 0 <= i < total_steps ==> (#[trigger] r@[i])@ == step_marker(i as nat, current_step as nat),
{
    let mut out: Vec<String> = Vec::new();
    let mut i: usize = 0;
    while i < total_steps
        invariant
            total_steps < u64::MAX,
            i <= total_steps,
            out@.len() == i,
            forall|k: int| 0 <= k < i ==> (#[trigger] out@[k])@ == step_marker(k as nat, current_step as nat),
        decreases total_steps - i,
    {
        let marker = if i < current_step {
            owned("✓")
        } else if i == current_step {
            u64_to_string(i as u64 + 1)
        } else {
            owned("○")
        };
        out.push(marker);
        i = i + 1;
    }
    out
}

/// The most letters a letter sequence shows.
pub const MAX_SEQUENCE_CELLS: usize = 5;

/// One letter of a letter sequence, as the platform draws it.
#[derive(Debug)]
pub struct SequenceCell {
    pub text: String,
    pub highlighted: bool,
    /// The primary colour (drawn faintly) behind the highlighted letter, the
    /// surface colour behind the others.
    pub background: AppColor,
}

/// The cells of a letter sequence: its first five items in order, the one
/// at `highlight_index` highlighted. An empty sequence has no cells.
pub fn alphabet_sequence_cells(items: &Vec<String>, highlight_index: Option<usize>) -> (r: Vec<SequenceCell>)
    ensures
        r@.len() == (if items@.len() < MAX_SEQUENCE_CELLS { items@.len() } else { MAX_SEQUENCE_CELLS as nat }),
        forall|i: int|
            0 <= i < r@.len() ==> {
                &&& (#[trigger] r@[i]).text@ == items@[i]@
                &&& r@[i].highlighted == (highlight_index == Some(i as usize))
                &&& r@[i].background == (if r@[i].highlighted { AppColor::Primary } else { AppColor::Surface })
            },
{
    let n: usize = if items.len() < MAX_SEQUENCE_CELLS { items.len() } else { MAX_SEQUENCE_CELLS };
    let mut cells: Vec<SequenceCell> = Vec::new();
    let mut i: usize = 0;
    while i < n
        invariant
            n <= items@.len(),
            i <= n,
            cells@.len() == i,
            forall|k: int|
                0 <= k < i ==> {
                    &&& (#[trigger] cells@[k]).text@ == items@[k]@
                    &&& cells@[k].highlighted == (highlight_index == Some(k as usize))
                    &&& cells@[k].background == (if cells@[k].highlighted { AppColor::Primary } else { AppColor::Surface })
                },
        decreases n - i,
    {
        let highlighted = match highlight_index {
            Some(h) => h == i,
            None => false,
        };
        let background = if highlighted { AppColor::Primary } else { AppColor::Surface };
        cells.push(SequenceCell { text: items[i].clone(), highlighted, background });
        i = i + 1;
    }
    cells
}

/// Screen widths: phones, tablets and desktops.
#[derive(Debug, Clone, Copy, PartialEq, Eq, Structural)]
pub enum Breakpoint {
    /// Narrower than 768 pixels.
    Mobile,
    /// From 768 up to 1024 pixels.
    Tablet,
    /// 1024 pixels and wider.
    Desktop,
}

/// An entry of the sidebar.
#[derive(Debug)]
pub struct NavItem {
    pub label: String,
    pub screen: Screen,
    pub icon: Option<String>,
    pub badge: Option<String>,
    pub sub_items: Vec<NavItem>,
}

/// A titled group of sidebar entries.
#[derive(Debug)]
pub struct NavGroup {
    pub title: String,
    pub items: Vec<NavItem>,
    pub collapsed: bool,
}

impl NavItem {
    /// An entry with a label and target screen, and nothing else.
    pub fn new(label: &str, screen: Screen) -> (r: Self)
        ensures
            r.label@ == label@,
            r.screen == screen,
            r.icon is None,
            r.badge is None,
            r.sub_items@.len() == 0,
    {
        NavItem { label: owned(label), screen, icon: None, badge: None, sub_items: Vec::new() }
    }

    /// The entry with an icon.
    pub fn with_icon(self, icon: &str) -> (r: Self)
        ensures
            r.icon matches Some(i) && i@ == icon@,
            r.label == self.label,
            r.screen == self.screen,
            r.badge == self.badge,
            r.sub_items == self.sub_items,
    {
        let mut item = self;
        item.icon = Some(owned(icon));
        item
    }

    /// The entry with a badge.
    pub fn with_badge(self, badge: &str) -> (r: Self)
        ensures
            r.badge matches Some(b) && b@ == badge@,
            r.label == self.label,
            r.screen == self.screen,
            r.icon == self.icon,
            r.sub_items == self.sub_items,
    {
        let mut item = self;
        item.badge = Some(owned(badge));
        item
    }

    /// The entry with sub-entries.
    pub fn with_sub_items(self, items: Vec<NavItem>) -> (r: Self)
        ensures
            r.sub_items == items,
            r.label == self.label,
            r.screen == self.screen,
            r.icon == self.icon,
            r.badge == self.badge,
    {
        let mut item = self;
        item.sub_items = items;
        item
    }
}

/// `item` is a plain entry with the given label, screen, icon and badge.
pub open spec fn nav_entry(item: NavItem, label: Seq<char>, screen: Screen, icon: Seq<char>, badge: Option<Seq<char>>) -> bool {
    &&& item.label@ == label
    &&& item.screen == screen
    &&& item.icon matches Some(i) && i@ == icon
    &&& match badge {
        Some(b) => item.badge matches Some(x) && x@ == b,
        None => item.badge is None,
    }
    &&& item.sub_items@.len() == 0
}

/// The badge of the friends entry: the number of pending friend requests,
/// when there are any.
pub open spec fn friends_badge(profile: Option<GamificationProfile>) -> Option<Seq<char>> {
    match profile {
        Some(p) => if p.pending_friend_requests > 0 {
            Some(decimal(p.pending_friend_requests as nat))
        } else {
            None
        },
        None => None,
    }
}

fn entry(label: &str, screen: Screen, icon: &str) -> (r: NavItem)
    ensures
        nav_entry(r, label@, screen, icon@, None),
{
    NavItem::new(label, screen).with_icon(icon)
}

fn group(title: &str, items: Vec<NavItem>) -> (r: NavGroup)
    ensures
        r.title@ == title@,
        r.items == items,
        !r.collapsed,
{
    NavGroup { title: owned(title), items, collapsed: false }
}

/// The sidebar's groups for the current learner's profile: Main, Analytics,
/// Social (whose friends entry counts pending friend requests), Account and
/// Developer.
pub fn build_navigation_structure(profile: Option<&GamificationProfile>) -> (r: Vec<NavGroup>)
    ensures
        r@.len() == 5,
        forall|g: int| 0 <= g < 5 ==> !(#[trigger] r@[g]).collapsed,
        r@[0].title@ == "Main"@ && r@[0].items@.len() == 3,
        nav_entry(r@[0].items@[0], "Dashboard"@, Screen::Dashboard, "📊"@, None),
        nav_entry(r@[0].items@[1], "Learning"@, Screen::Learning, "📚"@, None),
        nav_entry(r@[0].items@[2], "Training"@, Screen::Training, "🎯"@, None),
        r@[1].title@ == "Analytics"@ && r@[1].items@.len() == 3,
        nav_entry(r@[1].items@[0], "Progress"@, Screen::Progress, "📈"@, None),
        nav_entry(r@[1].items@[1], "Analytics"@, Screen::Analytics, "📉"@, None),
        nav_entry(r@[1].items@[2], "Visualizations"@, Screen::Visualizations, "📊"@, None),
        r@[2].title@ == "Social"@ && r@[2].items@.len() == 3,
        nav_entry(r@[2].items@[0], "Leaderboard"@, Screen::Leaderboard, "🏆"@, None),
        nav_entry(r@[2].items@[1], "Challenges"@, Screen::Challenges, "⚔️"@, None),
        nav_entry(
            r@[2].items@[2],
            "Friends"@,
            Screen::Friends,
            "👥"@,
            friends_badge(
                match profile {
                    Some(p) => Some(*p),
                    None => None,
                },
            ),
        ),
        r@[3].title@ == "Account"@ && r@[3].items@.len() == 2,
        nav_entry(r@[3].items@[0], "Profile"@, Screen::Profile, "👤"@, None),
        nav_entry(r@[3].items@[1], "Settings"@, Screen::Settings, "⚙️"@, None),
        r@[4].title@ == "Developer"@ && r@[4].items@.len() == 2,
        nav_entry(r@[4].items@[0], "Widget Gallery"@, Screen::WidgetGallery, "🎨"@, None),
        nav_entry(r@[4].items@[1], "Demo Mode"@, Screen::Dashboard, "🎭"@, None),
{
    let mut groups: Vec<NavGroup> = Vec::new();
    let mut main: Vec<NavItem> = Vec::new();
    main.push(entry("Dashboard", Screen::Dashboard, "📊"));
    main.push(entry("Learning", Screen::Learning, "📚"));
    main.push(entry("Training", Screen::Training, "🎯"));
    groups.push(group("Main", main));
    let mut analytics: Vec<NavItem> = Vec::new();
    analytics.push(entry("Progress", Screen::Progress, "📈"));
    analytics.push(entry("Analytics", Screen::Analytics, "📉"));
    analytics.push(entry("Visualizations", Screen::Visualizations, "📊"));
    groups.push(group("Analytics", analytics));
    let mut social: Vec<NavItem> = Vec::new();
    social.push(entry("Leaderboard", Screen::Leaderboard, "🏆"));
    social.push(entry("Challenges", Screen::Challenges, "⚔️"));
    let friends = match profile {
        Some(p) => {
            if p.pending_friend_requests > 0 {
                let count = u64_to_string(p.pending_friend_requests as u64);
                entry("Friends", Screen::Friends, "👥").with_badge(count.as_str())
            } else {
                entry("Friends", Screen::Friends, "👥")
            }
        },
        None => entry("Friends", Screen::Friends, "👥"),
    };
    social.push(friends);
    groups.push(group("Social", social));
    let mut account: Vec<NavItem> = Vec::new();
    account.push(entry("Profile", Screen::Profile, "👤"));
    account.push(entry("Settings", Screen::Settings, "⚙️"));
    groups.push(group("Account", account));
    let mut developer: Vec<NavItem> = Vec::new();
    developer.push(entry("Widget Gallery", Screen::WidgetGallery, "🎨"));
    developer.push(entry("Demo Mode", Screen::Dashboard, "🎭"));
    groups.push(group("Developer", developer));
    groups
}

} // verus!
