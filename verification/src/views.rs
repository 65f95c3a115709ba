//! The decisions behind the screens: which colour an accuracy earns, how a
//! session's performance is rated, how long ago something happened, and how
//! the settings screen maps themes.

use vstd::prelude::*;
use crate::components::{AppColor, AppTheme};
use crate::state::ThemeMode;
use crate::text::{decimal, owned, u64_to_string};

verus! {

/// The colour of an accuracy in percent: 90–100 success, 70–89 warning,
/// 50–69 info, anything else error.
pub open spec fn accuracy_color(accuracy: u32) -> AppColor {
    if 90 <= accuracy <= 100 {
        AppColor::Success
    } else if 70 <= accuracy <= 89 {
        AppColor::Warning
    } else if 50 <= accuracy <= 69 {
        AppColor::Info
    } else {
        AppColor::Error
    }
}

/// The colour of an accuracy in percent.
pub fn get_accuracy_color(accuracy: u32) -> (r: AppColor)
    ensures
        r == accuracy_color(accuracy),
{
    if 90 <= accuracy && accuracy <= 100 {
        AppColor::Success
    } else if 70 <= accuracy && accuracy <= 89 {
        AppColor::Warning
    } else if 50 <= accuracy && accuracy <= 69 {
        AppColor::Info
    } else {
        AppColor::Error
    }
}

/// The rating of `correct` answers out of `total`: at least 90% mastery,
/// 80% proficient, 70% developing, 60% practising, less learning; no
/// answers count as 0%.
pub open spec fn performance_rating(correct: u32, total: u32) -> Seq<char> {
    if total > 0 && 10 * correct >= 9 * total {
        "Mastery Level"@
    } else if total > 0 && 10 * correct >= 8 * total {
        "Proficient"@
    } else if total > 0 && 10 * correct >= 7 * total {
        "Developing"@
    } else if total > 0 && 10 * correct >= 6 * total {
        "Practicing"@
    } else {
        "Learning"@
    }
}

/// The rating of a session with `correct` answers out of `total`.
pub fn get_performance_rating(correct: u32, total: u32) -> (r: String)
    ensures
        r@ == performance_rating(correct, total),
{
    let c: u64 = correct as u64;
    let t: u64 = total as u64;
    let rating = if t > 0 && 10 * c >= 9 * t {
        "Mastery Level"
    } else if t > 0 && 10 * c >= 8 * t {
        "Proficient"
    } else if t > 0 && 10 * c >= 7 * t {
        "Developing"
    } else if t > 0 && 10 * c >= 6 * t {
        "Practicing"
    } else {
        "Learning"
    };
    owned(rating)
}

/// Whole units of `ms` milliseconds, rounded towards zero.
pub open spec fn whole(ms: int, unit: int) -> int {
    if ms >= 0 {
        ms / unit
    } else {
        -((-ms) / unit)
    }
}

/// How long ago something happened, `elapsed` milliseconds before now:
/// whole days, else whole hours, else whole minutes, else "Just now".
pub open spec fn time_ago_text(elapsed: i64) -> Seq<char> {
    let days = whole(elapsed as int, 86_400_000);
    let hours = whole(elapsed as int, 3_600_000);
    let minutes = whole(elapsed as int, 60_000);
    if days > 0 {
        decimal(days as nat) + " days ago"@
    } else if hours > 0 {
        decimal(hours as nat) + " hours ago"@
    } else if minutes > 0 {
        decimal(minutes as nat) + " minutes ago"@
    } else {
        "Just now"@
    }
}

/// How long ago something happened, `elapsed` milliseconds before now.
pub fn format_time_ago(elapsed: i64) -> (r: String)
    ensures
        r@ == time_ago_text(elapsed),
{
    if elapsed <= 0 {
        return owned("Just now");
    }
    let days: i64 = elapsed / 86_400_000;
    let hours: i64 = elapsed / 3_600_000;
    let minutes: i64 = elapsed / 60_000;
    let (n, unit): (i64, &str) = if days > 0 {
        (days, " days ago")
    } else if hours > 0 {
        (hours, " hours ago")
    } else if minutes > 0 {
        (minutes, " minutes ago")
    } else {
        return owned("Just now");
    };
    let mut s = u64_to_string(n as u64);
    s.append(unit);
    s
}

pub open spec fn app_theme_of(mode: ThemeMode) -> AppTheme {
    match mode {
        ThemeMode::Light => AppTheme::Light,
        ThemeMode::Dark => AppTheme::Dark,
        ThemeMode::Auto => AppTheme::Auto,
    }
}

pub open spec fn theme_mode_of(theme: AppTheme) -> ThemeMode {
    match theme {
        AppTheme::Light => ThemeMode::Light,
        AppTheme::Dark => ThemeMode::Dark,
        AppTheme::Auto => ThemeMode::Auto,
    }
}

/// The settings screen's theme for the stored theme mode.
pub fn map_theme_mode_to_app_theme(mode: ThemeMode) -> (r: AppTheme)
    ensures
        r == app_theme_of(mode),
{
    match mode {
        ThemeMode::Light => AppTheme::Light,
        ThemeMode::Dark => AppTheme::Dark,
        ThemeMode::Auto => AppTheme::Auto,
    }
}

/// The stored theme mode for the settings screen's theme.
pub fn map_app_theme_to_theme_mode(theme: AppTheme) -> (r: ThemeMode)
    ensures
        r == theme_mode_of(theme),
{
    match theme {
        AppTheme::Light => ThemeMode::Light,
        AppTheme::Dark => ThemeMode::Dark,
        AppTheme::Auto => ThemeMode::Auto,
    }
}

/// The two theme mappings undo each other: a theme chosen on the settings
/// screen is stored and shown back unchanged, and a stored mode survives
/// being shown and chosen again.
pub proof fn lemma_theme_round_trip(mode: ThemeMode, theme: AppTheme)
    ensures
        theme_mode_of(app_theme_of(mode)) == mode,
        app_theme_of(theme_mode_of(theme)) == theme,
{
}

/// Whether colour `c` marks an accuracy at least as good as `d` does:
/// success, then warning, then info, then error.
pub open spec fn color_no_worse(c: AppColor, d: AppColor) -> bool {
    ||| c == d
    ||| c == AppColor::Success
    ||| d == AppColor::Error
    ||| c == AppColor::Warning && d == AppColor::Info
}

/// The accuracy colours come in bands of percent: 90 to 100 success, 70 to
/// 89 warning, 50 to 69 info, and error below 50 or above 100; within 0 to
/// 100 a higher accuracy never gets a worse colour.
pub proof fn lemma_accuracy_color_bands(a: u32, b: u32)
    ensures
        accuracy_color(a) == AppColor::Success <==> 90 <= a && a <= 100,
        accuracy_color(a) == AppColor::Warning <==> 70 <= a && a < 90,
        accuracy_color(a) == AppColor::Info <==> 50 <= a && a < 70,
        accuracy_color(a) == AppColor::Error <==> a < 50 || a > 100,
        a <= b && b <= 100 ==> color_no_worse(accuracy_color(b), accuracy_color(a)),
{
}

/// The rating of a session goes by the share of right answers: mastery from
/// 90%, proficient from 80%, developing from 70%, practising from 60%, and
/// learning below that or with no answers. More right answers out of the
/// same number never lower the rating, and the rating depends on the share
/// alone.
pub proof fn lemma_rating_bands(correct: u32, more: u32, total: u32, k: u32)
    ensures
        performance_rating(correct, total) == "Mastery Level"@ <==> total > 0 && 100 * correct >= 90 * total,
        performance_rating(correct, total) == "Proficient"@ <==> total > 0 && 80 * total <= 100 * correct < 90
            * total,
        performance_rating(correct, total) == "Developing"@ <==> total > 0 && 70 * total <= 100 * correct < 80
            * total,
        performance_rating(correct, total) == "Practicing"@ <==> total > 0 && 60 * total <= 100 * correct < 70
            * total,
        performance_rating(correct, total) == "Learning"@ <==> total == 0 || 100 * correct < 60 * total,
        correct <= more && performance_rating(correct, total) == "Mastery Level"@ ==> performance_rating(more, total)
            == "Mastery Level"@,
        correct <= more && performance_rating(more, total) == "Learning"@ ==> performance_rating(correct, total)
            == "Learning"@,
        k > 0 && k * correct <= u32::MAX && k * total <= u32::MAX ==> performance_rating(
            (k * correct) as u32,
            (k * total) as u32,
        ) == performance_rating(correct, total),
{
    reveal_strlit("Mastery Level");
    reveal_strlit("Proficient");
    reveal_strlit("Developing");
    reveal_strlit("Practicing");
    reveal_strlit("Learning");
    assert("Mastery Level"@.len() != "Proficient"@.len());
    assert("Mastery Level"@.len() != "Developing"@.len());
    assert("Mastery Level"@.len() != "Practicing"@.len());
    assert("Mastery Level"@.len() != "Learning"@.len());
    assert("Proficient"@[0] != "Developing"@[0]);
    assert("Proficient"@[2] != "Practicing"@[2]);
    assert("Proficient"@.len() != "Learning"@.len());
    assert("Developing"@[0] != "Practicing"@[0]);
    assert("Developing"@.len() != "Learning"@.len());
    assert("Practicing"@.len() != "Learning"@.len());
    if k > 0 && k * correct <= u32::MAX && k * total <= u32::MAX {
        let kc = k * correct;
        let kt = k * total;
        assert((10 * kc >= 9 * kt) == (10 * correct >= 9 * total)) by (nonlinear_arith)
            requires kc == k * correct, kt == k * total, k > 0;
        assert((10 * kc >= 8 * kt) == (10 * correct >= 8 * total)) by (nonlinear_arith)
            requires kc == k * correct, kt == k * total, k > 0;
        assert((10 * kc >= 7 * kt) == (10 * correct >= 7 * total)) by (nonlinear_arith)
            requires kc == k * correct, kt == k * total, k > 0;
        assert((10 * kc >= 6 * kt) == (10 * correct >= 6 * total)) by (nonlinear_arith)
            requires kc == k * correct, kt == k * total, k > 0;
        assert((kt > 0) == (total > 0)) by (nonlinear_arith)
            requires kt == k * total, k > 0;
    }
}

/// How long ago is told in the largest whole unit that fits: whole days from
/// a day on, whole hours from an hour, whole minutes from a minute, and
/// "Just now" below a minute (or for a time not yet passed).
pub proof fn lemma_time_ago_units(elapsed: i64)
    ensures
        elapsed >= 86_400_000 ==> time_ago_text(elapsed) == decimal((elapsed / 86_400_000) as nat) + " days ago"@,
        3_600_000 <= elapsed < 86_400_000 ==> time_ago_text(elapsed) == decimal((elapsed / 3_600_000) as nat)
            + " hours ago"@,
        60_000 <= elapsed < 3_600_000 ==> time_ago_text(elapsed) == decimal((elapsed / 60_000) as nat)
            + " minutes ago"@,
        elapsed < 60_000 ==> time_ago_text(elapsed) == "Just now"@,
{
}

} // verus!
