//! The application state: who is signed in, where the user is, what the
//! screens remember, the errors and notifications shown, and the hooks into
//! gamification and the guided tours. Timestamps are milliseconds since the
//! Unix epoch; user ids are UUIDs held as integers.

use vstd::prelude::*;
use crate::clock::{utc_now_millis, MAX_TIMESTAMP_MS};
use crate::demo::{DemoController, NotificationType};
use crate::gamification::achievements::{total_reward, unlocking, Achievement, AchievementEvent};
use crate::gamification::profile::{is_fresh, GamificationProfile, SessionData};
use crate::gamification::{event_outcome, find_profile, ranked_board, GamificationManager};
use crate::gamification::leaderboard::{board_key, LeaderboardType};
use crate::ids::{lemma_uuid_text_ascii, new_uuid, uuid_string, uuid_text};
use crate::utils::easter_egg::{crab_clock_now, CrabClock, CrabTrigger, EasterEggManager};
use crate::state::{screen_for_fragment, AuthEvent, ConnectionStatus, LoadingKey, Screen, Theme, ThemeMode};
use crate::text::{concat, copy_strings, lemma_ascii_boundary, owned, str_eq};
use vstd::string::StringSliceAdditionalSpecFns;

verus! {

/// A signed-in user.
#[derive(Debug)]
pub struct UserState {
    pub id: u128,
    pub username: String,
    pub email: String,
    pub display_name: Option<String>,
    pub created_at: i64,
    pub learner_id: Option<u128>,
    pub level: u32,
    pub xp: u32,
    pub streak: u32,
    pub achievements: Vec<String>,
}

impl UserState {
    /// Two records describe the same user: every field agrees, the list of
    /// achievements by its contents.
    pub open spec fn same_as(self, other: UserState) -> bool {
        &&& self.id == other.id
        &&& self.username == other.username
        &&& self.email == other.email
        &&& self.display_name == other.display_name
        &&& self.created_at == other.created_at
        &&& self.learner_id == other.learner_id
        &&& self.level == other.level
        &&& self.xp == other.xp
        &&& self.streak == other.streak
        &&& self.achievements@ == other.achievements@
    }
}

impl Clone for UserState {
    fn clone(&self) -> (r: Self)
        ensures
            r.same_as(*self),
    {
        UserState {
            id: self.id,
            username: self.username.clone(),
            email: self.email.clone(),
            display_name: self.display_name.clone(),
            created_at: self.created_at,
            learner_id: self.learner_id,
            level: self.level,
            xp: self.xp,
            streak: self.streak,
            achievements: copy_strings(&self.achievements),
        }
    }
}

/// An error shown to the user.
#[derive(Debug)]
pub struct AppError {
    pub message: String,
    pub timestamp: i64,
    pub recoverable: bool,
}

/// The value stored under `key` in a list of entries (the first one).
pub open spec fn lookup<V>(s: Seq<(String, V)>, key: Seq<char>) -> Option<V>
    decreases s.len(),
{
    if s.len() == 0 {
        None
    } else {
        match lookup(s.drop_last(), key) {
            Some(v) => Some(v),
            None => if s.last().0@ == key { Some(s.last().1) } else { None },
        }
    }
}

/// The position of the entry that `lookup` finds.
pub open spec fn lookup_index<V>(s: Seq<(String, V)>, key: Seq<char>) -> Option<int>
    decreases s.len(),
{
    if s.len() == 0 {
        None
    } else {
        match lookup_index(s.drop_last(), key) {
            Some(i) => Some(i),
            None => if s.last().0@ == key { Some(s.len() - 1) } else { None },
        }
    }
}

proof fn lemma_lookup<V>(s: Seq<(String, V)>, key: Seq<char>)
    ensures
        lookup_index(s, key) matches Some(i) ==> 0 <= i < s.len() && s[i].0@ == key && lookup(s, key) == Some(
            s[i].1,
        ) && forall|j: int| 0 <= j < i ==> s[j].0@ != key,
        lookup_index(s, key) is None ==> lookup(s, key) is None && forall|j: int| 0 <= j < s.len() ==> s[j].0@ != key,
    decreases s.len(),
{
    if s.len() > 0 {
        lemma_lookup(s.drop_last(), key);
        assert forall|j: int| 0 <= j < s.len() - 1 implies s.drop_last()[j] == s[j] by {}
    }
}

proof fn lemma_lookup_first<V>(s: Seq<(String, V)>, key: Seq<char>, i: int)
    requires
        0 <= i < s.len(),
        s[i].0@ == key,
        forall|j: int| 0 <= j < i ==> s[j].0@ != key,
    ensures
        lookup_index(s, key) == Some(i),
    decreases s.len(),
{
    lemma_lookup(s, key);
    if i < s.len() - 1 {
        lemma_lookup_first(s.drop_last(), key, i);
    } else {
        lemma_lookup(s.drop_last(), key);
        assert forall|j: int| 0 <= j < s.len() - 1 implies s.drop_last()[j] == s[j] by {}
    }
}

/// `lookup` after writing `value` under `key` at position `i` (where `key`
/// was found) or at the end (where it was not): the key gives the value,
/// every other key what it gave before.
proof fn lemma_lookup_write<V>(s: Seq<(String, V)>, t: Seq<(String, V)>, key: Seq<char>, value: V)
    requires
        match lookup_index(s, key) {
            Some(i) => t == s.update(i, (s[i].0, value)),
            None => t.len() == s.len() + 1 && t.drop_last() == s && t.last().0@ == key && t.last().1 == value,
        },
    ensures
        lookup(t, key) == Some(value),
        forall|k: Seq<char>| k != key ==> #[trigger] lookup(t, k) == lookup(s, k),
{
    lemma_lookup(s, key);
    match lookup_index(s, key) {
        Some(i) => {
            assert forall|j: int| 0 <= j < i implies t[j].0@ != key by {
                assert(t[j] == s[j]);
            }
            lemma_lookup_first(t, key, i);
            lemma_lookup(t, key);
            assert forall|k: Seq<char>| k != key implies #[trigger] lookup(t, k) == lookup(s, k) by {
                lemma_lookup(s, k);
                lemma_lookup(t, k);
                assert forall|j: int| 0 <= j < s.len() implies t[j].0@ == s[j].0@ by {}
                match lookup_index(s, k) {
                    Some(m) => {
                        assert(m != i);
                        lemma_lookup_first(t, k, m);
                        assert(t[m] == s[m]);
                    },
                    None => {
                        if lookup_index(t, k) is Some {
                            let m = lookup_index(t, k)->Some_0;
                            assert(t[m].0@ == s[m].0@);
                        }
                    },
                }
            }
        },
        None => {
            assert(t.drop_last() == s);
            assert forall|k: Seq<char>| k != key implies #[trigger] lookup(t, k) == lookup(s, k) by {}
        },
    }
}

/// The position of the entry that `lookup` finds.
fn entry_position<V>(v: &Vec<(String, V)>, key: &str) -> (r: Option<usize>)
    ensures
        r matches Some(i) ==> lookup_index(v@, key@) == Some(i as int),
        r is None ==> lookup_index(v@, key@) is None,
{
    let mut i: usize = 0;
    while i < v.len()
        invariant
            i <= v@.len(),
            forall|j: int| 0 <= j < i ==> v@[j].0@ != key@,
        decreases v@.len() - i,
    {
        if str_eq(v[i].0.as_str(), key) {
            proof {
                lemma_lookup_first(v@, key@, i as int);
            }
            return Some(i);
        }
        i = i + 1;
    }
    proof {
        lemma_lookup(v@, key@);
        if lookup_index(v@, key@) is Some {
            let k = lookup_index(v@, key@)->Some_0;
            assert(v@[k].0@ == key@);
        }
    }
    None
}

/// Stores `value` under `key`, replacing what was stored there.
fn put_entry<V>(v: &mut Vec<(String, V)>, key: String, value: V)
    ensures
        lookup(final(v)@, key@) == Some(value),
        forall|k: Seq<char>| k != key@ ==> #[trigger] lookup(final(v)@, k) == lookup(old(v)@, k),
{
    proof {
        lemma_lookup(v@, key@);
    }
    match entry_position(v, key.as_str()) {
        Some(i) => {
            let existing = v[i].0.clone();
            v.set(i, (existing, value));
        },
        None => {
            v.push((key, value));
            assert(v@.drop_last() =~= old(v)@);
        },
    }
    proof {
        lemma_lookup_write(old(v)@, v@, key@, value);
    }
}

/// The text form of the signed-in user's id, or "guest".
/// The smallest of the response times, or 0 when there are none.
pub open spec fn fastest_of(s: Seq<u128>) -> u128
    decreases s.len(),
{
    if s.len() == 0 {
        0
    } else if s.len() == 1 {
        s[0]
    } else {
        let m = fastest_of(s.drop_last());
        if s.last() < m {
            s.last()
        } else {
            m
        }
    }
}

/// A session's accuracy in basis points, rounded down; 0 without tasks.
pub open spec fn session_accuracy_bp(correct: u32, total: u32) -> int {
    if total > 0 {
        (correct * 10000) / (total as int)
    } else {
        0
    }
}

/// The experience a session earns: ten per task, plus the accuracy times
/// fifty, rounded down.
pub open spec fn session_xp(correct: u32, total: u32) -> int {
    total * 10 + if total > 0 {
        (correct * 50) / (total as int)
    } else {
        0
    }
}

/// The figures recorded for a session, with the fastest of the response
/// times seen (cut to 32 bits).
pub open spec fn session_of(correct: u32, total: u32, duration_minutes: u32, times: Seq<u128>) -> SessionData {
    SessionData {
        tasks_completed: total,
        duration_minutes,
        accuracy_bp: session_accuracy_bp(correct, total) as u32,
        fastest_response_ms: fastest_of(times) as u32,
    }
}

/// `new` is `p` with the session `d` recorded and then `xp` experience
/// gained.
pub open spec fn session_scored(p: GamificationProfile, new: GamificationProfile, d: SessionData, xp: nat) -> bool {
    exists|m: GamificationProfile| #[trigger] p.session_recorded(&m, d) && m.gained(&new, xp)
}

/// The fastest of the response times, or 0 when there are none.
fn fastest_response(times: &Vec<u128>) -> (r: u128)
    ensures
        r == fastest_of(times@),
{
    if times.len() == 0 {
        return 0;
    }
    let mut m: u128 = times[0];
    let mut i: usize = 1;
    assert(times@.take(1).drop_last() =~= Seq::<u128>::empty());
    while i < times.len()
        invariant
            1 <= i <= times@.len(),
            m == fastest_of(times@.take(i as int)),
        decreases times@.len() - i,
    {
        assert(times@.take(i as int + 1).drop_last() =~= times@.take(i as int));
        if times[i] < m {
            m = times[i];
        }
        i = i + 1;
    }
    assert(times@.take(times@.len() as int) =~= times@);
    m
}

pub open spec fn user_key(user: Option<UserState>) -> Seq<char> {
    match user {
        Some(u) => uuid_text(u.id),
        None => "guest"@,
    }
}

/// The screen a deep link opens: the one named by the fragment after the
/// link's first '#', if any.
pub open spec fn deep_link_screen(url: Seq<char>) -> Option<Screen> {
    match url.index_of_first('#') {
        Some(i) => screen_for_fragment(url.skip(i + 1)),
        None => None,
    }
}

/// The username and display name of an Apple sign-in: the email, else the
/// given name, else "Apple User"; the display name joins the given and
/// family names that are present.
pub open spec fn apple_username(email: Option<String>, given: Option<String>) -> Seq<char> {
    match email {
        Some(e) => e@,
        None => match given {
            Some(g) => g@,
            None => "Apple User"@,
        },
    }
}

pub open spec fn apple_display_name(given: Option<String>, family: Option<String>) -> Option<Seq<char>> {
    match (given, family) {
        (Some(f), Some(l)) => Some(f@ + " "@ + l@),
        (Some(f), None) => Some(f@),
        (None, Some(l)) => Some(l@),
        (None, None) => None,
    }
}

/// The root state of the application.
pub struct AppState {
    pub user: Option<UserState>,
    pub current_user: Option<UserState>,
    pub auth_token: Option<String>,
    pub refresh_token: Option<String>,
    pub auth_username: String,
    pub auth_password: String,
    pub auth_email: String,
    pub auth_confirm_password: String,
    pub username_input: String,
    pub password_input: String,
    pub oauth_login_in_flight: bool,
    pub login_request_in_flight: bool,
    pub is_guest_mode: bool,
    pub triple_click_count: u32,
    pub last_triple_click: Option<i64>,
    pub current_screen: Screen,
    pub navigation_stack: Vec<Screen>,
    pub tab_states: Vec<(String, usize)>,
    pub form_states: Vec<(String, String)>,
    pub selected_domain: Option<String>,
    pub search_query: String,
    pub settings_toggles: Vec<(String, bool)>,
    pub loading: Vec<LoadingKey>,
    pub errors: Vec<AppError>,
    pub notifications: Vec<(String, NotificationType)>,
    pub theme: Theme,
    pub theme_mode: ThemeMode,
    pub last_sync: Option<i64>,
    pub connection_status: ConnectionStatus,
    pub ws_connected: bool,
    pub ws_reconnect_attempts: u32,
    pub response_times: Vec<u128>,
    pub easter_egg_manager: EasterEggManager,
    pub demo_controller: Option<DemoController>,
    pub gamification: GamificationManager,
}

impl AppState {
    /// The tour controller and gamification keep their invariants, and no
    /// loading flag is held twice.
    pub open spec fn wf(&self) -> bool {
        &&& (self.demo_controller matches Some(d) ==> d.inv())
        &&& self.gamification.wf()
        &&& self.easter_egg_manager.wf()
        &&& self.loading@.no_duplicates()
    }

    /// The operations in flight.
    pub open spec fn loading_set(&self) -> Set<LoadingKey> {
        self.loading@.to_set()
    }

    /// The tab selected on a screen: the one stored, else the first.
    pub open spec fn tab_index(&self, screen_key: Seq<char>) -> usize {
        match lookup(self.tab_states@, screen_key) {
            Some(i) => i,
            None => 0,
        }
    }

    /// The text of a form field: the one stored, else empty.
    pub open spec fn form_text(&self, field_id: Seq<char>) -> Seq<char> {
        match lookup(self.form_states@, field_id) {
            Some(v) => v@,
            None => Seq::<char>::empty(),
        }
    }

    /// The state at start-up: the welcome screen, nobody signed in, the
    /// light theme, no connection, the built-in tours and achievements.
    pub fn new() -> (r: Self)
        ensures
            r.wf(),
            r.user is None && r.current_user is None,
            r.current_screen == Screen::Welcome,
            r.navigation_stack@.len() == 0,
            r.tab_states@.len() == 0 && r.form_states@.len() == 0 && r.settings_toggles@.len() == 0,
            r.loading@.len() == 0 && r.errors@.len() == 0 && r.notifications@.len() == 0,
            r.theme_mode == ThemeMode::Light,
            r.connection_status is Disconnected,
            !r.oauth_login_in_flight && !r.login_request_in_flight && !r.is_guest_mode,
            r.triple_click_count == 0 && r.last_triple_click is None,
            r.demo_controller is Some,
            r.gamification.user_profiles@.len() == 0,
            r.gamification.leaderboards@.len() == 0,
    {
        AppState {
            user: None,
            current_user: None,
            auth_token: None,
            refresh_token: None,
            auth_username: String::new(),
            auth_password: String::new(),
            auth_email: String::new(),
            auth_confirm_password: String::new(),
            username_input: String::new(),
            password_input: String::new(),
            oauth_login_in_flight: false,
            login_request_in_flight: false,
            is_guest_mode: false,
            triple_click_count: 0,
            last_triple_click: None,
            current_screen: Screen::Welcome,
            navigation_stack: Vec::new(),
            tab_states: Vec::new(),
            form_states: Vec::new(),
            selected_domain: None,
            search_query: String::new(),
            settings_toggles: Vec::new(),
            loading: Vec::new(),
            errors: Vec::new(),
            notifications: Vec::new(),
            theme: Theme { mode: ThemeMode::Light },
            theme_mode: ThemeMode::Light,
            last_sync: None,
            connection_status: ConnectionStatus::Disconnected,
            ws_connected: false,
            ws_reconnect_attempts: 0,
            response_times: Vec::new(),
            easter_egg_manager: EasterEggManager::new(),
            demo_controller: Some(DemoController::new()),
            gamification: GamificationManager::new(),
        }
    }

    /// Goes to a screen, remembering the current one.
    pub fn navigate(&mut self, screen: Screen)
        ensures
            final(self).current_screen == screen,
            final(self).navigation_stack@ == old(self).navigation_stack@.push(old(self).current_screen),
            *final(self) == (AppState {
                current_screen: final(self).current_screen,
                navigation_stack: final(self).navigation_stack,
                ..*old(self)
            }),
    {
        let current = self.current_screen.clone();
        self.navigation_stack.push(current);
        self.current_screen = screen;
    }

    /// Returns to the screen visited before, if any.
    pub fn navigate_back(&mut self)
        ensures
            old(self).navigation_stack@.len() == 0 ==> final(self).current_screen == old(self).current_screen
                && final(self).navigation_stack@ == old(self).navigation_stack@,
            old(self).navigation_stack@.len() > 0 ==> final(self).current_screen == old(self).navigation_stack@.last()
                && final(self).navigation_stack@ == old(self).navigation_stack@.drop_last(),
            *final(self) == (AppState {
                current_screen: final(self).current_screen,
                navigation_stack: final(self).navigation_stack,
                ..*old(self)
            }),
    {
        if let Some(previous) = self.navigation_stack.pop() {
            self.current_screen = previous;
        }
    }

    /// Opens the screen that a deep link names, without remembering the
    /// current one; other links change nothing.
    pub fn handle_deep_link(&mut self, url: &str)
        ensures
            final(self).current_screen == match deep_link_screen(url@) {
                Some(s) => s,
                None => old(self).current_screen,
            },
            *final(self) == (AppState { current_screen: final(self).current_screen, ..*old(self) }),
    {
        let n = url.unicode_len();
        let mut i: usize = 0;
        while i < n && url.get_char(i) != '#'
            invariant
                n == url@.len(),
                i <= n,
                forall|j: int| 0 <= j < i ==> url@[j] != '#',
            decreases n - i,
        {
            i = i + 1;
        }
        proof {
            url@.index_of_first_ensures('#');
        }
        if i < n {
            proof {
                assert(url@.contains('#'));
                let k = url@.index_of_first('#')->Some_0;
                assert(url@[i as int] == '#');
            }
            let fragment = url.substring_char(i + 1, n);
            assert(fragment@ =~= url@.skip(i + 1));
            if let Some(screen) = Screen::from_url_fragment(fragment) {
                self.current_screen = screen;
            }
        } else {
            proof {
                if url@.contains('#') {
                    let k = choose|k: int| 0 <= k < url@.len() && url@[k] == '#';
                    assert(url@[k] == '#');
                }
            }
        }
    }

    /// Records an error at `now`.
    pub fn add_error_at(&mut self, message: String, recoverable: bool, now: i64)
        ensures
            final(self).errors@.len() == old(self).errors@.len() + 1,
            final(self).errors@.drop_last() == old(self).errors@,
            final(self).errors@.last().message == message,
            final(self).errors@.last().timestamp == now,
            final(self).errors@.last().recoverable == recoverable,
            *final(self) == (AppState { errors: final(self).errors, ..*old(self) }),
    {
        self.errors.push(AppError { message, timestamp: now, recoverable });
        assert(self.errors@.drop_last() =~= old(self).errors@);
    }

    /// Records an error now.
    pub fn add_error(&mut self, message: String, recoverable: bool)
        ensures
            final(self).errors@.len() == old(self).errors@.len() + 1,
            final(self).errors@.drop_last() == old(self).errors@,
            final(self).errors@.last().message == message,
            0 <= final(self).errors@.last().timestamp <= MAX_TIMESTAMP_MS,
            final(self).errors@.last().recoverable == recoverable,
            *final(self) == (AppState { errors: final(self).errors, ..*old(self) }),
    {
        let now = utc_now_millis();
        self.add_error_at(message, recoverable, now);
    }

    /// Forgets all errors.
    pub fn clear_errors(&mut self)
        ensures
            final(self).errors@.len() == 0,
            *final(self) == (AppState { errors: final(self).errors, ..*old(self) }),
    {
        self.errors.clear();
    }

    /// Shows a notification.
    pub fn add_notification(&mut self, message: &str, notification_type: NotificationType)
        ensures
            final(self).notifications@.len() == old(self).notifications@.len() + 1,
            final(self).notifications@.drop_last() == old(self).notifications@,
            final(self).notifications@.last().0@ == message@,
            final(self).notifications@.last().1 == notification_type,
            *final(self) == (AppState { notifications: final(self).notifications, ..*old(self) }),
    {
        self.notifications.push((owned(message), notification_type));
        assert(self.notifications@.drop_last() =~= old(self).notifications@);
    }

    /// Forgets all notifications.
    pub fn clear_notifications(&mut self)
        ensures
            final(self).notifications@.len() == 0,
            *final(self) == (AppState { notifications: final(self).notifications, ..*old(self) }),
    {
        self.notifications.clear();
    }

    /// Whether an operation is in flight.
    pub fn is_loading(&self, key: LoadingKey) -> (r: bool)
        ensures
            r == self.loading_set().contains(key),
    {
        let mut i: usize = 0;
        while i < self.loading.len()
            invariant
                i <= self.loading@.len(),
                forall|j: int| 0 <= j < i ==> self.loading@[j] != key,
            decreases self.loading@.len() - i,
        {
            if self.loading[i] == key {
                assert(self.loading@.contains(key));
                return true;
            }
            i = i + 1;
        }
        false
    }

    /// Marks an operation as in flight or done.
    pub fn set_loading(&mut self, key: LoadingKey, loading: bool)
        requires
            old(self).loading@.no_duplicates(),
        ensures
            final(self).loading@.no_duplicates(),
            final(self).loading_set() == if loading {
                old(self).loading_set().insert(key)
            } else {
                old(self).loading_set().remove(key)
            },
            *final(self) == (AppState { loading: final(self).loading, ..*old(self) }),
    {
        let mut i: usize = 0;
        while i < self.loading.len()
            invariant_except_break
                i <= self.loading@.len(),
                forall|j: int| 0 <= j < i ==> self.loading@[j] != key,
            invariant
                self.loading@ == old(self).loading@,
                *self == *old(self),
            ensures
                i <= self.loading@.len(),
                forall|j: int| 0 <= j < i ==> self.loading@[j] != key,
                i < self.loading@.len() ==> self.loading@[i as int] == key,
            decreases self.loading@.len() - i,
        {
            if self.loading[i] == key {
                break;
            }
            i = i + 1;
        }
        let ghost before = self.loading@;
        if i < self.loading.len() {
            if !loading {
                self.loading.remove(i);
                proof {
                    let after = self.loading@;
                    assert forall|k: int| 0 <= k < after.len() implies after[k] == (if k < i {
                        before[k]
                    } else {
                        before[k + 1]
                    }) by {}
                    assert forall|x: LoadingKey| #[trigger] after.contains(x) <==> before.contains(x) && x != key by {
                        if before.contains(x) && x != key {
                            let k = choose|k: int| 0 <= k < before.len() && before[k] == x;
                            assert(k != i);
                            if k < i {
                                assert(after[k] == x);
                            } else {
                                assert(after[k - 1] == x);
                            }
                        }
                        if after.contains(x) {
                            let k = choose|k: int| 0 <= k < after.len() && after[k] == x;
                            if k < i {
                                assert(before[k] == x);
                            } else {
                                assert(before[k + 1] == x);
                                assert(k + 1 != i);
                            }
                        }
                    }
                    assert(after.to_set() =~= before.to_set().remove(key));
                    assert forall|a: int, b: int| 0 <= a < after.len() && 0 <= b < after.len() && a != b implies after[a]
                        != after[b] by {
                        let a1 = if a < i { a } else { a + 1 };
                        let b1 = if b < i { b } else { b + 1 };
                        assert(after[a] == before[a1] && after[b] == before[b1]);
                    }
                }
            } else {
                assert(before.to_set() =~= before.to_set().insert(key));
            }
        } else {
            if loading {
                self.loading.push(key);
                proof {
                    assert(self.loading@.to_set() =~= before.to_set().insert(key)) by {
                        assert forall|x: LoadingKey| #[trigger] self.loading@.contains(x) <==> before.contains(x) || x == key by {
                            if self.loading@.contains(x) {
                                let k = choose|k: int| 0 <= k < self.loading@.len() && self.loading@[k] == x;
                                if k < before.len() {
                                    assert(before[k] == x);
                                }
                            }
                            if before.contains(x) {
                                let k = choose|k: int| 0 <= k < before.len() && before[k] == x;
                                assert(self.loading@[k] == x);
                            }
                            if x == key {
                                assert(self.loading@[before.len() as int] == key);
                            }
                        }
                    }
                }
            } else {
                assert(!before.contains(key));
                assert(before.to_set() =~= before.to_set().remove(key));
            }
        }
    }

    /// The tab shown on a screen: the one stored for it, else the first.
    pub fn get_tab_state(&self, screen_key: &str) -> (r: usize)
        ensures
            r == self.tab_index(screen_key@),
    {
        proof {
            lemma_lookup(self.tab_states@, screen_key@);
        }
        match entry_position(&self.tab_states, screen_key) {
            Some(i) => self.tab_states[i].1,
            None => 0,
        }
    }

    /// Remembers the tab shown on a screen.
    pub fn set_tab_state(&mut self, screen_key: String, index: usize)
        ensures
            lookup(final(self).tab_states@, screen_key@) == Some(index),
            forall|k: Seq<char>| k != screen_key@ ==> #[trigger] lookup(final(self).tab_states@, k) == lookup(
                old(self).tab_states@,
                k,
            ),
            *final(self) == (AppState { tab_states: final(self).tab_states, ..*old(self) }),
    {
        put_entry(&mut self.tab_states, screen_key, index);
    }

    /// The value typed into a form field: the stored one, else empty.
    pub fn get_form_value(&self, field_id: &str) -> (r: String)
        ensures
            r@ == self.form_text(field_id@),
    {
        proof {
            lemma_lookup(self.form_states@, field_id@);
        }
        match entry_position(&self.form_states, field_id) {
            Some(i) => self.form_states[i].1.clone(),
            None => String::new(),
        }
    }

    /// Remembers the value typed into a form field.
    pub fn set_form_value(&mut self, field_id: String, value: String)
        ensures
            lookup(final(self).form_states@, field_id@) == Some(value),
            forall|k: Seq<char>| k != field_id@ ==> #[trigger] lookup(final(self).form_states@, k) == lookup(
                old(self).form_states@,
                k,
            ),
            *final(self) == (AppState { form_states: final(self).form_states, ..*old(self) }),
    {
        put_entry(&mut self.form_states, field_id, value);
    }

    /// Signs in with the typed username and password, as a stand-in for the
    /// backend: the user gets `user_id` and `learner_id` and joins at
    /// `now`; without both inputs an error is shown instead.
    pub fn login_at(&mut self, user_id: u128, learner_id: u128, now: i64)
        ensures
            signed_in_with(*old(self), *final(self), user_id, learner_id, now),
    {
        if self.username_input.as_str().unicode_len() == 0 || self.password_input.as_str().unicode_len() == 0 {
            self.add_error_at(owned("Username and password are required"), true, now);
            return;
        }
        self.login_request_in_flight = true;
        let user = UserState {
            id: user_id,
            username: self.username_input.clone(),
            email: concat(self.username_input.as_str(), "@example.com"),
            display_name: Some(self.username_input.clone()),
            created_at: now,
            learner_id: Some(learner_id),
            level: 1,
            xp: 0,
            streak: 0,
            achievements: Vec::new(),
        };
        self.current_user = Some(user.clone());
        self.user = Some(user);
        self.password_input = String::new();
        self.login_request_in_flight = false;
        self.current_screen = Screen::Dashboard;
    }

    /// Signs in with the typed username and password now, with fresh ids.
    pub fn login(&mut self)
        ensures
            exists|user_id: u128, learner_id: u128, now: i64|
                #[trigger] signed_in_with(*old(self), *final(self), user_id, learner_id, now),
    {
        let user_id = new_uuid();
        let learner_id = new_uuid();
        let now = utc_now_millis();
        self.login_at(user_id, learner_id, now);
    }

    /// Creates an account from the sign-up form: the username, email and
    /// password must all be filled in and the password typed twice the same;
    /// otherwise an error says which (at `now`). The new user gets the ids
    /// `user_id` and `learner_id` and joins at `now`; the passwords are
    /// cleared, the sign-up is no longer in flight, and the welcome screen
    /// opens.
    pub fn signup_at(&mut self, user_id: u128, learner_id: u128, now: i64)
        requires
            old(self).wf(),
        ensures
            final(self).wf(),
            signed_up_with(*old(self), *final(self), user_id, learner_id, now),
    {
        if self.auth_username.as_str().unicode_len() == 0 || self.auth_email.as_str().unicode_len() == 0
            || self.auth_password.as_str().unicode_len() == 0 {
            self.add_error_at(owned("Please fill in all required fields"), true, now);
            return;
        }
        if !str_eq(self.auth_password.as_str(), self.auth_confirm_password.as_str()) {
            self.add_error_at(owned("Passwords do not match"), true, now);
            return;
        }
        self.set_loading(LoadingKey::Signup, true);
        self.user = Some(
            UserState {
                id: user_id,
                username: self.auth_username.clone(),
                email: self.auth_email.clone(),
                display_name: Some(self.auth_username.clone()),
                created_at: now,
                learner_id: Some(learner_id),
                level: 1,
                xp: 0,
                streak: 0,
                achievements: Vec::new(),
            },
        );
        self.auth_password = String::new();
        self.auth_confirm_password = String::new();
        self.set_loading(LoadingKey::Signup, false);
        assert(self.loading_set() =~= old(self).loading_set().remove(LoadingKey::Signup));
        self.navigate(Screen::Welcome);
    }

    /// Creates an account from the sign-up form now, with fresh ids; see
    /// `signup_at`.
    pub fn signup(&mut self)
        requires
            old(self).wf(),
        ensures
            final(self).wf(),
            exists|user_id: u128, learner_id: u128, now: i64|
                #[trigger] signed_up_with(*old(self), *final(self), user_id, learner_id, now),
    {
        let user_id = new_uuid();
        let learner_id = new_uuid();
        let now = utc_now_millis();
        self.signup_at(user_id, learner_id, now);
    }

    /// Signs in with Apple. Off iOS this stands in for the native flow and
    /// goes straight to the dashboard.
    pub fn apple_sign_in(&mut self)
        ensures
            final(self).current_screen == Screen::Dashboard,
            !final(self).oauth_login_in_flight,
            final(self).user == old(self).user,
            *final(self) == (AppState {
                current_screen: Screen::Dashboard,
                oauth_login_in_flight: false,
                ..*old(self)
            }),
    {
        self.oauth_login_in_flight = true;
        self.current_screen = Screen::Dashboard;
        self.oauth_login_in_flight = false;
    }

    /// Signs in with GitHub; a stand-in that goes straight to the dashboard.
    pub fn github_sign_in(&mut self)
        ensures
            final(self).current_screen == Screen::Dashboard,
            !final(self).oauth_login_in_flight,
            final(self).user == old(self).user,
            *final(self) == (AppState {
                current_screen: Screen::Dashboard,
                oauth_login_in_flight: false,
                ..*old(self)
            }),
    {
        self.oauth_login_in_flight = true;
        self.current_screen = Screen::Dashboard;
        self.oauth_login_in_flight = false;
    }

    /// A click on the crab's hiding place at `clock`: clicks less than half
    /// a second apart count towards a triple click; the third brings Little
    /// Crab out and announces it. Answers whether it did.
    pub fn try_crab_triple_click_at(&mut self, clock: CrabClock) -> (found: bool)
        requires
            old(self).wf(),
            old(self).triple_click_count < u32::MAX,
            0 <= clock.now_ms <= MAX_TIMESTAMP_MS,
            old(self).last_triple_click matches Some(last) ==> i64::MIN <= clock.now_ms - last <= i64::MAX,
            old(self).easter_egg_manager.crab.can_activate(CrabTrigger::TripleClick),
        ensures
            final(self).wf(),
            crab_clicked(*old(self), *final(self), clock, found),
    {
        let now = clock.now_ms;
        match self.last_triple_click {
            Some(last) => {
                if now - last < 500 {
                    self.triple_click_count = self.triple_click_count + 1;
                } else {
                    self.triple_click_count = 1;
                }
            },
            None => {
                self.triple_click_count = 1;
            },
        }
        self.last_triple_click = Some(now);
        if self.triple_click_count >= 3 {
            self.easter_egg_manager.crab.activate_at(CrabTrigger::TripleClick, clock);
            self.triple_click_count = 0;
            self.add_error_at(owned("🦀 You found Little Crab! He'll help you learn!"), true, now);
            true
        } else {
            false
        }
    }

    /// A click on the crab's hiding place now; see
    /// `try_crab_triple_click_at`.
    pub fn try_crab_triple_click(&mut self) -> (found: bool)
        requires
            old(self).wf(),
            old(self).triple_click_count < u32::MAX,
            old(self).last_triple_click matches Some(last) ==> 0 <= last <= MAX_TIMESTAMP_MS,
            old(self).easter_egg_manager.crab.can_activate(CrabTrigger::TripleClick),
        ensures
            final(self).wf(),
            exists|clock: CrabClock| #[trigger] crab_clicked(*old(self), *final(self), clock, found),
    {
        let clock = crab_clock_now();
        self.try_crab_triple_click_at(clock)
    }

    /// Starts the quick tour.
    pub fn demo_start(&mut self)
        requires
            old(self).wf(),
        ensures
            final(self).wf(),
            *final(self) == (AppState { demo_controller: final(self).demo_controller, ..*old(self) }),
            match old(self).demo_controller {
                Some(d) => final(self).demo_controller matches Some(e) && exists|r: Result<(), String>|
                    #[trigger] crate::demo::start_outcome(d, e, "quick_tour"@, r),
                None => final(self).demo_controller is None,
            },
    {
        if let Some(demo) = &mut self.demo_controller {
            let r = demo.start_scenario("quick_tour");
            assert(crate::demo::start_outcome(old(self).demo_controller.unwrap(), *demo, "quick_tour"@, r));
        }
    }

    /// Starts the training tour.
    pub fn demo_start_training(&mut self)
        requires
            old(self).wf(),
        ensures
            final(self).wf(),
            *final(self) == (AppState { demo_controller: final(self).demo_controller, ..*old(self) }),
            match old(self).demo_controller {
                Some(d) => final(self).demo_controller matches Some(e) && exists|r: Result<(), String>|
                    #[trigger] crate::demo::start_outcome(d, e, "training_demo"@, r),
                None => final(self).demo_controller is None,
            },
    {
        if let Some(demo) = &mut self.demo_controller {
            let r = demo.start_scenario("training_demo");
            assert(crate::demo::start_outcome(old(self).demo_controller.unwrap(), *demo, "training_demo"@, r));
        }
    }

    /// Starts the showcase tour and fills the dashboard with sample response
    /// times.
    pub fn demo_showcase(&mut self)
        requires
            old(self).wf(),
        ensures
            final(self).wf(),
            old(self).demo_controller is Some ==> final(self).response_times@ == seq![1250u128, 980, 2100, 750, 1100],
            old(self).demo_controller is None ==> final(self).response_times == old(self).response_times,
    {
        if let Some(demo) = &mut self.demo_controller {
            let _ = demo.start_scenario("showcase");
            self.populate_demo_data();
        }
    }

    /// The sample response times of the showcase.
    fn populate_demo_data(&mut self)
        ensures
            final(self).response_times@ == seq![1250u128, 980, 2100, 750, 1100],
            *final(self) == (AppState { response_times: final(self).response_times, ..*old(self) }),
    {
        let mut times: Vec<u128> = Vec::new();
        times.push(1250);
        times.push(980);
        times.push(2100);
        times.push(750);
        times.push(1100);
        self.response_times = times;
    }

    /// The text form of the signed-in user's id, or "guest".
    pub fn current_user_key(&self) -> (r: String)
        ensures
            r@ == user_key(self.user),
            vstd::utf8::is_ascii_chars(r@),
    {
        match &self.user {
            Some(u) => {
                proof {
                    lemma_uuid_text_ascii(u.id);
                }
                uuid_string(u.id)
            },
            None => {
                proof {
                    reveal_strlit("guest");
                }
                owned("guest")
            },
        }
    }

    /// Feeds an achievement event to the signed-in user's profile (or the
    /// guest's); see `GamificationManager::process_event`.
    pub fn award_achievement(&mut self, event: AchievementEvent)
        requires
            old(self).wf(),
            find_profile(old(self).gamification.user_profiles@, user_key(old(self).user)) matches Some(j) ==> {
                let p = old(self).gamification.user_profiles@[j];
                let paid = total_reward(
                    unlocking(old(self).gamification.achievement_manager.items(), event, p.streak.current),
                );
                p.total_points + paid <= u32::MAX && p.can_gain(2 * paid)
            },
        ensures
            final(self).wf(),
            *final(self) == (AppState { gamification: final(self).gamification, ..*old(self) }),
            final(self).gamification.leaderboards == old(self).gamification.leaderboards,
            match find_profile(old(self).gamification.user_profiles@, user_key(old(self).user)) {
                Some(j) => {
                    &&& old(self).gamification.only_profile_changed(&final(self).gamification, j)
                    &&& exists|unlocked: Seq<Achievement>|
                        #[trigger] event_outcome(
                            old(self).gamification.achievement_manager.items(),
                            final(self).gamification.achievement_manager.items(),
                            old(self).gamification.user_profiles@[j],
                            final(self).gamification.user_profiles@[j],
                            unlocked,
                            event,
                        )
                },
                None => {
                    &&& final(self).gamification.user_profiles@.len() == old(self).gamification.user_profiles@.len()
                        + 1
                    &&& final(self).gamification.user_profiles@.drop_last() == old(self).gamification.user_profiles@
                    &&& final(self).gamification.user_profiles@.last().user_id@ == user_key(old(self).user)
                },
            },
    {
        let key = self.current_user_key();
        let key_str = key.as_str();
        proof {
            if find_profile(self.gamification.user_profiles@, key@) is None {
                vstd::string::is_ascii_spec_bytes(key_str);
                lemma_ascii_boundary(key_str, crate::gamification::profile::shown_id_bytes(key_str));
            }
        }
        let ghost before = self.gamification;
        let unlocked = self.gamification.process_event(key_str, event);
        proof {
            match find_profile(before.user_profiles@, key@) {
                Some(j) => {
                    assert(event_outcome(
                        before.achievement_manager.items(),
                        self.gamification.achievement_manager.items(),
                        before.user_profiles@[j],
                        self.gamification.user_profiles@[j],
                        unlocked@,
                        event,
                    ));
                },
                None => {
                    let p = choose|p: GamificationProfile|
                        #[trigger] is_fresh(p, key_str) && event_outcome(
                            before.achievement_manager.items(),
                            self.gamification.achievement_manager.items(),
                            p,
                            self.gamification.user_profiles@.last(),
                            unlocked@,
                            event,
                        );
                },
            }
        }
    }

    /// Records a finished session of `total` tasks, `correct` of them
    /// right, lasting `duration_minutes`, in the profile of the signed-in
    /// user (or the guest) when there is one: its statistics take the
    /// session, with the fastest response time seen, and it earns ten
    /// experience per task plus fifty times the accuracy. The global,
    /// weekly and monthly leaderboards are then rebuilt.
    pub fn update_gamification_session(&mut self, correct: u32, total: u32, duration_minutes: u32)
        requires
            old(self).wf(),
            session_accuracy_bp(correct, total) <= u32::MAX,
            session_xp(correct, total) <= u32::MAX,
            old(self).gamification.user_profiles@.len() < u32::MAX,
            find_profile(old(self).gamification.user_profiles@, user_key(old(self).user)) matches Some(j) ==> {
                let p = old(self).gamification.user_profiles@[j];
                &&& p.can_record(session_of(correct, total, duration_minutes, old(self).response_times@))
                &&& p.can_gain(session_xp(correct, total) as nat)
            },
        ensures
            final(self).wf(),
            *final(self) == (AppState { gamification: final(self).gamification, ..*old(self) }),
            final(self).gamification.achievement_manager == old(self).gamification.achievement_manager,
            match find_profile(old(self).gamification.user_profiles@, user_key(old(self).user)) {
                Some(j) => {
                    &&& old(self).gamification.only_profile_changed(&final(self).gamification, j)
                    &&& session_scored(
                        old(self).gamification.user_profiles@[j],
                        final(self).gamification.user_profiles@[j],
                        session_of(correct, total, duration_minutes, old(self).response_times@),
                        session_xp(correct, total) as nat,
                    )
                },
                None => final(self).gamification.user_profiles == old(self).gamification.user_profiles,
            },
            final(self).gamification.board(board_key(LeaderboardType::Global)) matches Some(b) && ranked_board(
                b,
                final(self).gamification.user_profiles@,
                old(self).gamification.board(board_key(LeaderboardType::Global)),
            ),
            final(self).gamification.board(board_key(LeaderboardType::Weekly)) matches Some(b) && ranked_board(
                b,
                final(self).gamification.user_profiles@,
                old(self).gamification.board(board_key(LeaderboardType::Weekly)),
            ),
            final(self).gamification.board(board_key(LeaderboardType::Monthly)) matches Some(b) && ranked_board(
                b,
                final(self).gamification.user_profiles@,
                old(self).gamification.board(board_key(LeaderboardType::Monthly)),
            ),
            old(self).gamification.boards_kept(
                &final(self).gamification,
                seq![
                    board_key(LeaderboardType::Global),
                    board_key(LeaderboardType::Weekly),
                    board_key(LeaderboardType::Monthly),
                ],
            ),
    {
        let key = self.current_user_key();
        let pos = self.gamification.profile_position(key.as_str());
        proof {
            crate::gamification::lemma_find_profile(self.gamification.user_profiles@, key@);
        }
        match pos {
            Some(i) => {
                let fastest = fastest_response(&self.response_times);
                let (accuracy_bp, bonus): (u32, u32) = if total > 0 {
                    let bp: u64 = correct as u64 * 10000 / total as u64;
                    let b: u64 = correct as u64 * 50 / total as u64;
                    assert(b <= bp) by (nonlinear_arith)
                        requires
                            b == (correct * 50) / (total as int),
                            bp == (correct * 10000) / (total as int),
                            total > 0,
                    {
                        assert(correct * 50 <= correct * 10000);
                    }
                    (bp as u32, b as u32)
                } else {
                    (0, 0)
                };
                let session = SessionData {
                    tasks_completed: total,
                    duration_minutes,
                    accuracy_bp,
                    fastest_response_ms: fastest as u32,
                };
                assert(session == session_of(correct, total, duration_minutes, old(self).response_times@));
                let xp: u32 = total * 10 + bonus;
                let ghost p0 = self.gamification.user_profiles@[i as int];
                self.gamification.user_profiles[i].update_statistics(session);
                let ghost mid = self.gamification.user_profiles@[i as int];
                self.gamification.user_profiles[i].add_experience(xp);
                assert(p0.session_recorded(&mid, session));
                assert(self.gamification.wf()) by {
                    assert forall|a: int, b: int|
                        0 <= a < b < self.gamification.user_profiles@.len() implies self.gamification.user_profiles@[a].user_id@
                        != self.gamification.user_profiles@[b].user_id@ by {
                        assert(self.gamification.user_profiles@[a].user_id == old(self).gamification.user_profiles@[a].user_id);
                        assert(self.gamification.user_profiles@[b].user_id == old(self).gamification.user_profiles@[b].user_id);
                    }
                }
            },
            None => {},
        }
        let ghost before = self.gamification;
        self.gamification.update_leaderboards();
        assert(before.board(board_key(LeaderboardType::Global)) == old(self).gamification.board(board_key(LeaderboardType::Global)));
    }

    /// The signed-in user's profile (or the guest's), if there is one.
    pub fn get_current_user_profile(&self) -> (r: Option<&GamificationProfile>)
        ensures
            match find_profile(self.gamification.user_profiles@, user_key(self.user)) {
                Some(j) => r == Some(&self.gamification.user_profiles@[j]),
                None => r is None,
            },
    {
        let key = self.current_user_key();
        match self.gamification.profile_position(key.as_str()) {
            Some(i) => {
                proof {
                    crate::gamification::lemma_find_profile(self.gamification.user_profiles@, key@);
                }
                Some(&self.gamification.user_profiles[i])
            },
            None => None,
        }
    }

    /// Applies the outcome of a background Apple sign-in: on success the
    /// user (with ids `user_id` and `learner_id`, joining at `now`) is
    /// signed in and taken to the dashboard; on failure an error is shown.
    /// Either way the sign-in is no longer in flight.
    pub fn handle_auth_event_at(&mut self, event: AuthEvent, user_id: u128, learner_id: u128, now: i64)
        ensures
            auth_event_handled(*old(self), *final(self), event, user_id, learner_id, now),
    {
        match event {
            AuthEvent::AppleSignInSuccess { user_id: _, email, given_name, family_name } => {
                let username = match &email {
                    Some(e) => e.clone(),
                    None => match &given_name {
                        Some(g) => g.clone(),
                        None => owned("Apple User"),
                    },
                };
                let display_name = match (given_name, family_name) {
                    (Some(first), Some(last)) => {
                        let mut s = first;
                        s.append(" ");
                        s.append(last.as_str());
                        Some(s)
                    },
                    (Some(first), None) => Some(first),
                    (None, Some(last)) => Some(last),
                    (None, None) => None,
                };
                let email_text = match email {
                    Some(e) => e,
                    None => String::new(),
                };
                self.user = Some(
                    UserState {
                        id: user_id,
                        username,
                        email: email_text,
                        display_name,
                        created_at: now,
                        learner_id: Some(learner_id),
                        level: 1,
                        xp: 0,
                        streak: 0,
                        achievements: Vec::new(),
                    },
                );
                self.oauth_login_in_flight = false;
                self.current_screen = Screen::Dashboard;
            },
            AuthEvent::AppleSignInError(error) => {
                self.oauth_login_in_flight = false;
                self.add_error_at(concat("Apple Sign In failed: ", error.as_str()), true, now);
            },
        }
    }

    /// Applies the outcome of a background Apple sign-in now, with fresh
    /// ids for a new user.
    pub fn handle_auth_event(&mut self, event: AuthEvent)
        ensures
            exists|user_id: u128, learner_id: u128, now: i64|
                #[trigger] auth_event_handled(*old(self), *final(self), event, user_id, learner_id, now),
    {
        let user_id = new_uuid();
        let learner_id = new_uuid();
        let now = utc_now_millis();
        self.handle_auth_event_at(event, user_id, learner_id, now);
    }
}

/// `b` is `a` after a sign-in with the typed username and password; the
/// new user gets the ids `user_id` and `learner_id` and joins at `now`.
pub open spec fn signed_in_with(a: AppState, b: AppState, user_id: u128, learner_id: u128, now: i64) -> bool {
    &&& a.username_input@.len() == 0 || a.password_input@.len() == 0 ==> {
        &&& b.errors@.len() == a.errors@.len() + 1
        &&& b.errors@.last().message@ == "Username and password are required"@
        &&& b.errors@.last().recoverable
        &&& b.user == a.user
        &&& b.current_screen == a.current_screen
    }
    &&& a.username_input@.len() > 0 && a.password_input@.len() > 0 ==> {
        &&& b.user matches Some(u) && u.id == user_id && u.username == a.username_input
            && u.email@ == a.username_input@ + "@example.com"@ && u.display_name == Some(
            a.username_input,
        ) && u.created_at == now && u.learner_id == Some(learner_id) && u.level == 1 && u.xp == 0
            && u.streak == 0 && u.achievements@.len() == 0
        &&& b.current_user matches Some(c) && b.user matches Some(u) && c.same_as(u)
        &&& b.password_input@.len() == 0
        &&& !b.login_request_in_flight
        &&& b.current_screen == Screen::Dashboard
        &&& b.errors == a.errors
    }
    &&& b == (AppState {
        user: b.user,
        current_user: b.current_user,
        password_input: b.password_input,
        login_request_in_flight: b.login_request_in_flight,
        current_screen: b.current_screen,
        errors: b.errors,
        ..a
    })
}

/// `b` is `a` after the outcome `event` of a native sign-in; a new user
/// gets the ids `user_id` and `learner_id` and joins at `now`.
pub open spec fn auth_event_handled(
    a: AppState,
    b: AppState,
    event: AuthEvent,
    user_id: u128,
    learner_id: u128,
    now: i64,
) -> bool {
    &&& !b.oauth_login_in_flight
    &&& match event {
        AuthEvent::AppleSignInSuccess { user_id: _, email, given_name, family_name } => {
            &&& b.user matches Some(u) && u.id == user_id && u.username@ == apple_username(
                email,
                given_name,
            ) && u.email@ == match email {
                Some(e) => e@,
                None => Seq::<char>::empty(),
            } && match apple_display_name(given_name, family_name) {
                Some(d) => u.display_name matches Some(x) && x@ == d,
                None => u.display_name is None,
            } && u.created_at == now && u.learner_id == Some(learner_id) && u.level == 1 && u.xp == 0
                && u.streak == 0 && u.achievements@.len() == 0
            &&& b.current_screen == Screen::Dashboard
            &&& b.errors == a.errors
        },
        AuthEvent::AppleSignInError(error) => {
            &&& b.user == a.user
            &&& b.current_screen == a.current_screen
            &&& b.errors@.len() == a.errors@.len() + 1
            &&& b.errors@.drop_last() == a.errors@
            &&& b.errors@.last().message@ == "Apple Sign In failed: "@ + error@
            &&& b.errors@.last().recoverable
        },
    }
    &&& b == (AppState {
        user: b.user,
        oauth_login_in_flight: false,
        current_screen: b.current_screen,
        errors: b.errors,
        ..a
    })
}

/// `b` is `a` after a click on the crab's hiding place at `clock`, with
/// `found` telling whether it made a triple click (three within half a
/// second each), which brings the crab out and greets the learner.
pub open spec fn crab_clicked(a: AppState, b: AppState, clock: CrabClock, found: bool) -> bool {
    let now = clock.now_ms;
    let count = match a.last_triple_click {
        Some(last) => if now - last < 500 {
            a.triple_click_count + 1
        } else {
            1
        },
        None => 1,
    };
    &&& found == (count >= 3)
    &&& b.triple_click_count == (if count >= 3 { 0 } else { count })
    &&& b.last_triple_click == Some(now)
    &&& found ==> {
        &&& a.easter_egg_manager.crab.activated(&b.easter_egg_manager.crab, CrabTrigger::TripleClick, clock)
        &&& b.easter_egg_manager == (EasterEggManager { crab: b.easter_egg_manager.crab, ..a.easter_egg_manager })
        &&& b.errors@.len() == a.errors@.len() + 1
        &&& b.errors@.drop_last() == a.errors@
        &&& b.errors@.last().message@ == "🦀 You found Little Crab! He'll help you learn!"@
        &&& b.errors@.last().recoverable
    }
    &&& !found ==> b.errors == a.errors && b.easter_egg_manager == a.easter_egg_manager
    &&& b == (AppState {
        triple_click_count: b.triple_click_count,
        last_triple_click: b.last_triple_click,
        easter_egg_manager: b.easter_egg_manager,
        errors: b.errors,
        ..a
    })
}

/// `b` is `a` after the sign-up form was sent: refused, with an error at
/// `now`, when the username, email or password is empty or the password was
/// not typed twice the same; otherwise the new user (ids `user_id` and
/// `learner_id`, joining at `now`) is signed in, the passwords are cleared,
/// the sign-up is no longer in flight and the welcome screen opens.
pub open spec fn signed_up_with(a: AppState, b: AppState, user_id: u128, learner_id: u128, now: i64) -> bool {
    let missing = a.auth_username@.len() == 0 || a.auth_email@.len() == 0 || a.auth_password@.len() == 0;
    let mismatch = !missing && a.auth_password@ != a.auth_confirm_password@;
    &&& missing || mismatch ==> {
        &&& b.errors@.len() == a.errors@.len() + 1
        &&& b.errors@.drop_last() == a.errors@
        &&& b.errors@.last().message@ == (if missing {
            "Please fill in all required fields"@
        } else {
            "Passwords do not match"@
        })
        &&& b.errors@.last().recoverable
        &&& b.errors@.last().timestamp == now
        &&& b == (AppState { errors: b.errors, ..a })
    }
    &&& !missing && !mismatch ==> {
        &&& b.user matches Some(u) && u.id == user_id && u.username == a.auth_username && u.email == a.auth_email
            && u.display_name == Some(a.auth_username) && u.created_at == now && u.learner_id == Some(learner_id)
            && u.level == 1 && u.xp == 0 && u.streak == 0 && u.achievements@.len() == 0
        &&& b.auth_password@.len() == 0
        &&& b.auth_confirm_password@.len() == 0
        &&& b.loading_set() == a.loading_set().remove(LoadingKey::Signup)
        &&& b.current_screen == Screen::Welcome
        &&& b.navigation_stack@ == a.navigation_stack@.push(a.current_screen)
        &&& b == (AppState {
            user: b.user,
            auth_password: b.auth_password,
            auth_confirm_password: b.auth_confirm_password,
            loading: b.loading,
            current_screen: b.current_screen,
            navigation_stack: b.navigation_stack,
            ..a
        })
    }
}

/// Going back right after going to a screen returns to the screen left,
/// with the history as it was.
pub proof fn lemma_back_undoes_navigate(start: AppState, went: AppState, back: AppState, screen: Screen)
    requires
        went.current_screen == screen,
        went.navigation_stack@ == start.navigation_stack@.push(start.current_screen),
        went.navigation_stack@.len() > 0 ==> back.current_screen == went.navigation_stack@.last()
            && back.navigation_stack@ == went.navigation_stack@.drop_last(),
        went.navigation_stack@.len() == 0 ==> back.current_screen == went.current_screen
            && back.navigation_stack@ == went.navigation_stack@,
    ensures
        back.current_screen == start.current_screen,
        back.navigation_stack@ == start.navigation_stack@,
{
    assert(went.navigation_stack@.drop_last() =~= start.navigation_stack@);
}

/// Reading a screen's tab right after setting it gives the tab set, and the
/// other screens read as before.
pub proof fn lemma_tab_read_after_write(before: AppState, after: AppState, screen_key: Seq<char>, index: usize)
    requires
        lookup(after.tab_states@, screen_key) == Some(index),
        forall|k: Seq<char>| k != screen_key ==> #[trigger] lookup(after.tab_states@, k) == lookup(
            before.tab_states@,
            k,
        ),
    ensures
        after.tab_index(screen_key) == index,
        forall|k: Seq<char>| k != screen_key ==> #[trigger] after.tab_index(k) == before.tab_index(k),
{
    assert forall|k: Seq<char>| k != screen_key implies #[trigger] after.tab_index(k) == before.tab_index(k) by {
        assert(lookup(after.tab_states@, k) == lookup(before.tab_states@, k));
    }
}

/// Reading a form field right after setting it gives the text set, and the
/// other fields read as before.
pub proof fn lemma_form_read_after_write(before: AppState, after: AppState, field_id: Seq<char>, value: String)
    requires
        lookup(after.form_states@, field_id) == Some(value),
        forall|k: Seq<char>| k != field_id ==> #[trigger] lookup(after.form_states@, k) == lookup(
            before.form_states@,
            k,
        ),
    ensures
        after.form_text(field_id) == value@,
        forall|k: Seq<char>| k != field_id ==> #[trigger] after.form_text(k) == before.form_text(k),
{
    assert forall|k: Seq<char>| k != field_id implies #[trigger] after.form_text(k) == before.form_text(k) by {
        assert(lookup(after.form_states@, k) == lookup(before.form_states@, k));
    }
}

/// After a loading flag is set or cleared, `is_loading` reads it back, and
/// the other flags read as before.
pub proof fn lemma_loading_read_after_write(before: AppState, after: AppState, key: LoadingKey, loading: bool)
    requires
        after.loading_set() == if loading {
            before.loading_set().insert(key)
        } else {
            before.loading_set().remove(key)
        },
    ensures
        after.loading_set().contains(key) == loading,
        forall|k: LoadingKey| k != key ==> #[trigger] after.loading_set().contains(k) == before.loading_set().contains(
            k,
        ),
{
}

impl Default for AppState {
    fn default() -> (r: Self)
        ensures
            r.wf(),
            r.current_screen == Screen::Welcome,
            r.user is None,
    {
        AppState::new()
    }
}

} // verus!
