//! Gamification: achievements, streaks, power-ups, profiles and
//! leaderboards, and the manager that ties them to learners.

pub mod achievements;
pub mod leaderboard;
pub mod leveling;
pub mod powerups;
pub mod profile;
pub mod streaks;

use vstd::prelude::*;
use crate::gamification::achievements::{event_applied, lemma_marked_reward, reward, total_reward, unlocking, Achievement, AchievementEvent, AchievementManager, MAX_EVENT_REWARD};
use crate::gamification::leveling::lemma_settle_bounds;
use crate::gamification::leaderboard::{board_key, LeaderboardEntry, LeaderboardType, Trend};
use crate::gamification::profile::{is_fresh, lemma_progress_in_steps, shown_id_bytes, GamificationProfile};
use crate::text::str_eq;
use vstd::string::StringSliceAdditionalSpecFns;

verus! {

/// The first profile in `s` that belongs to the user `id`.
pub open spec fn find_profile(s: Seq<GamificationProfile>, id: Seq<char>) -> Option<int>
    decreases s.len(),
{
    if s.len() == 0 {
        None
    } else {
        match find_profile(s.drop_last(), id) {
            Some(i) => Some(i),
            None => if s.last().user_id@ == id { Some(s.len() - 1) } else { None },
        }
    }
}

/// The profile found for `id` carries that id, and none is found only when
/// no profile carries it.
pub proof fn lemma_find_profile(s: Seq<GamificationProfile>, id: Seq<char>)
    ensures
        find_profile(s, id) matches Some(i) ==> 0 <= i < s.len() && s[i].user_id@ == id,
        find_profile(s, id) is None ==> forall|j: int| 0 <= j < s.len() ==> s[j].user_id@ != id,
    decreases s.len(),
{
    if s.len() > 0 {
        lemma_find_profile(s.drop_last(), id);
        assert forall|j: int| 0 <= j < s.len() - 1 implies s.drop_last()[j] == s[j] by {}
    }
}

proof fn lemma_find_profile_first(s: Seq<GamificationProfile>, id: Seq<char>, i: int)
    requires
        0 <= i < s.len(),
        s[i].user_id@ == id,
        forall|j: int| 0 <= j < i ==> s[j].user_id@ != id,
    ensures
        find_profile(s, id) == Some(i),
    decreases s.len(),
{
    lemma_find_profile(s, id);
    if i < s.len() - 1 {
        assert forall|j: int| 0 <= j < i implies s.drop_last()[j].user_id@ != id by {
            assert(s.drop_last()[j] == s[j]);
        }
        assert(s.drop_last()[i] == s[i]);
        lemma_find_profile_first(s.drop_last(), id, i);
    } else {
        lemma_find_profile(s.drop_last(), id);
        if find_profile(s.drop_last(), id) is Some {
            let k = find_profile(s.drop_last(), id)->Some_0;
            assert(s.drop_last()[k] == s[k]);
        }
    }
}

/// The first board in `s` of the given kind.
pub open spec fn find_board(s: Seq<(LeaderboardType, Vec<LeaderboardEntry>)>, key: (int, Seq<char>)) -> Option<int>
    decreases s.len(),
{
    if s.len() == 0 {
        None
    } else {
        match find_board(s.drop_last(), key) {
            Some(i) => Some(i),
            None => if board_key(s.last().0) == key { Some(s.len() - 1) } else { None },
        }
    }
}

proof fn lemma_find_board(s: Seq<(LeaderboardType, Vec<LeaderboardEntry>)>, key: (int, Seq<char>))
    ensures
        find_board(s, key) matches Some(i) ==> 0 <= i < s.len() && board_key(s[i].0) == key && forall|j: int|
            0 <= j < i ==> board_key(s[j].0) != key,
        find_board(s, key) is None ==> forall|j: int| 0 <= j < s.len() ==> board_key(s[j].0) != key,
    decreases s.len(),
{
    if s.len() > 0 {
        lemma_find_board(s.drop_last(), key);
        assert forall|j: int| 0 <= j < s.len() - 1 implies s.drop_last()[j] == s[j] by {}
    }
}

proof fn lemma_find_board_first(s: Seq<(LeaderboardType, Vec<LeaderboardEntry>)>, key: (int, Seq<char>), i: int)
    requires
        0 <= i < s.len(),
        board_key(s[i].0) == key,
        forall|j: int| 0 <= j < i ==> board_key(s[j].0) != key,
    ensures
        find_board(s, key) == Some(i),
    decreases s.len(),
{
    lemma_find_board(s, key);
    if i < s.len() - 1 {
        lemma_find_board_first(s.drop_last(), key, i);
    } else {
        lemma_find_board(s.drop_last(), key);
        assert forall|j: int| 0 <= j < s.len() - 1 implies s.drop_last()[j] == s[j] by {}
    }
}

proof fn lemma_find_board_update(
    s: Seq<(LeaderboardType, Vec<LeaderboardEntry>)>,
    i: int,
    x: (LeaderboardType, Vec<LeaderboardEntry>),
)
    requires
        0 <= i < s.len(),
        board_key(x.0) == board_key(s[i].0),
    ensures
        forall|key: (int, Seq<char>)| #[trigger] find_board(s.update(i, x), key) == find_board(s, key),
{
    assert forall|key: (int, Seq<char>)| #[trigger] find_board(s.update(i, x), key) == find_board(s, key) by {
        let t = s.update(i, x);
        lemma_find_board(s, key);
        lemma_find_board(t, key);
        assert forall|j: int| 0 <= j < s.len() implies board_key(t[j].0) == board_key(s[j].0) by {}
        match find_board(s, key) {
            Some(m) => {
                lemma_find_board_first(t, key, m);
            },
            None => {
                if find_board(t, key) is Some {
                    let m = find_board(t, key)->Some_0;
                    assert(board_key(s[m].0) == key);
                }
            },
        }
    }
}

proof fn lemma_find_board_push(s: Seq<(LeaderboardType, Vec<LeaderboardEntry>)>, x: (LeaderboardType, Vec<LeaderboardEntry>))
    requires
        find_board(s, board_key(x.0)) is None,
    ensures
        find_board(s.push(x), board_key(x.0)) == Some(s.len() as int),
        forall|key: (int, Seq<char>)| key != board_key(x.0) ==> #[trigger] find_board(s.push(x), key) == find_board(s, key),
{
    assert(s.push(x).drop_last() =~= s);
}

proof fn lemma_reward_prefix(s: Seq<Achievement>, k: int)
    requires
        0 <= k <= s.len(),
    ensures
        total_reward(s.take(k)) <= total_reward(s),
    decreases s.len() - k,
{
    if k < s.len() {
        lemma_reward_prefix(s, k + 1);
        assert(s.take(k + 1).drop_last() =~= s.take(k));
    } else {
        assert(s.take(k) =~= s);
    }
}

/// The first entry of `b` for the user `id`.
pub open spec fn find_entry(b: Seq<LeaderboardEntry>, id: Seq<char>) -> Option<int>
    decreases b.len(),
{
    if b.len() == 0 {
        None
    } else {
        match find_entry(b.drop_last(), id) {
            Some(i) => Some(i),
            None => if b.last().user_id@ == id { Some(b.len() - 1) } else { None },
        }
    }
}

proof fn lemma_find_entry(b: Seq<LeaderboardEntry>, id: Seq<char>)
    ensures
        find_entry(b, id) matches Some(i) ==> 0 <= i < b.len() && b[i].user_id@ == id && forall|j: int|
            0 <= j < i ==> b[j].user_id@ != id,
        find_entry(b, id) is None ==> forall|j: int| 0 <= j < b.len() ==> b[j].user_id@ != id,
    decreases b.len(),
{
    if b.len() > 0 {
        lemma_find_entry(b.drop_last(), id);
        assert forall|j: int| 0 <= j < b.len() - 1 implies b.drop_last()[j] == b[j] by {}
    }
}

proof fn lemma_find_entry_first(b: Seq<LeaderboardEntry>, id: Seq<char>, i: int)
    requires
        0 <= i < b.len(),
        b[i].user_id@ == id,
        forall|j: int| 0 <= j < i ==> b[j].user_id@ != id,
    ensures
        find_entry(b, id) == Some(i),
    decreases b.len(),
{
    lemma_find_entry(b, id);
    if i < b.len() - 1 {
        lemma_find_entry_first(b.drop_last(), id, i);
    } else {
        lemma_find_entry(b.drop_last(), id);
        assert forall|j: int| 0 <= j < b.len() - 1 implies b.drop_last()[j] == b[j] by {}
    }
}

/// The movement of the user `id`, now at `rank`, relative to the previous
/// board: positions gained or lost, and no movement for a newcomer or when
/// there was no previous board.
pub open spec fn trend_for(previous: Option<Seq<LeaderboardEntry>>, id: Seq<char>, rank: int) -> Trend {
    match previous {
        None => Trend::Stable,
        Some(b) => match find_entry(b, id) {
            None => Trend::Stable,
            Some(i) => {
                let before = b[i].rank as int;
                if rank < before {
                    Trend::Up((before - rank) as u32)
                } else if rank > before {
                    Trend::Down((rank - before) as u32)
                } else {
                    Trend::Stable
                }
            },
        },
    }
}

/// `order` lists the positions of `profiles` by points, highest first;
/// learners with equal points keep the order of the profiles.
pub open spec fn ranked_order(profiles: Seq<GamificationProfile>, order: Seq<usize>) -> bool {
    &&& order.len() == profiles.len()
    &&& forall|k: int| 0 <= k < order.len() ==> #[trigger] order[k] < profiles.len()
    &&& forall|a: int, b: int| 0 <= a < b < order.len() ==> order[a] != order[b]
    &&& forall|a: int, b: int|
        0 <= a < b < order.len() ==> profiles[order[a] as int].total_points >= profiles[order[b] as int].total_points
    &&& forall|a: int, b: int|
        0 <= a < b < order.len() && profiles[order[a] as int].total_points == profiles[order[b] as int].total_points
            ==> order[a] < order[b]
}

/// `e` is the entry of profile `p` at `rank`, with its movement relative to
/// the previous board.
pub open spec fn ranked_entry(
    e: LeaderboardEntry,
    p: GamificationProfile,
    rank: int,
    previous: Option<Seq<LeaderboardEntry>>,
) -> bool {
    &&& e.rank == rank
    &&& e.user_id == p.user_id
    &&& e.display_name == p.display_name
    &&& e.avatar_url == p.avatar_url
    &&& e.score == p.total_points
    &&& e.level == p.level
    &&& e.achievement_count == p.achievements@.len() as u32
    &&& e.trend == trend_for(previous, p.user_id@, rank)
}

/// `board` ranks every profile by points, highest first and ties in profile
/// order, numbering the ranks from 1 and recording each learner's movement
/// relative to the previous board.
pub open spec fn ranked_board(
    board: Seq<LeaderboardEntry>,
    profiles: Seq<GamificationProfile>,
    previous: Option<Seq<LeaderboardEntry>>,
) -> bool {
    exists|order: Seq<usize>|
        #[trigger] ranked_order(profiles, order) && board.len() == profiles.len() && forall|k: int|
            0 <= k < board.len() ==> ranked_entry(#[trigger] board[k], profiles[order[k] as int], k + 1, previous)
}

/// A ranking lists every profile position.
proof fn lemma_order_covers(profiles: Seq<GamificationProfile>, order: Seq<usize>, x: int)
    requires
        ranked_order(profiles, order),
        0 <= x < profiles.len(),
    ensures
        exists|k: int| 0 <= k < order.len() && order[k] == x,
{
    broadcast use vstd::seq_lib::seq_to_set_is_finite;

    let n = profiles.len() as int;
    let t = order.map_values(|v: usize| v as int);
    assert(t.no_duplicates()) by {
        assert forall|a: int, b: int| 0 <= a < t.len() && 0 <= b < t.len() && a != b implies t[a] != t[b] by {
            if a < b {
                assert(order[a] != order[b]);
            } else {
                assert(order[b] != order[a]);
            }
        }
    }
    t.unique_seq_to_set();
    let range = vstd::set_lib::set_int_range(0, n);
    vstd::set_lib::lemma_int_range(0, n);
    assert(t.to_set().subset_of(range)) by {
        assert forall|v: int| t.to_set().contains(v) implies range.contains(v) by {
            let k = choose|k: int| 0 <= k < t.len() && t[k] == v;
            assert(order[k] < profiles.len());
        }
    }
    vstd::set_lib::lemma_subset_equality(t.to_set(), range);
    assert(range.contains(x));
    assert(t.to_set().contains(x));
    let k = choose|k: int| 0 <= k < t.len() && t[k] == x;
    assert(order[k] == x);
}

/// Two rankings of the same profiles agree up to position `k`.
proof fn lemma_order_prefix(profiles: Seq<GamificationProfile>, o1: Seq<usize>, o2: Seq<usize>, k: int)
    requires
        ranked_order(profiles, o1),
        ranked_order(profiles, o2),
        0 <= k < o1.len(),
    ensures
        forall|j: int| 0 <= j <= k ==> o1[j] == o2[j],
    decreases k,
{
    if k > 0 {
        lemma_order_prefix(profiles, o1, o2, k - 1);
    }
    let a = o1[k];
    let b = o2[k];
    if a != b {
        lemma_order_covers(profiles, o2, a as int);
        let m = choose|m: int| 0 <= m < o2.len() && o2[m] == a;
        if m < k {
            assert(o1[m] == o2[m]);
            assert(o1[m] != o1[k]);
        }
        lemma_order_covers(profiles, o1, b as int);
        let m2 = choose|m2: int| 0 <= m2 < o1.len() && o1[m2] == b;
        if m2 < k {
            assert(o1[m2] == o2[m2]);
            assert(o2[m2] != o2[k]);
        }
        assert(k < m2);
        assert(k < m);
        assert(profiles[o1[k] as int].total_points >= profiles[o1[m2] as int].total_points);
        assert(profiles[o2[k] as int].total_points >= profiles[o2[m] as int].total_points);
    }
}

/// Ranking the same profiles twice gives the same order.
proof fn lemma_order_unique(profiles: Seq<GamificationProfile>, o1: Seq<usize>, o2: Seq<usize>)
    requires
        ranked_order(profiles, o1),
        ranked_order(profiles, o2),
    ensures
        o1 == o2,
{
    assert forall|k: int| 0 <= k < o1.len() implies o1[k] == o2[k] by {
        lemma_order_prefix(profiles, o1, o2, k);
    }
    assert(o1 =~= o2);
}

/// Ranking the same learners again gives everyone the same place, so a
/// board rebuilt from unchanged profiles shows no movement at all.
pub proof fn lemma_rebuilt_board_is_stable(
    profiles: Seq<GamificationProfile>,
    first: Seq<LeaderboardEntry>,
    second: Seq<LeaderboardEntry>,
    previous: Option<Seq<LeaderboardEntry>>,
)
    requires
        forall|a: int, b: int| 0 <= a < b < profiles.len() ==> profiles[a].user_id@ != profiles[b].user_id@,
        ranked_board(first, profiles, previous),
        ranked_board(second, profiles, Some(first)),
    ensures
        second.len() == first.len(),
        forall|k: int|
            0 <= k < second.len() ==> (#[trigger] second[k]).rank == first[k].rank && second[k].user_id
                == first[k].user_id && second[k].trend == Trend::Stable,
{
    let o1 = choose|order: Seq<usize>|
        #[trigger] ranked_order(profiles, order) && first.len() == profiles.len() && forall|k: int|
            0 <= k < first.len() ==> ranked_entry(#[trigger] first[k], profiles[order[k] as int], k + 1, previous);
    let o2 = choose|order: Seq<usize>|
        #[trigger] ranked_order(profiles, order) && second.len() == profiles.len() && forall|k: int|
            0 <= k < second.len() ==> ranked_entry(
                #[trigger] second[k],
                profiles[order[k] as int],
                k + 1,
                Some(first),
            );
    lemma_order_unique(profiles, o1, o2);
    assert forall|k: int| 0 <= k < second.len() implies (#[trigger] second[k]).rank == first[k].rank
        && second[k].user_id == first[k].user_id && second[k].trend == Trend::Stable by {
        assert(ranked_entry(second[k], profiles[o2[k] as int], k + 1, Some(first)));
        assert(ranked_entry(first[k], profiles[o1[k] as int], k + 1, previous));
        let id = profiles[o2[k] as int].user_id@;
        assert forall|j: int| 0 <= j < k implies first[j].user_id@ != id by {
            assert(ranked_entry(first[j], profiles[o1[j] as int], j + 1, previous));
            assert(o1[j] != o1[k]);
            if o1[j] < o1[k] {
                assert(profiles[o1[j] as int].user_id@ != profiles[o1[k] as int].user_id@);
            } else {
                assert(profiles[o1[k] as int].user_id@ != profiles[o1[j] as int].user_id@);
            }
        }
        lemma_find_entry_first(first, id, k);
    }
}

/// The positions of `profiles` by points, highest first, ties in profile
/// order (a stable insertion sort).
pub fn ranking_order(profiles: &Vec<GamificationProfile>) -> (order: Vec<usize>)
    ensures
        ranked_order(profiles@, order@),
{
    let mut order: Vec<usize> = Vec::new();
    let mut j: usize = 0;
    while j < profiles.len()
        invariant
            j <= profiles@.len(),
            order@.len() == j,
            forall|k: int| 0 <= k < order@.len() ==> #[trigger] order@[k] < j,
            forall|a: int, b: int| 0 <= a < b < order@.len() ==> order@[a] != order@[b],
            forall|a: int, b: int|
                0 <= a < b < order@.len() ==> profiles@[order@[a] as int].total_points >= profiles@[order@[
                    b
                ] as int].total_points,
            forall|a: int, b: int|
                0 <= a < b < order@.len() && profiles@[order@[a] as int].total_points == profiles@[order@[
                    b
                ] as int].total_points ==> order@[a] < order@[b],
        decreases profiles@.len() - j,
    {
        let score = profiles[j].total_points;
        let mut pos: usize = 0;
        while pos < order.len() && profiles[order[pos]].total_points >= score
            invariant
                j < profiles@.len(),
                pos <= order@.len(),
                order@.len() == j,
                forall|k: int| 0 <= k < order@.len() ==> #[trigger] order@[k] < j,
                score == profiles@[j as int].total_points,
                forall|k: int| 0 <= k < pos ==> profiles@[#[trigger] order@[k] as int].total_points >= score,
            decreases order@.len() - pos,
        {
            pos = pos + 1;
        }
        let ghost before = order@;
        proof {
            assert forall|k: int| pos <= k < before.len() implies profiles@[#[trigger] before[k] as int].total_points
                < score by {
                if pos < before.len() {
                    assert(profiles@[before[pos as int] as int].total_points < score);
                    if k > pos {
                        assert(profiles@[before[pos as int] as int].total_points >= profiles@[before[k] as int].total_points);
                    }
                }
            }
        }
        order.insert(pos, j);
        proof {
            assert forall|k: int| 0 <= k < order@.len() implies #[trigger] order@[k] < j + 1 by {
                if k < pos {
                    assert(order@[k] == before[k]);
                } else if k > pos {
                    assert(order@[k] == before[k - 1]);
                }
            }
            assert forall|a: int, b: int| 0 <= a < b < order@.len() implies order@[a] != order@[b] by {
                if a < pos && b < pos {
                    assert(order@[a] == before[a] && order@[b] == before[b]);
                } else if a < pos && b == pos {
                    assert(order@[a] == before[a]);
                } else if a < pos && b > pos {
                    assert(order@[a] == before[a] && order@[b] == before[b - 1]);
                } else if a == pos {
                    assert(order@[b] == before[b - 1]);
                } else {
                    assert(order@[a] == before[a - 1] && order@[b] == before[b - 1]);
                }
            }
            assert forall|a: int, b: int| 0 <= a < b < order@.len() implies profiles@[order@[a] as int].total_points
                >= profiles@[order@[b] as int].total_points && (profiles@[order@[a] as int].total_points
                == profiles@[order@[b] as int].total_points ==> order@[a] < order@[b]) by {
                if a < pos && b < pos {
                    assert(order@[a] == before[a] && order@[b] == before[b]);
                } else if a < pos && b == pos {
                    assert(order@[a] == before[a]);
                    assert(before[a] < j);
                } else if a < pos && b > pos {
                    assert(order@[a] == before[a] && order@[b] == before[b - 1]);
                } else if a == pos {
                    assert(order@[b] == before[b - 1]);
                    assert(profiles@[before[b - 1] as int].total_points < score);
                } else {
                    assert(order@[a] == before[a - 1] && order@[b] == before[b - 1]);
                }
            }
        }
        j = j + 1;
    }
    order
}

/// The position of the first entry of `board` for the user `id`.
pub fn entry_position(board: &Vec<LeaderboardEntry>, id: &str) -> (r: Option<usize>)
    ensures
        r matches Some(i) ==> find_entry(board@, id@) == Some(i as int),
        r is None ==> find_entry(board@, id@) is None,
{
    let mut m: usize = 0;
    while m < board.len()
        invariant
            m <= board@.len(),
            forall|j: int| 0 <= j < m ==> board@[j].user_id@ != id@,
        decreases board@.len() - m,
    {
        if str_eq(board[m].user_id.as_str(), id) {
            proof {
                lemma_find_entry_first(board@, id@, m as int);
            }
            return Some(m);
        }
        m = m + 1;
    }
    proof {
        lemma_find_entry(board@, id@);
        if find_entry(board@, id@) is Some {
            let q = find_entry(board@, id@)->Some_0;
            assert(board@[q].user_id@ == id@);
        }
    }
    None
}

/// `new` is `p` after an event paid out `unlocked`: the rewards are added
/// to the points once and to the experience twice (once as each
/// achievement unlocks, once more as the manager awards it), and the
/// unlocked achievements join the profile's.
pub open spec fn rewarded(p: GamificationProfile, new: GamificationProfile, unlocked: Seq<Achievement>) -> bool {
    let paid = total_reward(unlocked);
    &&& p.advanced(&new, 2 * paid)
    &&& new.total_points == p.total_points + paid
    &&& new.achievements@ == p.achievements@ + unlocked
    &&& p.same_apart_from_rewards(&new)
}

/// The catalogue went from `old` to `new` and the learner from `p` to `q`
/// through the event, which unlocked `unlocked` at some clock reading.
pub open spec fn event_outcome(
    old: Seq<Achievement>,
    new: Seq<Achievement>,
    p: GamificationProfile,
    q: GamificationProfile,
    unlocked: Seq<Achievement>,
    event: AchievementEvent,
) -> bool {
    &&& exists|now: i64| #[trigger] event_applied(old, new, unlocked, event, p.streak.current, now)
    &&& rewarded(p, q, unlocked)
}

/// Rewards to one learner and the leaderboards of all of them. Profiles are
/// kept in the order they were created, one per user; each kind of
/// leaderboard is kept once.
pub struct GamificationManager {
    pub achievement_manager: AchievementManager,
    pub user_profiles: Vec<GamificationProfile>,
    pub leaderboards: Vec<(LeaderboardType, Vec<LeaderboardEntry>)>,
}

impl GamificationManager {
    /// One profile per user and one board per kind, over the built-in
    /// catalogue of achievements.
    pub open spec fn wf(&self) -> bool {
        &&& self.achievement_manager.wf()
        &&& forall|a: int, b: int|
            0 <= a < b < self.user_profiles@.len() ==> self.user_profiles@[a].user_id@
                != self.user_profiles@[b].user_id@
        &&& forall|a: int, b: int|
            0 <= a < b < self.leaderboards@.len() ==> board_key(self.leaderboards@[a].0) != board_key(
                self.leaderboards@[b].0,
            )
    }

    /// The entries of the board of the given kind, if there is one.
    pub open spec fn board(&self, key: (int, Seq<char>)) -> Option<Seq<LeaderboardEntry>> {
        match find_board(self.leaderboards@, key) {
            Some(i) => Some(self.leaderboards@[i].1@),
            None => None,
        }
    }

    /// Every board whose kind is not among `changed` is the same in `new`.
    pub open spec fn boards_kept(&self, new: &GamificationManager, changed: Seq<(int, Seq<char>)>) -> bool {
        forall|key: (int, Seq<char>)| !changed.contains(key) ==> #[trigger] new.board(key) == self.board(key)
    }

    /// The profile of `user_id` after `get_or_create_profile`: the existing
    /// one, or a fresh one added at the end.
    pub open spec fn profile_created(&self, new: &GamificationManager, user_id: &str, i: int) -> bool {
        &&& new.achievement_manager == self.achievement_manager
        &&& new.leaderboards == self.leaderboards
        &&& match find_profile(self.user_profiles@, user_id@) {
            Some(j) => i == j && new.user_profiles == self.user_profiles,
            None => {
                &&& i == self.user_profiles@.len()
                &&& new.user_profiles@.len() == self.user_profiles@.len() + 1
                &&& new.user_profiles@.drop_last() == self.user_profiles@
                &&& is_fresh(new.user_profiles@[i], user_id)
            },
        }
    }

    /// No profiles, no leaderboards, and the built-in achievements.
    pub fn new() -> (r: Self)
        ensures
            r.wf(),
            r.user_profiles@.len() == 0,
            r.leaderboards@.len() == 0,
            r.achievement_manager.items().len() == crate::gamification::achievements::BUILTIN_COUNT,
            forall|i: int| 0 <= i < crate::gamification::achievements::BUILTIN_COUNT ==> crate::gamification::achievements::is_builtin(#[trigger] r.achievement_manager.items()[i], i),
            forall|i: int|
                0 <= i < crate::gamification::achievements::BUILTIN_COUNT ==> !(#[trigger] r.achievement_manager.items()[i]).unlocked
                    && r.achievement_manager.items()[i].unlocked_at is None
                    && r.achievement_manager.items()[i].progress_percent == 0,
    {
        GamificationManager {
            achievement_manager: AchievementManager::new(),
            user_profiles: Vec::new(),
            leaderboards: Vec::new(),
        }
    }

    /// The position of the profile of `user_id`.
    pub fn profile_position(&self, user_id: &str) -> (r: Option<usize>)
        ensures
            r matches Some(i) ==> find_profile(self.user_profiles@, user_id@) == Some(i as int),
            r is None ==> find_profile(self.user_profiles@, user_id@) is None,
    {
        let mut i: usize = 0;
        while i < self.user_profiles.len()
            invariant
                i <= self.user_profiles@.len(),
                forall|j: int| 0 <= j < i ==> self.user_profiles@[j].user_id@ != user_id@,
            decreases self.user_profiles@.len() - i,
        {
            if str_eq(self.user_profiles[i].user_id.as_str(), user_id) {
                proof {
                    lemma_find_profile_first(self.user_profiles@, user_id@, i as int);
                }
                return Some(i);
            }
            i = i + 1;
        }
        proof {
            lemma_find_profile(self.user_profiles@, user_id@);
            if find_profile(self.user_profiles@, user_id@) is Some {
                let k = find_profile(self.user_profiles@, user_id@)->Some_0;
                assert(self.user_profiles@[k].user_id@ == user_id@);
            }
        }
        None
    }

    /// The position of the profile of `user_id`, created first when missing.
    pub fn profile_index(&mut self, user_id: &str) -> (i: usize)
        requires
            old(self).wf(),
            find_profile(old(self).user_profiles@, user_id@) is None ==> vstd::utf8::is_char_boundary(
                user_id.spec_bytes(),
                shown_id_bytes(user_id),
            ),
        ensures
            final(self).wf(),
            i < final(self).user_profiles@.len(),
            final(self).user_profiles@[i as int].user_id@ == user_id@,
            old(self).profile_created(&*final(self), user_id, i as int),
    {
        proof {
            lemma_find_profile(self.user_profiles@, user_id@);
        }
        match self.profile_position(user_id) {
            Some(i) => i,
            None => {
                let p = GamificationProfile::new(user_id);
                self.user_profiles.push(p);
                assert(self.user_profiles@.drop_last() =~= old(self).user_profiles@);
                self.user_profiles.len() - 1
            },
        }
    }

    /// The profile of `user_id`, created first when missing.
    pub fn get_or_create_profile(&mut self, user_id: &str) -> (r: &mut GamificationProfile)
        requires
            old(self).wf(),
            find_profile(old(self).user_profiles@, user_id@) is None ==> vstd::utf8::is_char_boundary(
                user_id.spec_bytes(),
                shown_id_bytes(user_id),
            ),
        ensures
            r.user_id@ == user_id@,
            match find_profile(old(self).user_profiles@, user_id@) {
                Some(j) => *r == old(self).user_profiles@[j] && final(self).user_profiles@ == old(
                    self,
                ).user_profiles@.update(j, *final(r)),
                None => is_fresh(*r, user_id) && final(self).user_profiles@ == old(self).user_profiles@.push(
                    *final(r),
                ),
            },
            final(self).achievement_manager == old(self).achievement_manager,
            final(self).leaderboards == old(self).leaderboards,
    {
        let i = self.profile_index(user_id);
        &mut self.user_profiles[i]
    }

    /// The position of the board of the given kind.
    pub fn board_position(&self, leaderboard_type: &LeaderboardType) -> (r: Option<usize>)
        ensures
            r matches Some(i) ==> find_board(self.leaderboards@, board_key(*leaderboard_type)) == Some(i as int),
            r is None ==> find_board(self.leaderboards@, board_key(*leaderboard_type)) is None,
    {
        let ghost key = board_key(*leaderboard_type);
        let mut i: usize = 0;
        while i < self.leaderboards.len()
            invariant
                key == board_key(*leaderboard_type),
                i <= self.leaderboards@.len(),
                forall|j: int| 0 <= j < i ==> board_key(self.leaderboards@[j].0) != key,
            decreases self.leaderboards@.len() - i,
        {
            if self.leaderboards[i].0.same_board(leaderboard_type) {
                proof {
                    lemma_find_board_first(self.leaderboards@, key, i as int);
                }
                return Some(i);
            }
            i = i + 1;
        }
        proof {
            lemma_find_board(self.leaderboards@, key);
            if find_board(self.leaderboards@, key) is Some {
                let k = find_board(self.leaderboards@, key)->Some_0;
                assert(board_key(self.leaderboards@[k].0) == key);
            }
        }
        None
    }

    /// Rebuilds the board of the given kind from the profiles: ranked by
    /// points, highest first, with each learner's movement since the board's
    /// previous ranking. Other boards are kept.
    pub fn update_leaderboard(&mut self, leaderboard_type: LeaderboardType)
        requires
            old(self).wf(),
            old(self).user_profiles@.len() < u32::MAX,
        ensures
            final(self).wf(),
            final(self).achievement_manager == old(self).achievement_manager,
            final(self).user_profiles == old(self).user_profiles,
            final(self).board(board_key(leaderboard_type)) matches Some(b) && ranked_board(
                b,
                old(self).user_profiles@,
                old(self).board(board_key(leaderboard_type)),
            ),
            old(self).boards_kept(&*final(self), seq![board_key(leaderboard_type)]),
    {
        let ghost key = board_key(leaderboard_type);
        let ghost previous = self.board(key);
        let order = ranking_order(&self.user_profiles);
        let pos = self.board_position(&leaderboard_type);
        proof {
            lemma_find_board(self.leaderboards@, key);
        }
        let mut entries: Vec<LeaderboardEntry> = Vec::new();
        let mut k: usize = 0;
        while k < order.len()
            invariant
                ranked_order(self.user_profiles@, order@),
                self.user_profiles@.len() < u32::MAX,
                k <= order@.len(),
                entries@.len() == k,
                previous == self.board(key),
                key == board_key(leaderboard_type),
                pos matches Some(bi) ==> find_board(self.leaderboards@, key) == Some(bi as int),
                pos is None ==> find_board(self.leaderboards@, key) is None,
                forall|m: int|
                    0 <= m < k ==> ranked_entry(
                        #[trigger] entries@[m],
                        self.user_profiles@[order@[m] as int],
                        m + 1,
                        previous,
                    ),
            decreases order@.len() - k,
        {
            let mut e = LeaderboardEntry::from_profile(&self.user_profiles[order[k]]);
            let rank: u32 = (k + 1) as u32;
            if let Some(bi) = pos {
                proof {
                    lemma_find_board(self.leaderboards@, key);
                }
                let old_board = &self.leaderboards[bi].1;
                proof {
                    lemma_find_entry(old_board@, e.user_id@);
                }
                if let Some(oi) = entry_position(old_board, e.user_id.as_str()) {
                    let before = old_board[oi].rank;
                    e.trend = if rank < before {
                        Trend::Up(before - rank)
                    } else if rank > before {
                        Trend::Down(rank - before)
                    } else {
                        Trend::Stable
                    };
                }
            }
            e.rank = rank;
            entries.push(e);
            k = k + 1;
        }
        assert(ranked_order(self.user_profiles@, order@));
        assert(ranked_board(entries@, self.user_profiles@, previous));
        let ghost board = entries@;
        let ghost before = self.leaderboards@;
        proof {
            lemma_find_board(before, key);
        }
        match pos {
            Some(bi) => {
                self.leaderboards.set(bi, (leaderboard_type.clone(), entries));
                proof {
                    lemma_find_board_update(before, bi as int, self.leaderboards@[bi as int]);
                    assert forall|k2: (int, Seq<char>)| k2 != key implies #[trigger] self.board(k2) == old(self).board(k2) by {
                        lemma_find_board(before, k2);
                        assert(find_board(self.leaderboards@, k2) == find_board(before, k2));
                    }
                    assert(self.leaderboards@[bi as int].1@ == board);
                }
                assert forall|k2: (int, Seq<char>)| !seq![key].contains(k2) implies #[trigger] self.board(k2) == old(
                    self,
                ).board(k2) by {
                    if k2 == key {
                        assert(seq![key][0] == k2);
                    }
                }
            },
            None => {
                self.leaderboards.push((leaderboard_type.clone(), entries));
                proof {
                    lemma_find_board_push(before, self.leaderboards@.last());
                    assert(self.leaderboards@ == before.push(self.leaderboards@.last()));
                    assert forall|k2: (int, Seq<char>)| !seq![key].contains(k2) implies #[trigger] self.board(k2)
                        == old(self).board(k2) by {
                        if k2 == key {
                            assert(seq![key][0] == k2);
                        }
                        lemma_find_board(before, k2);
                    }
                }
            },
        }
    }

    /// Rebuilds the global, weekly and monthly boards.
    pub fn update_leaderboards(&mut self)
        requires
            old(self).wf(),
            old(self).user_profiles@.len() < u32::MAX,
        ensures
            final(self).wf(),
            final(self).achievement_manager == old(self).achievement_manager,
            final(self).user_profiles == old(self).user_profiles,
            final(self).board(board_key(LeaderboardType::Global)) matches Some(b) && ranked_board(
                b,
                old(self).user_profiles@,
                old(self).board(board_key(LeaderboardType::Global)),
            ),
            final(self).board(board_key(LeaderboardType::Weekly)) matches Some(b) && ranked_board(
                b,
                old(self).user_profiles@,
                old(self).board(board_key(LeaderboardType::Weekly)),
            ),
            final(self).board(board_key(LeaderboardType::Monthly)) matches Some(b) && ranked_board(
                b,
                old(self).user_profiles@,
                old(self).board(board_key(LeaderboardType::Monthly)),
            ),
            old(self).boards_kept(
                &*final(self),
                seq![
                    board_key(LeaderboardType::Global),
                    board_key(LeaderboardType::Weekly),
                    board_key(LeaderboardType::Monthly),
                ],
            ),
    {
        self.update_leaderboard(LeaderboardType::Global);
        self.update_leaderboard(LeaderboardType::Weekly);
        self.update_leaderboard(LeaderboardType::Monthly);
        assert(board_key(LeaderboardType::Global) != board_key(LeaderboardType::Weekly));
        assert(board_key(LeaderboardType::Global) != board_key(LeaderboardType::Monthly));
        assert(board_key(LeaderboardType::Weekly) != board_key(LeaderboardType::Monthly));
    }

    /// The first `limit` entries of the board of the given kind; nothing
    /// when there is no such board.
    pub fn get_leaderboard(&self, leaderboard_type: &LeaderboardType, limit: usize) -> (r: Vec<LeaderboardEntry>)
        ensures
            match self.board(board_key(*leaderboard_type)) {
                Some(b) => r@ == b.take(if limit < b.len() { limit as int } else { b.len() as int }),
                None => r@.len() == 0,
            },
    {
        match self.board_position(leaderboard_type) {
            None => Vec::new(),
            Some(bi) => {
                proof {
                    lemma_find_board(self.leaderboards@, board_key(*leaderboard_type));
                }
                let board = &self.leaderboards[bi].1;
                let n: usize = if limit < board.len() {
                    limit
                } else {
                    board.len()
                };
                let mut out: Vec<LeaderboardEntry> = Vec::new();
                let mut k: usize = 0;
                while k < n
                    invariant
                        n <= board@.len(),
                        k <= n,
                        out@ == board@.take(k as int),
                    decreases n - k,
                {
                    out.push(board[k].clone());
                    k = k + 1;
                    assert(out@ =~= board@.take(k as int));
                }
                out
            },
        }
    }

    /// The profiles after `f` changed the profile at `i`: the others are
    /// kept.
    pub open spec fn only_profile_changed(&self, new: &GamificationManager, i: int) -> bool {
        &&& new.user_profiles@.len() == self.user_profiles@.len()
        &&& forall|k: int| 0 <= k < self.user_profiles@.len() && k != i ==> new.user_profiles@[k] == self.user_profiles@[k]
    }

    /// Feeds an event to the learner's profile (created when missing):
    /// unlocked achievements pay their reward in points and experience, and
    /// the manager then awards their reward as experience once more. Returns
    /// the newly unlocked achievements.
    pub fn process_event(&mut self, user_id: &str, event: AchievementEvent) -> (r: Vec<Achievement>)
        requires
            old(self).wf(),
            match find_profile(old(self).user_profiles@, user_id@) {
                Some(j) => {
                    let p = old(self).user_profiles@[j];
                    let paid = total_reward(unlocking(old(self).achievement_manager.items(), event, p.streak.current));
                    p.total_points + paid <= u32::MAX && p.can_gain(2 * paid)
                },
                None => vstd::utf8::is_char_boundary(user_id.spec_bytes(), shown_id_bytes(user_id)),
            },
        ensures
            final(self).wf(),
            final(self).leaderboards == old(self).leaderboards,
            match find_profile(old(self).user_profiles@, user_id@) {
                Some(j) => {
                    &&& old(self).only_profile_changed(&*final(self), j)
                    &&& event_outcome(
                        old(self).achievement_manager.items(),
                        final(self).achievement_manager.items(),
                        old(self).user_profiles@[j],
                        final(self).user_profiles@[j],
                        r@,
                        event,
                    )
                },
                None => {
                    &&& final(self).user_profiles@.len() == old(self).user_profiles@.len() + 1
                    &&& final(self).user_profiles@.drop_last() == old(self).user_profiles@
                    &&& exists|p: GamificationProfile|
                        #[trigger] is_fresh(p, user_id) && event_outcome(
                            old(self).achievement_manager.items(),
                            final(self).achievement_manager.items(),
                            p,
                            final(self).user_profiles@.last(),
                            r@,
                            event,
                        )
                },
            },
    {
        let i = self.profile_index(user_id);
        let ghost created = *self;
        let ghost p0 = self.user_profiles@[i as int];
        let ghost items = self.achievement_manager.items();
        let ghost streak = p0.streak.current;
        let ghost paid = total_reward(unlocking(items, event, streak));
        proof {
            self.achievement_manager.lemma_event_reward(event, streak);
            self.achievement_manager.lemma_unlocked_pay(event, streak);
        }
        let unlocked = self.achievement_manager.check_achievements(&mut self.user_profiles[i], &event);
        let ghost now = choose|now: i64|
            #[trigger] event_applied(items, self.achievement_manager.items(), unlocked@, event, streak, now);
        proof {
            lemma_marked_reward(unlocking(items, event, streak), now);
            lemma_settle_bounds(p0.level as nat, (p0.experience + paid) as nat);
        }
        let mut k: usize = 0;
        while k < unlocked.len()
            invariant
                i < self.user_profiles@.len(),
                self.wf(),
                created.wf(),
                created.only_profile_changed(&*self, i as int),
                created.user_profiles@[i as int] == p0,
                self.leaderboards == created.leaderboards,
                self.achievement_manager.items() == items.map_values(|a: Achievement| crate::gamification::achievements::after_event(a, event, streak, now)),
                event_applied(items, self.achievement_manager.items(), unlocked@, event, streak, now),
                paid == total_reward(unlocked@),
                paid <= MAX_EVENT_REWARD,
                p0.can_gain(2 * paid),
                p0.total_points + paid <= u32::MAX,
                forall|m: int| 0 <= m < unlocked@.len() ==> reward(#[trigger] unlocked@[m]) > 0,
                k <= unlocked@.len(),
                p0.advanced(&self.user_profiles@[i as int], paid + total_reward(unlocked@.take(k as int))),
                self.user_profiles@[i as int].total_points == p0.total_points + paid,
                self.user_profiles@[i as int].achievements@ == p0.achievements@ + unlocked@,
                p0.same_apart_from_rewards(&self.user_profiles@[i as int]),
            decreases unlocked@.len() - k,
        {
            let a = &unlocked[k];
            let pct: u64 = a.rarity.multiplier_percent() as u64;
            assert(a.points as u64 * pct <= 0xffff_ffff * 500) by (nonlinear_arith)
                requires
                    pct <= 500,
                    a.points <= 0xffff_ffff,
            ;
            let raw: u64 = a.points as u64 * pct / 100;
            let xp: u32 = if raw > 0xffff_ffff {
                u32::MAX
            } else {
                raw as u32
            };
            let ghost before = self.user_profiles@[i as int];
            let ghost done = paid + total_reward(unlocked@.take(k as int));
            proof {
                assert(unlocked@.take(k + 1).drop_last() =~= unlocked@.take(k as int));
                assert(total_reward(unlocked@.take(k + 1)) == total_reward(unlocked@.take(k as int)) + xp);
                lemma_reward_prefix(unlocked@, k as int + 1);
                lemma_settle_bounds(p0.level as nat, (p0.experience + done) as nat);
            }
            self.user_profiles[i].add_experience(xp);
            proof {
                if done > 0 {
                    lemma_progress_in_steps(p0, before, self.user_profiles@[i as int], done, xp as nat);
                }
            }
            k = k + 1;
        }
        proof {
            assert(unlocked@.take(k as int) =~= unlocked@);
            let q = self.user_profiles@[i as int];
            assert(event_applied(items, self.achievement_manager.items(), unlocked@, event, streak, now));
            assert(rewarded(p0, q, unlocked@));
            lemma_find_profile(old(self).user_profiles@, user_id@);
            match find_profile(old(self).user_profiles@, user_id@) {
                Some(j) => {
                    assert(old(self).only_profile_changed(&*self, j));
                },
                None => {
                    assert(self.user_profiles@.drop_last() =~= old(self).user_profiles@) by {
                        assert forall|m: int| 0 <= m < old(self).user_profiles@.len() implies self.user_profiles@[m]
                            == old(self).user_profiles@[m] by {
                            assert(created.user_profiles@.drop_last()[m] == old(self).user_profiles@[m]);
                        }
                    }
                    assert(is_fresh(p0, user_id));
                },
            }
        }
        unlocked
    }

    /// Adds experience to the learner's profile, created when missing.
    pub fn award_experience(&mut self, user_id: &str, xp: u32)
        requires
            old(self).wf(),
            match find_profile(old(self).user_profiles@, user_id@) {
                Some(j) => old(self).user_profiles@[j].can_gain(xp as nat),
                None => vstd::utf8::is_char_boundary(user_id.spec_bytes(), shown_id_bytes(user_id)),
            },
        ensures
            final(self).wf(),
            final(self).leaderboards == old(self).leaderboards,
            final(self).achievement_manager == old(self).achievement_manager,
            match find_profile(old(self).user_profiles@, user_id@) {
                Some(j) => old(self).only_profile_changed(&*final(self), j) && old(self).user_profiles@[j].gained(
                    &final(self).user_profiles@[j],
                    xp as nat,
                ),
                None => {
                    &&& final(self).user_profiles@.len() == old(self).user_profiles@.len() + 1
                    &&& final(self).user_profiles@.drop_last() == old(self).user_profiles@
                    &&& exists|p: GamificationProfile|
                        #[trigger] is_fresh(p, user_id) && p.gained(&final(self).user_profiles@.last(), xp as nat)
                },
            },
    {
        let profile = self.get_or_create_profile(user_id);
        profile.add_experience(xp);
        proof {
            lemma_find_profile(old(self).user_profiles@, user_id@);
            match find_profile(old(self).user_profiles@, user_id@) {
                Some(j) => {},
                None => {
                    assert(self.user_profiles@.drop_last() =~= old(self).user_profiles@);
                },
            }
        }
    }

    /// Asks to activate a power-up of the learner (whose profile is created
    /// when missing); see `GamificationProfile::activate_power_up`.
    pub fn activate_power_up(&mut self, user_id: &str, power_up_id: &str) -> (r: Result<(), String>)
        requires
            old(self).wf(),
            find_profile(old(self).user_profiles@, user_id@) is None ==> vstd::utf8::is_char_boundary(
                user_id.spec_bytes(),
                shown_id_bytes(user_id),
            ),
        ensures
            final(self).wf(),
            final(self).leaderboards == old(self).leaderboards,
            final(self).achievement_manager == old(self).achievement_manager,
            match find_profile(old(self).user_profiles@, user_id@) {
                Some(j) => old(self).only_profile_changed(&*final(self), j) && old(self).user_profiles@[j].power_up_outcome(
                    &final(self).user_profiles@[j],
                    power_up_id@,
                    r,
                ),
                None => {
                    &&& final(self).user_profiles@.len() == old(self).user_profiles@.len() + 1
                    &&& final(self).user_profiles@.drop_last() == old(self).user_profiles@
                    &&& is_fresh(final(self).user_profiles@.last(), user_id)
                    &&& r is Err && r->Err_0@ == "PowerUp not found"@
                },
            },
    {
        let profile = self.get_or_create_profile(user_id);
        let r = profile.activate_power_up(power_up_id);
        proof {
            lemma_find_profile(old(self).user_profiles@, user_id@);
            match find_profile(old(self).user_profiles@, user_id@) {
                Some(j) => {},
                None => {
                    assert(self.user_profiles@.drop_last() =~= old(self).user_profiles@);
                },
            }
        }
        r
    }

    /// Updates the learner's streak (the profile is created when missing).
    pub fn update_streak(&mut self, user_id: &str, practiced_today: bool)
        requires
            old(self).wf(),
            match find_profile(old(self).user_profiles@, user_id@) {
                Some(j) => old(self).user_profiles@[j].streak.wf() && (practiced_today ==> old(
                    self,
                ).user_profiles@[j].streak.current < u32::MAX),
                None => vstd::utf8::is_char_boundary(user_id.spec_bytes(), shown_id_bytes(user_id)),
            },
        ensures
            final(self).wf(),
            final(self).leaderboards == old(self).leaderboards,
            final(self).achievement_manager == old(self).achievement_manager,
            match find_profile(old(self).user_profiles@, user_id@) {
                Some(j) => old(self).only_profile_changed(&*final(self), j) && old(self).user_profiles@[j].streak_outcome(
                    &final(self).user_profiles@[j],
                    practiced_today,
                ),
                None => {
                    &&& final(self).user_profiles@.len() == old(self).user_profiles@.len() + 1
                    &&& final(self).user_profiles@.drop_last() == old(self).user_profiles@
                    &&& exists|p: GamificationProfile|
                        #[trigger] is_fresh(p, user_id) && p.streak_outcome(
                            &final(self).user_profiles@.last(),
                            practiced_today,
                        )
                },
            },
    {
        let profile = self.get_or_create_profile(user_id);
        profile.update_streak(practiced_today);
        proof {
            lemma_find_profile(old(self).user_profiles@, user_id@);
            match find_profile(old(self).user_profiles@, user_id@) {
                Some(j) => {},
                None => {
                    assert(self.user_profiles@.drop_last() =~= old(self).user_profiles@);
                },
            }
        }
    }
}

} // verus!
