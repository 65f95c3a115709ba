//! Leaderboards: ranked entries built from profiles, with the movement of
//! each learner since the previous ranking.

use vstd::prelude::*;
use crate::gamification::profile::GamificationProfile;
use crate::text::{decimal, owned, str_eq, u64_to_string};

verus! {

/// How a learner moved since the previous ranking.
#[derive(Debug, Clone, Copy, PartialEq, Eq, Structural)]
pub enum Trend {
    /// Positions gained.
    Up(u32),
    /// Positions lost.
    Down(u32),
    Stable,
}

pub open spec fn trend_text(t: Trend) -> Seq<char> {
    match t {
        Trend::Up(n) => "↑ "@ + decimal(n as nat),
        Trend::Down(n) => "↓ "@ + decimal(n as nat),
        Trend::Stable => "→"@,
    }
}

pub open spec fn trend_color(t: Trend) -> Seq<char> {
    match t {
        Trend::Up(_) => "#48bb78"@,
        Trend::Down(_) => "#f56565"@,
        Trend::Stable => "#a0aec0"@,
    }
}

impl Trend {
    /// An arrow and the number of positions moved.
    pub fn display(&self) -> (r: String)
        ensures
            r@ == trend_text(*self),
    {
        match self {
            Trend::Up(n) => {
                let mut s = owned("↑ ");
                s.append(u64_to_string(*n as u64).as_str());
                s
            },
            Trend::Down(n) => {
                let mut s = owned("↓ ");
                s.append(u64_to_string(*n as u64).as_str());
                s
            },
            Trend::Stable => owned("→"),
        }
    }

    /// Green for a gain, red for a loss, grey otherwise.
    pub fn color(&self) -> (r: &'static str)
        ensures
            r@ == trend_color(*self),
    {
        match self {
            Trend::Up(_) => "#48bb78",
            Trend::Down(_) => "#f56565",
            Trend::Stable => "#a0aec0",
        }
    }
}

/// The kinds of leaderboard.
#[derive(Debug)]
pub enum LeaderboardType {
    Global,
    Weekly,
    Monthly,
    Friends,
    Domain(String),
}

/// What tells two leaderboard kinds apart: the variant and, for a domain
/// board, the domain's name.
pub open spec fn board_key(t: LeaderboardType) -> (int, Seq<char>) {
    match t {
        LeaderboardType::Global => (0, seq![]),
        LeaderboardType::Weekly => (1, seq![]),
        LeaderboardType::Monthly => (2, seq![]),
        LeaderboardType::Friends => (3, seq![]),
        LeaderboardType::Domain(d) => (4, d@),
    }
}

pub open spec fn board_name(t: LeaderboardType) -> Seq<char> {
    match t {
        LeaderboardType::Global => "Global Rankings"@,
        LeaderboardType::Weekly => "This Week"@,
        LeaderboardType::Monthly => "This Month"@,
        LeaderboardType::Friends => "Friends"@,
        LeaderboardType::Domain(d) => d@ + " Masters"@,
    }
}

pub open spec fn board_icon(t: LeaderboardType) -> Seq<char> {
    match t {
        LeaderboardType::Global => "🌍"@,
        LeaderboardType::Weekly => "📅"@,
        LeaderboardType::Monthly => "📆"@,
        LeaderboardType::Friends => "👥"@,
        LeaderboardType::Domain(_) => "🎯"@,
    }
}

impl Clone for LeaderboardType {
    fn clone(&self) -> (r: Self)
        ensures
            r == *self,
    {
        match self {
            LeaderboardType::Global => LeaderboardType::Global,
            LeaderboardType::Weekly => LeaderboardType::Weekly,
            LeaderboardType::Monthly => LeaderboardType::Monthly,
            LeaderboardType::Friends => LeaderboardType::Friends,
            LeaderboardType::Domain(d) => LeaderboardType::Domain(d.clone()),
        }
    }
}

impl LeaderboardType {
    /// The heading of the leaderboard.
    pub fn display_name(&self) -> (r: String)
        ensures
            r@ == board_name(*self),
    {
        match self {
            LeaderboardType::Global => owned("Global Rankings"),
            LeaderboardType::Weekly => owned("This Week"),
            LeaderboardType::Monthly => owned("This Month"),
            LeaderboardType::Friends => owned("Friends"),
            LeaderboardType::Domain(domain) => {
                let mut s = domain.clone();
                s.append(" Masters");
                s
            },
        }
    }

    /// The icon of the leaderboard.
    pub fn icon(&self) -> (r: &'static str)
        ensures
            r@ == board_icon(*self),
    {
        match self {
            LeaderboardType::Global => "🌍",
            LeaderboardType::Weekly => "📅",
            LeaderboardType::Monthly => "📆",
            LeaderboardType::Friends => "👥",
            LeaderboardType::Domain(_) => "🎯",
        }
    }

    /// Whether two kinds denote the same leaderboard.
    pub fn same_board(&self, other: &LeaderboardType) -> (r: bool)
        ensures
            r == (board_key(*self) == board_key(*other)),
    {
        match (self, other) {
            (LeaderboardType::Global, LeaderboardType::Global) => true,
            (LeaderboardType::Weekly, LeaderboardType::Weekly) => true,
            (LeaderboardType::Monthly, LeaderboardType::Monthly) => true,
            (LeaderboardType::Friends, LeaderboardType::Friends) => true,
            (LeaderboardType::Domain(a), LeaderboardType::Domain(b)) => str_eq(a.as_str(), b.as_str()),
            _ => false,
        }
    }
}

/// One learner's line on a leaderboard.
#[derive(Debug)]
pub struct LeaderboardEntry {
    pub rank: u32,
    pub user_id: String,
    pub display_name: String,
    pub avatar_url: Option<String>,
    pub score: u32,
    pub level: u32,
    pub achievement_count: u32,
    pub trend: Trend,
}

impl Clone for LeaderboardEntry {
    fn clone(&self) -> (r: Self)
        ensures
            r == *self,
    {
        LeaderboardEntry {
            rank: self.rank,
            user_id: self.user_id.clone(),
            display_name: self.display_name.clone(),
            avatar_url: self.avatar_url.clone(),
            score: self.score,
            level: self.level,
            achievement_count: self.achievement_count,
            trend: self.trend,
        }
    }
}

/// The rank as shown: a medal for the first three, "#n" otherwise.
pub open spec fn rank_text(rank: u32) -> Seq<char> {
    if rank == 1 {
        "🥇"@
    } else if rank == 2 {
        "🥈"@
    } else if rank == 3 {
        "🥉"@
    } else {
        "#"@ + decimal(rank as nat)
    }
}

/// `e` is the unranked entry of profile `p`: its points as score, no rank
/// yet, and no movement.
pub open spec fn entry_of(e: LeaderboardEntry, p: GamificationProfile) -> bool {
    &&& e.rank == 0
    &&& e.user_id == p.user_id
    &&& e.display_name == p.display_name
    &&& e.avatar_url == p.avatar_url
    &&& e.score == p.total_points
    &&& e.level == p.level
    &&& e.achievement_count == p.achievements@.len() as u32
    &&& e.trend == Trend::Stable
}

impl LeaderboardEntry {
    /// The unranked entry of a profile.
    pub fn from_profile(profile: &GamificationProfile) -> (r: Self)
        ensures
            entry_of(r, *profile),
    {
        LeaderboardEntry {
            rank: 0,
            user_id: profile.user_id.clone(),
            display_name: profile.display_name.clone(),
            avatar_url: profile.avatar_url.clone(),
            score: profile.total_points,
            level: profile.level,
            achievement_count: profile.achievements.len() as u32,
            trend: Trend::Stable,
        }
    }

    /// The rank as shown: a medal for the first three, "#n" otherwise.
    pub fn display_rank(&self) -> (r: String)
        ensures
            r@ == rank_text(self.rank),
    {
        if self.rank == 1 {
            owned("🥇")
        } else if self.rank == 2 {
            owned("🥈")
        } else if self.rank == 3 {
            owned("🥉")
        } else {
            let mut s = owned("#");
            s.append(u64_to_string(self.rank as u64).as_str());
            s
        }
    }

    /// Whether the rank is at most three.
    pub fn is_top_three(&self) -> (r: bool)
        ensures
            r == (self.rank <= 3),
    {
        self.rank <= 3
    }
}

} // verus!
