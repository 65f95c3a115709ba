//! The requests and responses exchanged with the backend's REST API.

use vstd::prelude::*;

verus! {

/// A request to create an account.
#[derive(Debug)]
pub struct RegisterRequest {
    pub username: String,
    pub email: String,
    pub password: String,
}

/// A request to sign in.
#[derive(Debug)]
pub struct LoginRequest {
    pub username: String,
    pub password: String,
}

/// A hint for the current task.
#[derive(Debug)]
pub struct HintResponse {
    pub hint: String,
    pub hint_level: u32,
}

/// The outcome of pushing queued responses to the backend.
#[derive(Debug)]
pub struct SyncResponse {
    pub synced_count: usize,
    pub failed_count: usize,
    pub errors: Vec<String>,
}

/// The leaderboards that the backend keeps.
#[derive(Debug)]
pub struct LeaderboardResponse {
    pub weekly: Vec<LeaderboardEntry>,
    pub all_time: Vec<LeaderboardEntry>,
    pub user_rank: Option<i32>,
}

/// One line of a backend leaderboard.
#[derive(Debug)]
pub struct LeaderboardEntry {
    pub rank: i32,
    pub username: String,
    pub score: i32,
    pub level: i32,
}

} // verus!
