//! What the local store keeps of a learner's gamification state.

use vstd::prelude::*;

verus! {

/// The stored summary of a learner's gamification state.
#[derive(Debug)]
pub struct GamificationData {
    pub level: i32,
    pub xp: i32,
    pub achievements: Vec<String>,
    pub streak_current: i32,
    pub streak_longest: i32,
}

} // verus!
