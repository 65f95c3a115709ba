//! Learning-session data models.

use vstd::prelude::*;
use crate::text::str_eq;

verus! {

/// Lifecycle state of a learning session.
#[derive(Debug, Clone, Copy, PartialEq, Eq, Structural)]
pub enum SessionStatus {
    Active,
    Completed,
    Abandoned,
}

/// The name under which a status is stored.
pub open spec fn status_name(s: SessionStatus) -> Seq<char> {
    match s {
        SessionStatus::Active => "active"@,
        SessionStatus::Completed => "completed"@,
        SessionStatus::Abandoned => "abandoned"@,
    }
}

/// The status that a stored name denotes; unknown names read as abandoned.
pub open spec fn status_from_name(s: Seq<char>) -> SessionStatus {
    if s == "active"@ {
        SessionStatus::Active
    } else if s == "completed"@ {
        SessionStatus::Completed
    } else {
        SessionStatus::Abandoned
    }
}

impl SessionStatus {
    pub fn as_str(&self) -> (r: &'static str)
        ensures
            r@ == status_name(*self),
    {
        match self {
            SessionStatus::Active => "active",
            SessionStatus::Completed => "completed",
            SessionStatus::Abandoned => "abandoned",
        }
    }

    pub fn from_str(s: &str) -> (r: Self)
        ensures
            r == status_from_name(s@),
    {
        if str_eq(s, "active") {
            SessionStatus::Active
        } else if str_eq(s, "completed") {
            SessionStatus::Completed
        } else {
            SessionStatus::Abandoned
        }
    }
}

/// Reading back the stored name of a status gives the status itself.
pub proof fn lemma_status_name_round_trip(s: SessionStatus)
    ensures
        status_from_name(status_name(s)) == s,
{
    reveal_strlit("active");
    reveal_strlit("completed");
    reveal_strlit("abandoned");
    match s {
        SessionStatus::Active => {},
        SessionStatus::Completed => {
            assert("completed"@.len() != "active"@.len());
        },
        SessionStatus::Abandoned => {
            assert("abandoned"@.len() != "active"@.len());
            assert("abandoned"@[0] != "completed"@[0]);
        },
    }
}

/// A navigation task: find a way from `start` to `goal` within the
/// constraints.
#[derive(Debug)]
pub struct NavigationTask {
    pub start: String,
    pub goal: String,
    pub constraints: Vec<String>,
}

/// A boundary task: spot where the chunks, categories or levels of a span
/// begin.
#[derive(Debug)]
pub struct BoundaryTask {
    pub boundary_type: String,
    pub span_size: usize,
    pub boundary_positions: Vec<usize>,
}

} // verus!
