//! The live channel to the backend: its address, the messages the backend
//! sends during a session, and the decisions of the task that runs it.

use vstd::prelude::*;
use crate::text::owned;

verus! {

/// A hint sent during a task.
#[derive(Debug)]
pub struct HintMessage {
    pub hint_text: String,
    pub hint_level: u32,
    pub max_hint_level: u32,
}

/// Where the learner's performance is heading.
#[derive(Debug, Clone, Copy, PartialEq, Eq, Structural)]
pub enum PerformanceTrend {
    Improving,
    Stable,
    Declining,
}

/// Feedback on an answer.
#[derive(Debug)]
pub struct FeedbackMessage {
    pub correct: bool,
    pub correct_answer: String,
    pub explanation: Option<String>,
    pub performance_trend: PerformanceTrend,
}

/// The kinds of intervention the backend may suggest.
#[derive(Debug, Clone, Copy, PartialEq, Eq, Structural)]
pub enum InterventionType {
    EncouragementMessage,
    DifficultyAdjustment,
    BreakSuggestion,
    HintSuggestion,
    StrategyTip,
}

/// An intervention suggested by the backend.
#[derive(Debug)]
pub struct InterventionMessage {
    pub intervention_type: InterventionType,
    pub message: String,
    pub suggested_action: Option<String>,
}

/// Whether `s` begins with `prefix`.
pub open spec fn has_prefix(s: Seq<char>, prefix: Seq<char>) -> bool {
    prefix.len() <= s.len() && s.take(prefix.len() as int) == prefix
}

/// `s` with every occurrence of `pat` (scanning left to right, without
/// overlaps) replaced by `rep`, as `str::replace` does for a non-empty
/// pattern.
pub open spec fn replace_all(s: Seq<char>, pat: Seq<char>, rep: Seq<char>) -> Seq<char>
    recommends
        pat.len() > 0,
    decreases s.len(),
{
    if s.len() == 0 {
        seq![]
    } else if pat.len() > 0 && has_prefix(s, pat) {
        rep + replace_all(s.skip(pat.len() as int), pat, rep)
    } else {
        seq![s[0]] + replace_all(s.drop_first(), pat, rep)
    }
}

/// Whether the characters of `s` from `at` on begin with `prefix`.
fn matches_at(s: &str, at: usize, prefix: &str) -> (r: bool)
    requires
        at <= s@.len(),
    ensures
        r == has_prefix(s@.skip(at as int), prefix@),
{
    let n = s.unicode_len();
    let m = prefix.unicode_len();
    if m > n - at {
        return false;
    }
    let mut k: usize = 0;
    while k < m
        invariant
            n == s@.len(),
            m == prefix@.len(),
            at + m <= n,
            k <= m,
            forall|j: int| 0 <= j < k ==> s@[at + j] == prefix@[j],
        decreases m - k,
    {
        if s.get_char(at + k) != prefix.get_char(k) {
            assert(s@.skip(at as int).take(m as int)[k as int] != prefix@[k as int]);
            return false;
        }
        k = k + 1;
    }
    assert(s@.skip(at as int).take(m as int) =~= prefix@);
    true
}

/// `s` with every occurrence of `pat` replaced by `rep`.
pub fn replace_all_str(s: &str, pat: &str, rep: &str) -> (r: String)
    requires
        pat@.len() > 0,
    ensures
        r@ == replace_all(s@, pat@, rep@),
{
    let n = s.unicode_len();
    let m = pat.unicode_len();
    let mut out = String::new();
    let mut i: usize = 0;
    assert(s@.skip(0) =~= s@);
    while i < n
        invariant
            n == s@.len(),
            m == pat@.len(),
            m > 0,
            i <= n,
            replace_all(s@, pat@, rep@) == out@ + replace_all(s@.skip(i as int), pat@, rep@),
        decreases n - i,
    {
        let ghost rest = s@.skip(i as int);
        let ghost before = out@;
        if matches_at(s, i, pat) {
            out.append(rep);
            proof {
                assert(rest.skip(m as int) =~= s@.skip(i + m));
                assert(replace_all(rest, pat@, rep@) == rep@ + replace_all(s@.skip(i + m), pat@, rep@));
                assert(before + (rep@ + replace_all(s@.skip(i + m), pat@, rep@)) =~= out@ + replace_all(
                    s@.skip(i + m),
                    pat@,
                    rep@,
                ));
            }
            i = i + m;
        } else {
            let c = s.substring_char(i, i + 1);
            out.append(c);
            proof {
                assert(c@ =~= seq![rest[0]]);
                assert(rest.drop_first() =~= s@.skip(i + 1));
                assert(replace_all(rest, pat@, rep@) == seq![rest[0]] + replace_all(s@.skip(i + 1), pat@, rep@));
                assert(before + (seq![rest[0]] + replace_all(s@.skip(i + 1), pat@, rep@)) =~= out@ + replace_all(
                    s@.skip(i + 1),
                    pat@,
                    rep@,
                ));
            }
            i = i + 1;
        }
    }
    proof {
        assert(s@.skip(i as int) =~= Seq::<char>::empty());
        assert(out@ + replace_all(s@.skip(i as int), pat@, rep@) =~= out@);
    }
    out
}

/// The live-channel address for a backend address: "http://" becomes
/// "ws://" and "https://" becomes "wss://" (everywhere in the address, as
/// `str::replace` does), and an address with neither scheme gets "ws://"
/// in front.
pub open spec fn websocket_address(base: Seq<char>) -> Seq<char> {
    if has_prefix(base, "http://"@) {
        replace_all(base, "http://"@, "ws://"@)
    } else if has_prefix(base, "https://"@) {
        replace_all(base, "https://"@, "wss://"@)
    } else {
        "ws://"@ + base
    }
}

/// The live-channel address for a backend address.
pub fn websocket_url(base_url: &str) -> (r: String)
    ensures
        r@ == websocket_address(base_url@),
{
    proof {
        reveal_strlit("http://");
        reveal_strlit("https://");
    }
    assert(base_url@.skip(0) =~= base_url@);
    if matches_at(base_url, 0, "http://") {
        replace_all_str(base_url, "http://", "ws://")
    } else if matches_at(base_url, 0, "https://") {
        replace_all_str(base_url, "https://", "wss://")
    } else {
        let mut s = owned("ws://");
        s.append(base_url);
        s
    }
}

/// What the live channel's task sees next.
#[derive(Debug, Clone, Copy, PartialEq, Eq, Structural)]
pub enum SocketEvent {
    /// The application handed over a message to send; `disconnect` tells
    /// whether it is the request to close the channel.
    Outgoing { disconnect: bool },
    /// A text frame arrived: `None` when it is not a server message, else
    /// whether it reports a failed authentication.
    Text(Option<bool>),
    /// The server closed the channel.
    Close,
    /// The server pinged.
    Ping,
    /// Any other frame.
    OtherFrame,
    /// Reading from the channel failed.
    ReadError,
    /// Both the outgoing queue and the channel have ended.
    Exhausted,
}

/// What the live channel's task does about an event.
#[derive(Debug, Clone, Copy, PartialEq, Eq, Structural)]
pub enum SocketAction {
    /// Send the outgoing message, as JSON text.
    Send,
    /// Hand the server message to the application.
    Deliver,
    /// Drop what arrived.
    Ignore,
    /// Answer the ping with a pong carrying its data.
    Pong,
    /// End the task (and with it the connection).
    Stop,
}

/// The action for an event: a disconnect request, a failed authentication,
/// a close, a read error or the end of both streams stops the task; other
/// outgoing messages are sent; server messages are handed on, and text
/// that is not one is dropped; a ping is answered; other frames are dropped.
pub open spec fn socket_action(event: SocketEvent) -> SocketAction {
    match event {
        SocketEvent::Outgoing { disconnect } => if disconnect {
            SocketAction::Stop
        } else {
            SocketAction::Send
        },
        SocketEvent::Text(parsed) => match parsed {
            None => SocketAction::Ignore,
            Some(failed_authentication) => if failed_authentication {
                SocketAction::Stop
            } else {
                SocketAction::Deliver
            },
        },
        SocketEvent::Close => SocketAction::Stop,
        SocketEvent::Ping => SocketAction::Pong,
        SocketEvent::OtherFrame => SocketAction::Ignore,
        SocketEvent::ReadError => SocketAction::Stop,
        SocketEvent::Exhausted => SocketAction::Stop,
    }
}

/// One decision of the live channel's task; the task that runs the
/// connection performs the action and feeds back the next event.
pub fn socket_step(event: SocketEvent) -> (r: SocketAction)
    ensures
        r == socket_action(event),
{
    match event {
        SocketEvent::Outgoing { disconnect } => if disconnect {
            SocketAction::Stop
        } else {
            SocketAction::Send
        },
        SocketEvent::Text(parsed) => match parsed {
            None => SocketAction::Ignore,
            Some(failed_authentication) => if failed_authentication {
                SocketAction::Stop
            } else {
                SocketAction::Deliver
            },
        },
        SocketEvent::Close => SocketAction::Stop,
        SocketEvent::Ping => SocketAction::Pong,
        SocketEvent::OtherFrame => SocketAction::Ignore,
        SocketEvent::ReadError => SocketAction::Stop,
        SocketEvent::Exhausted => SocketAction::Stop,
    }
}

} // verus!
