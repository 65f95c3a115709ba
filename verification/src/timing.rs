//! Response-time measurement: a stopwatch with marks and splits, a per-task
//! timer, a per-session timer with pauses, and percentile statistics. Every
//! span is in nanoseconds unless its name says otherwise; the clock itself
//! is read through `crate::clock`, and each `_at` function takes the reading
//! as an argument.

use vstd::prelude::*;
use vstd::relations::{sorted_by, total_ordering};
use std::time::Instant;
use crate::clock::{elapsed_nanos, instant_now, MAX_DURATION_NS};
use crate::text::{owned, str_eq};

verus! {

broadcast use vstd::seq_lib::group_to_multiset_ensures;

/// The order of response times: ascending.
pub open spec fn ascending() -> spec_fn(u128, u128) -> bool {
    |a: u128, b: u128| a <= b
}

/// `s` in ascending order.
pub open spec fn sorted_times(s: Seq<u128>) -> Seq<u128> {
    s.sort_by(ascending())
}

proof fn lemma_ascending_total()
    ensures
        total_ordering(ascending()),
{
}

/// The sorted order of `s` is sorted and holds the same values.
pub proof fn lemma_sorted_times(s: Seq<u128>)
    ensures
        sorted_by(sorted_times(s), ascending()),
        sorted_times(s).to_multiset() == s.to_multiset(),
        sorted_times(s).len() == s.len(),
{
    lemma_ascending_total();
    s.lemma_sort_by_ensures(ascending());
    assert(sorted_times(s).to_multiset().len() == sorted_times(s).len());
    assert(s.to_multiset().len() == s.len());
}

/// Two ascending sequences with the same values are equal.
proof fn lemma_sorted_unique(a: Seq<u128>, b: Seq<u128>)
    requires
        sorted_by(a, ascending()),
        sorted_by(b, ascending()),
        a.to_multiset() == b.to_multiset(),
    ensures
        a == b,
    decreases a.len(),
{
    if a.len() == 0 {
        assert(a.to_multiset().len() == a.len());
        assert(b.to_multiset().len() == b.len());
        assert(b.len() == 0);
        assert(a =~= b);
    } else {
        assert(a.to_multiset().len() == a.len());
        assert(b.to_multiset().len() == b.len());
        assert(b.len() == a.len());
        assert(a.to_multiset().count(a[0]) > 0);
        assert(b.to_multiset().count(b[0]) > 0);
        assert(b.contains(a[0]));
        assert(a.contains(b[0]));
        let i = choose|i: int| 0 <= i < b.len() && b[i] == a[0];
        let j = choose|j: int| 0 <= j < a.len() && a[j] == b[0];
        if i > 0 {
            assert(ascending()(b[0], b[i]));
        }
        if j > 0 {
            assert(ascending()(a[0], a[j]));
        }
        assert(a[0] == b[0]);
        let a1 = a.drop_first();
        let b1 = b.drop_first();
        assert(a1.to_multiset() == a.to_multiset().remove(a[0])) by {
            assert(a.remove(0) =~= a1);
        }
        assert(b1.to_multiset() == b.to_multiset().remove(b[0])) by {
            assert(b.remove(0) =~= b1);
        }
        assert forall|x: int, y: int| 0 <= x < y < a1.len() implies #[trigger] ascending()(a1[x], a1[y]) by {
            assert(ascending()(a[x + 1], a[y + 1]));
        }
        assert forall|x: int, y: int| 0 <= x < y < b1.len() implies #[trigger] ascending()(b1[x], b1[y]) by {
            assert(ascending()(b[x + 1], b[y + 1]));
        }
        lemma_sorted_unique(a1, b1);
        assert(a =~= b) by {
            assert forall|k: int| 0 <= k < a.len() implies a[k] == b[k] by {
                if k > 0 {
                    assert(a[k] == a1[k - 1] && b[k] == b1[k - 1]);
                }
            }
        }
    }
}

/// The values of `times` in ascending order (an insertion sort).
pub fn sort_times(times: &[u128]) -> (r: Vec<u128>)
    ensures
        r@ == sorted_times(times@),
{
    let mut out: Vec<u128> = Vec::new();
    let mut i: usize = 0;
    while i < times.len()
        invariant
            i <= times@.len(),
            sorted_by(out@, ascending()),
            out@.to_multiset() == times@.take(i as int).to_multiset(),
        decreases times@.len() - i,
    {
        let x = times[i];
        let mut pos: usize = 0;
        while pos < out.len() && out[pos] <= x
            invariant
                pos <= out@.len(),
                forall|k: int| 0 <= k < pos ==> out@[k] <= x,
            decreases out@.len() - pos,
        {
            pos = pos + 1;
        }
        let ghost before = out@;
        proof {
            assert forall|k: int| pos <= k < before.len() implies x < #[trigger] before[k] by {
                if pos < before.len() {
                    assert(x < before[pos as int]);
                    if k > pos {
                        assert(ascending()(before[pos as int], before[k]));
                    }
                }
            }
        }
        out.insert(pos, x);
        proof {
            vstd::seq_lib::to_multiset_insert(before, pos as int, x);
            assert(times@.take(i + 1) =~= times@.take(i as int).push(x));
            assert forall|a: int, b: int| 0 <= a < b < out@.len() implies #[trigger] ascending()(out@[a], out@[b]) by {
                if b < pos {
                    assert(ascending()(before[a], before[b]));
                } else if b == pos {
                    assert(out@[a] == before[a]);
                } else if a < pos {
                    assert(out@[b] == before[b - 1]);
                    if a < b - 1 {
                        assert(ascending()(before[a], before[b - 1]));
                    }
                } else if a == pos {
                    assert(out@[b] == before[b - 1]);
                } else {
                    assert(ascending()(before[a - 1], before[b - 1]));
                }
            }
        }
        i = i + 1;
    }
    proof {
        assert(times@.take(i as int) =~= times@);
        lemma_sorted_times(times@);
        lemma_sorted_unique(out@, sorted_times(times@));
    }
    out
}


/// The first entry of `s` labelled `label`.
pub open spec fn find_label(s: Seq<(String, u128)>, label: Seq<char>) -> Option<int>
    decreases s.len(),
{
    if s.len() == 0 {
        None
    } else {
        match find_label(s.drop_last(), label) {
            Some(i) => Some(i),
            None => if s.last().0@ == label { Some(s.len() - 1) } else { None },
        }
    }
}

proof fn lemma_find_label(s: Seq<(String, u128)>, label: Seq<char>)
    ensures
        find_label(s, label) matches Some(i) ==> 0 <= i < s.len() && s[i].0@ == label && forall|j: int|
            0 <= j < i ==> s[j].0@ != label,
        find_label(s, label) is None ==> forall|j: int| 0 <= j < s.len() ==> s[j].0@ != label,
    decreases s.len(),
{
    if s.len() > 0 {
        lemma_find_label(s.drop_last(), label);
        assert forall|j: int| 0 <= j < s.len() - 1 implies s.drop_last()[j] == s[j] by {}
    }
}

proof fn lemma_find_label_first(s: Seq<(String, u128)>, label: Seq<char>, i: int)
    requires
        0 <= i < s.len(),
        s[i].0@ == label,
        forall|j: int| 0 <= j < i ==> s[j].0@ != label,
    ensures
        find_label(s, label) == Some(i),
    decreases s.len(),
{
    lemma_find_label(s, label);
    if i < s.len() - 1 {
        lemma_find_label_first(s.drop_last(), label, i);
    } else {
        lemma_find_label(s.drop_last(), label);
        assert forall|j: int| 0 <= j < s.len() - 1 implies s.drop_last()[j] == s[j] by {}
    }
}

/// The position of the first entry of `s` labelled `label`.
fn label_position(s: &Vec<(String, u128)>, label: &str) -> (r: Option<usize>)
    ensures
        r matches Some(i) ==> find_label(s@, label@) == Some(i as int),
        r is None ==> find_label(s@, label@) is None,
{
    let mut i: usize = 0;
    while i < s.len()
        invariant
            i <= s@.len(),
            forall|j: int| 0 <= j < i ==> s@[j].0@ != label@,
        decreases s@.len() - i,
    {
        if str_eq(s[i].0.as_str(), label) {
            proof {
                lemma_find_label_first(s@, label@, i as int);
            }
            return Some(i);
        }
        i = i + 1;
    }
    proof {
        lemma_find_label(s@, label@);
        if find_label(s@, label@) is Some {
            let k = find_label(s@, label@)->Some_0;
            assert(s@[k].0@ == label@);
        }
    }
    None
}

/// The time from the first mark labelled `from` to the first labelled `to`,
/// when both exist and the second is later.
pub open spec fn mark_delta(marks: Seq<(String, u128)>, from: Seq<char>, to: Seq<char>) -> Option<u128> {
    match (find_label(marks, from), find_label(marks, to)) {
        (Some(i), Some(j)) => if marks[j].1 > marks[i].1 { Some((marks[j].1 - marks[i].1) as u128) } else { None },
        _ => None,
    }
}

/// A span of `ns` nanoseconds in whole milliseconds.
pub open spec fn ns_to_ms(ns: u128) -> u128 {
    ns / 1_000_000
}

/// A span of `ns` nanoseconds in whole microseconds.
pub open spec fn ns_to_us(ns: u128) -> u128 {
    ns / 1_000
}

/// A span of `ns` nanoseconds in whole milliseconds.
pub fn millis_of_nanos(ns: u128) -> (r: u128)
    ensures
        r == ns_to_ms(ns),
{
    ns / 1_000_000
}

/// A span of `ns` nanoseconds in whole microseconds.
pub fn micros_of_nanos(ns: u128) -> (r: u128)
    ensures
        r == ns_to_us(ns),
{
    ns / 1_000
}

/// A stopwatch with labelled marks (kept in order) and labelled splits
/// (one per label).
#[derive(Debug)]
pub struct PrecisionTimer {
    pub start: Instant,
    pub marks: Vec<(String, u128)>,
    pub splits: Vec<(String, u128)>,
}

impl PrecisionTimer {
    /// Each split label occurs once.
    pub open spec fn wf(&self) -> bool {
        forall|a: int, b: int| 0 <= a < b < self.splits@.len() ==> self.splits@[a].0@ != self.splits@[b].0@
    }

    /// A stopwatch started now, with no marks or splits.
    pub fn new() -> (r: Self)
        ensures
            r.wf(),
            r.marks@.len() == 0,
            r.splits@.len() == 0,
    {
        PrecisionTimer { start: instant_now(), marks: Vec::new(), splits: Vec::new() }
    }

    /// Restarts the stopwatch now and forgets the marks and splits.
    pub fn reset(&mut self)
        ensures
            final(self).wf(),
            final(self).marks@.len() == 0,
            final(self).splits@.len() == 0,
    {
        self.start = instant_now();
        self.marks.clear();
        self.splits.clear();
    }

    /// Records a mark at `elapsed` after the start.
    pub fn mark_at(&mut self, label: &str, elapsed: u128)
        ensures
            final(self).marks@.len() == old(self).marks@.len() + 1,
            final(self).marks@.drop_last() == old(self).marks@,
            final(self).marks@.last().0@ == label@,
            final(self).marks@.last().1 == elapsed,
            final(self).splits == old(self).splits,
            final(self).start == old(self).start,
    {
        self.marks.push((owned(label), elapsed));
        assert(self.marks@.drop_last() =~= old(self).marks@);
    }

    /// Records a mark now.
    pub fn mark(&mut self, label: &str)
        ensures
            final(self).marks@.len() == old(self).marks@.len() + 1,
            final(self).marks@.drop_last() == old(self).marks@,
            final(self).marks@.last().0@ == label@,
            final(self).marks@.last().1 <= MAX_DURATION_NS,
            final(self).splits == old(self).splits,
            final(self).start == old(self).start,
    {
        let elapsed = elapsed_nanos(&self.start);
        self.mark_at(label, elapsed);
    }

    /// Records the split `label` at `elapsed` after the start, replacing an
    /// earlier split of that label, and returns it.
    pub fn split_at(&mut self, label: &str, elapsed: u128) -> (r: u128)
        requires
            old(self).wf(),
        ensures
            r == elapsed,
            final(self).wf(),
            match find_label(old(self).splits@, label@) {
                Some(i) => final(self).splits@ == old(self).splits@.update(i, (old(self).splits@[i].0, elapsed)),
                None => final(self).splits@.len() == old(self).splits@.len() + 1 && final(self).splits@.drop_last()
                    == old(self).splits@ && final(self).splits@.last().0@ == label@ && final(self).splits@.last().1
                    == elapsed,
            },
            final(self).marks == old(self).marks,
            final(self).start == old(self).start,
    {
        proof {
            lemma_find_label(self.splits@, label@);
        }
        match label_position(&self.splits, label) {
            Some(i) => {
                let key = self.splits[i].0.clone();
                self.splits.set(i, (key, elapsed));
            },
            None => {
                self.splits.push((owned(label), elapsed));
                assert(self.splits@.drop_last() =~= old(self).splits@);
            },
        }
        elapsed
    }

    /// Records the split `label` now and returns it.
    pub fn split(&mut self, label: &str) -> (r: u128)
        requires
            old(self).wf(),
        ensures
            r <= MAX_DURATION_NS,
            final(self).wf(),
            match find_label(old(self).splits@, label@) {
                Some(i) => final(self).splits@ == old(self).splits@.update(i, (old(self).splits@[i].0, r)),
                None => final(self).splits@.len() == old(self).splits@.len() + 1 && final(self).splits@.drop_last()
                    == old(self).splits@ && final(self).splits@.last().0@ == label@ && final(self).splits@.last().1 == r,
            },
            final(self).marks == old(self).marks,
            final(self).start == old(self).start,
    {
        let elapsed = elapsed_nanos(&self.start);
        self.split_at(label, elapsed)
    }

    /// The time since the start.
    pub fn get_elapsed(&self) -> (r: u128)
        ensures
            r <= MAX_DURATION_NS,
    {
        elapsed_nanos(&self.start)
    }

    /// The time since the start, in whole milliseconds.
    pub fn get_elapsed_ms(&self) -> (r: u128)
        ensures
            r <= MAX_DURATION_NS / 1_000_000,
            exists|ns: u128| ns <= MAX_DURATION_NS && r == #[trigger] ns_to_ms(ns),
    {
        let ns = elapsed_nanos(&self.start);
        millis_of_nanos(ns)
    }

    /// The time since the start, in whole microseconds.
    pub fn get_elapsed_micros(&self) -> (r: u128)
        ensures
            r <= MAX_DURATION_NS / 1_000,
            exists|ns: u128| ns <= MAX_DURATION_NS && r == #[trigger] ns_to_us(ns),
    {
        let ns = elapsed_nanos(&self.start);
        micros_of_nanos(ns)
    }

    /// The time since the start, in nanoseconds.
    pub fn get_elapsed_nanos(&self) -> (r: u128)
        ensures
            r <= MAX_DURATION_NS,
    {
        elapsed_nanos(&self.start)
    }

    /// The split recorded under `label`.
    pub fn get_split(&self, label: &str) -> (r: Option<u128>)
        ensures
            r == match find_label(self.splits@, label@) {
                Some(i) => Some(self.splits@[i].1),
                None => None::<u128>,
            },
    {
        proof {
            lemma_find_label(self.splits@, label@);
        }
        match label_position(&self.splits, label) {
            Some(i) => Some(self.splits[i].1),
            None => None,
        }
    }

    /// All marks, oldest first.
    pub fn get_marks(&self) -> (r: &[(String, u128)])
        ensures
            r@ == self.marks@,
    {
        self.marks.as_slice()
    }

    /// The latest mark.
    pub fn get_last_mark(&self) -> (r: Option<&(String, u128)>)
        ensures
            self.marks@.len() == 0 ==> r is None,
            self.marks@.len() > 0 ==> r == Some(&self.marks@.last()),
    {
        let n = self.marks.len();
        if n == 0 {
            None
        } else {
            Some(&self.marks[n - 1])
        }
    }

    /// The time between the first marks labelled `from` and `to`, when the
    /// second is later.
    pub fn get_mark_delta(&self, from: &str, to: &str) -> (r: Option<u128>)
        ensures
            r == mark_delta(self.marks@, from@, to@),
    {
        let i = match label_position(&self.marks, from) {
            Some(i) => i,
            None => return None,
        };
        let j = match label_position(&self.marks, to) {
            Some(j) => j,
            None => return None,
        };
        proof {
            lemma_find_label(self.marks@, from@);
            lemma_find_label(self.marks@, to@);
        }
        let from_time = self.marks[i].1;
        let to_time = self.marks[j].1;
        if to_time > from_time {
            Some(to_time - from_time)
        } else {
            None
        }
    }
}

impl Default for PrecisionTimer {
    fn default() -> (r: Self)
        ensures
            r.wf(),
            r.marks@.len() == 0,
            r.splits@.len() == 0,
    {
        PrecisionTimer::new()
    }
}

/// The timing of one finished task, in milliseconds and microseconds.
#[derive(Debug, Clone, Copy, PartialEq, Eq, Structural)]
pub struct TaskTimingResult {
    pub total_time_ms: u128,
    pub total_time_micros: u128,
    pub first_input_delay_ms: Option<u128>,
    pub hint_requested_delay_ms: Option<u128>,
}

/// A span in milliseconds.
pub open spec fn ms_of(ns: Option<u128>) -> Option<u128> {
    match ns {
        Some(d) => Some(d / 1_000_000),
        None => None,
    }
}

/// A timer for one task: when it started, when the learner first answered
/// and when a hint was first requested.
#[derive(Debug)]
pub struct TaskTimer {
    pub timer: PrecisionTimer,
    pub task_started: bool,
    pub first_input_time: Option<u128>,
    pub hint_requested_time: Option<u128>,
}

impl TaskTimer {
    /// A timer with no task running.
    pub fn new() -> (r: Self)
        ensures
            r.timer.wf(),
            !r.task_started,
            r.first_input_time is None,
            r.hint_requested_time is None,
    {
        TaskTimer { timer: PrecisionTimer::new(), task_started: false, first_input_time: None, hint_requested_time: None }
    }

    /// Starts timing a task now.
    pub fn start_task(&mut self)
        ensures
            final(self).timer.wf(),
            final(self).timer.marks@.len() == 0,
            final(self).timer.splits@.len() == 0,
            final(self).task_started,
            final(self).first_input_time is None,
            final(self).hint_requested_time is None,
    {
        self.timer.reset();
        self.task_started = true;
        self.first_input_time = None;
        self.hint_requested_time = None;
    }

    /// Records the first input at `elapsed` into the running task; later
    /// inputs, and inputs with no task running, change nothing.
    pub fn mark_first_input_at(&mut self, elapsed: u128)
        ensures
            final(self).first_input_time == if old(self).task_started && old(self).first_input_time is None {
                Some(elapsed)
            } else {
                old(self).first_input_time
            },
            final(self).hint_requested_time == old(self).hint_requested_time,
            final(self).task_started == old(self).task_started,
            final(self).timer == old(self).timer,
    {
        if self.task_started && self.first_input_time.is_none() {
            self.first_input_time = Some(elapsed);
        }
    }

    /// Records the first input now.
    pub fn mark_first_input(&mut self)
        ensures
            old(self).task_started && old(self).first_input_time is None ==> (final(self).first_input_time matches Some(
                t,
            ) && t <= MAX_DURATION_NS),
            !(old(self).task_started && old(self).first_input_time is None) ==> final(self).first_input_time == old(
                self,
            ).first_input_time,
            final(self).hint_requested_time == old(self).hint_requested_time,
            final(self).task_started == old(self).task_started,
            final(self).timer == old(self).timer,
    {
        let elapsed = self.timer.get_elapsed();
        self.mark_first_input_at(elapsed);
    }

    /// Records the first hint request at `elapsed` into the running task.
    pub fn mark_hint_requested_at(&mut self, elapsed: u128)
        ensures
            final(self).hint_requested_time == if old(self).task_started && old(self).hint_requested_time is None {
                Some(elapsed)
            } else {
                old(self).hint_requested_time
            },
            final(self).first_input_time == old(self).first_input_time,
            final(self).task_started == old(self).task_started,
            final(self).timer == old(self).timer,
    {
        if self.task_started && self.hint_requested_time.is_none() {
            self.hint_requested_time = Some(elapsed);
        }
    }

    /// Records the first hint request now.
    pub fn mark_hint_requested(&mut self)
        ensures
            old(self).task_started && old(self).hint_requested_time is None ==> (final(self).hint_requested_time matches Some(
                t,
            ) && t <= MAX_DURATION_NS),
            !(old(self).task_started && old(self).hint_requested_time is None) ==> final(self).hint_requested_time
                == old(self).hint_requested_time,
            final(self).first_input_time == old(self).first_input_time,
            final(self).task_started == old(self).task_started,
            final(self).timer == old(self).timer,
    {
        let elapsed = self.timer.get_elapsed();
        self.mark_hint_requested_at(elapsed);
    }

    /// The time since the task started, in whole milliseconds.
    pub fn get_response_time_ms(&self) -> (r: u128)
        ensures
            r <= MAX_DURATION_NS / 1_000_000,
            exists|ns: u128| ns <= MAX_DURATION_NS && r == #[trigger] ns_to_ms(ns),
    {
        self.timer.get_elapsed_ms()
    }

    /// The time since the task started, in whole microseconds.
    pub fn get_response_time_micros(&self) -> (r: u128)
        ensures
            r <= MAX_DURATION_NS / 1_000,
            exists|ns: u128| ns <= MAX_DURATION_NS && r == #[trigger] ns_to_us(ns),
    {
        self.timer.get_elapsed_micros()
    }

    /// The delay before the first input, in whole milliseconds.
    pub fn get_first_input_delay_ms(&self) -> (r: Option<u128>)
        ensures
            r == ms_of(self.first_input_time),
    {
        match self.first_input_time {
            Some(d) => Some(d / 1_000_000),
            None => None,
        }
    }

    /// The delay before the first hint request, in whole milliseconds.
    pub fn get_hint_delay_ms(&self) -> (r: Option<u128>)
        ensures
            r == ms_of(self.hint_requested_time),
    {
        match self.hint_requested_time {
            Some(d) => Some(d / 1_000_000),
            None => None,
        }
    }

    /// Ends the task `elapsed` after it started and reports its timing.
    pub fn stop_task_at(&mut self, elapsed: u128) -> (r: TaskTimingResult)
        ensures
            r == (TaskTimingResult {
                total_time_ms: elapsed / 1_000_000,
                total_time_micros: elapsed / 1_000,
                first_input_delay_ms: ms_of(old(self).first_input_time),
                hint_requested_delay_ms: ms_of(old(self).hint_requested_time),
            }),
            !final(self).task_started,
            final(self).first_input_time == old(self).first_input_time,
            final(self).hint_requested_time == old(self).hint_requested_time,
            final(self).timer == old(self).timer,
    {
        let result = TaskTimingResult {
            total_time_ms: elapsed / 1_000_000,
            total_time_micros: elapsed / 1_000,
            first_input_delay_ms: self.get_first_input_delay_ms(),
            hint_requested_delay_ms: self.get_hint_delay_ms(),
        };
        self.task_started = false;
        result
    }

    /// Ends the task now and reports its timing.
    pub fn stop_task(&mut self) -> (r: TaskTimingResult)
        ensures
            exists|elapsed: u128|
                elapsed <= MAX_DURATION_NS && r == #[trigger] task_result(
                    elapsed,
                    old(self).first_input_time,
                    old(self).hint_requested_time,
                ),
            !final(self).task_started,
            final(self).first_input_time == old(self).first_input_time,
            final(self).hint_requested_time == old(self).hint_requested_time,
            final(self).timer == old(self).timer,
    {
        let elapsed = self.timer.get_elapsed();
        let r = self.stop_task_at(elapsed);
        assert(r == task_result(elapsed, old(self).first_input_time, old(self).hint_requested_time));
        r
    }
}

/// The pause total after adding a pause of `paused_for`, held at the
/// longest span a `Duration` holds.
pub open spec fn capped_pause_total(total: u128, paused_for: u128) -> u128 {
    if total <= MAX_DURATION_NS && paused_for <= MAX_DURATION_NS - total {
        (total + paused_for) as u128
    } else if total < MAX_DURATION_NS {
        MAX_DURATION_NS
    } else {
        total
    }
}

/// The session time outside pauses, from a reading `total` of the session
/// clock, the finished pauses `paused` and a reading `current` of the running
/// pause; zero where the readings leave less session time than pause time.
pub open spec fn active_of(total: u128, paused: u128, current: u128) -> u128 {
    if total >= paused + current {
        (total - paused - current) as u128
    } else {
        0
    }
}

/// The report of a task that ran for `elapsed` nanoseconds.
pub open spec fn task_result(elapsed: u128, first_input: Option<u128>, hint: Option<u128>) -> TaskTimingResult {
    TaskTimingResult {
        total_time_ms: elapsed / 1_000_000,
        total_time_micros: elapsed / 1_000,
        first_input_delay_ms: ms_of(first_input),
        hint_requested_delay_ms: ms_of(hint),
    }
}

impl Default for TaskTimer {
    fn default() -> (r: Self)
        ensures
            r.timer.wf(),
            !r.task_started,
            r.first_input_time is None,
            r.hint_requested_time is None,
    {
        TaskTimer::new()
    }
}

/// The total times of a list of task results, in milliseconds.
pub open spec fn response_times(tasks: Seq<TaskTimingResult>) -> Seq<u128> {
    tasks.map_values(|t: TaskTimingResult| t.total_time_ms)
}

/// The median of an ascending sequence: the middle value, or the mean of
/// the two middle values (rounded down) for an even count.
pub open spec fn median_of(s: Seq<u128>) -> Option<u128> {
    if s.len() == 0 {
        None
    } else {
        let mid = (s.len() / 2) as int;
        if s.len() % 2 == 0 {
            Some(((s[mid - 1] + s[mid]) / 2) as u128)
        } else {
            Some(s[mid])
        }
    }
}

/// The two middle values of an ascending sequence of even length add up
/// without overflow.
pub open spec fn median_fits(s: Seq<u128>) -> bool {
    s.len() > 0 && s.len() % 2 == 0 ==> s[s.len() / 2 - 1] + s[(s.len() / 2) as int] <= u128::MAX
}

/// The timing of a whole session.
#[derive(Debug)]
pub struct SessionTimingResult {
    pub total_time_ms: u128,
    pub active_time_ms: u128,
    pub pause_time_ms: u128,
    pub task_count: usize,
    pub median_response_time_ms: Option<u128>,
    pub task_results: Vec<TaskTimingResult>,
}

/// A call on a session timer that touches its list of task results.
#[derive(Debug)]
pub enum SessionOp {
    /// `start_session`.
    Start,
    /// `add_task_result` with this result.
    AddResult(TaskTimingResult),
    /// `pause`.
    Pause,
    /// `resume`.
    Resume,
}

/// The task results after `op`.
pub open spec fn tasks_after_op(tasks: Seq<TaskTimingResult>, op: SessionOp) -> Seq<TaskTimingResult> {
    match op {
        SessionOp::Start => Seq::empty(),
        SessionOp::AddResult(r) => tasks.push(r),
        SessionOp::Pause => tasks,
        SessionOp::Resume => tasks,
    }
}

/// The task results after the calls `ops`, in order.
pub open spec fn tasks_after(tasks: Seq<TaskTimingResult>, ops: Seq<SessionOp>) -> Seq<TaskTimingResult>
    decreases ops.len(),
{
    if ops.len() == 0 {
        tasks
    } else {
        tasks_after_op(tasks_after(tasks, ops.drop_last()), ops.last())
    }
}

/// How many results were added by `ops` since the last start among them,
/// counting on from `before` when none of them is a start.
pub open spec fn results_added(ops: Seq<SessionOp>, before: nat) -> nat
    decreases ops.len(),
{
    if ops.len() == 0 {
        before
    } else {
        let earlier = results_added(ops.drop_last(), before);
        match ops.last() {
            SessionOp::Start => 0,
            SessionOp::AddResult(_) => earlier + 1,
            _ => earlier,
        }
    }
}

/// The task count of a session is the number of results added since the
/// session last started (since the timer was made, which holds none, when
/// it never started); pauses and resumes do not change it.
pub proof fn lemma_task_count_counts_results(tasks: Seq<TaskTimingResult>, ops: Seq<SessionOp>)
    ensures
        tasks_after(tasks, ops).len() == results_added(ops, tasks.len()),
    decreases ops.len(),
{
    if ops.len() > 0 {
        lemma_task_count_counts_results(tasks, ops.drop_last());
    }
}

/// A timer for a learning session: its tasks' results and its pauses.
#[derive(Debug)]
pub struct SessionTimer {
    pub timer: PrecisionTimer,
    pub task_timers: Vec<TaskTimingResult>,
    pub pause_start: Option<Instant>,
    /// The time spent in finished pauses.
    pub total_pause_duration: u128,
    pub session_started: bool,
}

impl SessionTimer {
    /// A timer with no session running.
    pub fn new() -> (r: Self)
        ensures
            r.timer.wf(),
            r.task_timers@.len() == 0,
            r.pause_start is None,
            r.total_pause_duration == 0,
            !r.session_started,
    {
        SessionTimer {
            timer: PrecisionTimer::new(),
            task_timers: Vec::new(),
            pause_start: None,
            total_pause_duration: 0,
            session_started: false,
        }
    }

    /// Starts a session now, forgetting earlier tasks and pauses.
    pub fn start_session(&mut self)
        ensures
            final(self).timer.wf(),
            final(self).task_timers@.len() == 0,
            final(self).task_timers@ == tasks_after_op(old(self).task_timers@, SessionOp::Start),
            final(self).pause_start is None,
            final(self).total_pause_duration == 0,
            final(self).session_started,
    {
        self.timer.reset();
        self.task_timers.clear();
        self.pause_start = None;
        self.total_pause_duration = 0;
        self.session_started = true;
    }

    /// Records the result of a finished task.
    pub fn add_task_result(&mut self, result: TaskTimingResult)
        ensures
            final(self).task_timers@ == old(self).task_timers@.push(result),
            final(self).task_timers@ == tasks_after_op(old(self).task_timers@, SessionOp::AddResult(result)),
            final(self).pause_start == old(self).pause_start,
            final(self).total_pause_duration == old(self).total_pause_duration,
            final(self).session_started == old(self).session_started,
    {
        self.task_timers.push(result);
    }

    /// Starts a pause now, when a session runs and no pause does.
    pub fn pause(&mut self)
        ensures
            old(self).session_started && old(self).pause_start is None ==> final(self).pause_start is Some,
            !(old(self).session_started && old(self).pause_start is None) ==> final(self).pause_start == old(
                self,
            ).pause_start,
            final(self).total_pause_duration == old(self).total_pause_duration,
            final(self).session_started == old(self).session_started,
            final(self).task_timers == old(self).task_timers,
            final(self).task_timers@ == tasks_after_op(old(self).task_timers@, SessionOp::Pause),
            final(self).timer == old(self).timer,
    {
        if self.session_started && self.pause_start.is_none() {
            self.pause_start = Some(instant_now());
        }
    }

    /// Ends the running pause, which lasted `paused_for`.
    pub fn resume_at(&mut self, paused_for: u128)
        requires
            old(self).pause_start is Some ==> old(self).total_pause_duration + paused_for <= MAX_DURATION_NS,
        ensures
            final(self).pause_start is None,
            final(self).total_pause_duration == if old(self).pause_start is Some {
                old(self).total_pause_duration + paused_for
            } else {
                old(self).total_pause_duration as int
            },
            final(self).session_started == old(self).session_started,
            final(self).task_timers == old(self).task_timers,
    {
        if let Some(_pause_start) = self.pause_start.take() {
            self.total_pause_duration = self.total_pause_duration + paused_for;
        }
    }

    /// Ends the running pause now. A pause total beyond what a `Duration`
    /// holds (where the standard library would panic) is capped at that
    /// limit.
    pub fn resume(&mut self)
        ensures
            final(self).pause_start is None,
            old(self).pause_start is None ==> final(self).total_pause_duration == old(self).total_pause_duration,
            old(self).pause_start is Some ==> exists|paused_for: u128|
                paused_for <= MAX_DURATION_NS && final(self).total_pause_duration == #[trigger] capped_pause_total(
                    old(self).total_pause_duration,
                    paused_for,
                ),
            old(self).total_pause_duration <= MAX_DURATION_NS ==> final(self).total_pause_duration <= MAX_DURATION_NS,
            final(self).session_started == old(self).session_started,
            final(self).task_timers == old(self).task_timers,
            final(self).task_timers@ == tasks_after_op(old(self).task_timers@, SessionOp::Resume),
            final(self).timer == old(self).timer,
    {
        if let Some(pause_start) = self.pause_start.take() {
            let paused_for = elapsed_nanos(&pause_start);
            let ghost before = self.total_pause_duration;
            if self.total_pause_duration <= MAX_DURATION_NS && paused_for <= MAX_DURATION_NS
                - self.total_pause_duration {
                self.total_pause_duration = self.total_pause_duration + paused_for;
            } else if self.total_pause_duration < MAX_DURATION_NS {
                self.total_pause_duration = MAX_DURATION_NS;
            }
            assert(self.total_pause_duration == capped_pause_total(before, paused_for));
        }
    }

    /// The session time outside pauses, from a reading `total` of the
    /// session clock and `current_pause` of the running pause.
    pub fn active_time_at(&self, total: u128, current_pause: u128) -> (r: u128)
        requires
            total >= self.total_pause_duration + current_pause,
        ensures
            r == total - self.total_pause_duration - current_pause,
    {
        total - self.total_pause_duration - current_pause
    }

    /// The time of the running pause so far, or nothing.
    fn current_pause(&self) -> (r: u128)
        ensures
            self.pause_start is None ==> r == 0,
            r <= MAX_DURATION_NS,
    {
        match &self.pause_start {
            Some(p) => elapsed_nanos(p),
            None => 0,
        }
    }

    /// The session time outside pauses, read now. Where the clock readings
    /// would leave less session time than pause time (and the standard
    /// library would panic), it is zero.
    pub fn get_active_time(&self) -> (r: u128)
        ensures
            r <= MAX_DURATION_NS,
            exists|total: u128, current: u128|
                total <= MAX_DURATION_NS && current <= MAX_DURATION_NS && (self.pause_start is None ==> current == 0)
                    && r == #[trigger] active_of(total, self.total_pause_duration, current),
    {
        let total = self.timer.get_elapsed();
        let current = self.current_pause();
        let r = if self.total_pause_duration <= total && current <= total - self.total_pause_duration {
            self.active_time_at(total, current)
        } else {
            0
        };
        assert(r == active_of(total, self.total_pause_duration, current));
        r
    }

    /// The session time outside pauses, in whole milliseconds.
    pub fn get_active_time_ms(&self) -> (r: u128)
        ensures
            r <= MAX_DURATION_NS / 1_000_000,
            exists|total: u128, current: u128|
                total <= MAX_DURATION_NS && current <= MAX_DURATION_NS && (self.pause_start is None ==> current == 0)
                    && r == #[trigger] active_of(total, self.total_pause_duration, current) / 1_000_000,
    {
        millis_of_nanos(self.get_active_time())
    }

    /// The session time, in whole milliseconds.
    pub fn get_total_time_ms(&self) -> (r: u128)
        ensures
            r <= MAX_DURATION_NS / 1_000_000,
            exists|ns: u128| ns <= MAX_DURATION_NS && r == #[trigger] ns_to_ms(ns),
    {
        self.timer.get_elapsed_ms()
    }

    /// The time spent in pauses, the running one included, in whole
    /// milliseconds.
    pub fn get_pause_time_ms(&self) -> (r: u128)
        requires
            self.total_pause_duration <= u128::MAX - MAX_DURATION_NS,
        ensures
            self.pause_start is None ==> r == self.total_pause_duration / 1_000_000,
            r >= self.total_pause_duration / 1_000_000,
            exists|current: u128|
                current <= MAX_DURATION_NS && (self.pause_start is None ==> current == 0) && r == #[trigger] ns_to_ms(
                    (self.total_pause_duration + current) as u128,
                ),
    {
        let current = self.current_pause();
        millis_of_nanos(self.total_pause_duration + current)
    }

    /// The median task time in milliseconds; nothing when no task finished.
    pub fn get_median_response_time_ms(&self) -> (r: Option<u128>)
        requires
            median_fits(sorted_times(response_times(self.task_timers@))),
        ensures
            r == median_of(sorted_times(response_times(self.task_timers@))),
    {
        let ghost times_spec = response_times(self.task_timers@);
        proof {
            lemma_sorted_times(times_spec);
        }
        if self.task_timers.len() == 0 {
            return None;
        }
        let mut times: Vec<u128> = Vec::new();
        let mut i: usize = 0;
        while i < self.task_timers.len()
            invariant
                i <= self.task_timers@.len(),
                times@ == response_times(self.task_timers@.take(i as int)),
            decreases self.task_timers@.len() - i,
        {
            times.push(self.task_timers[i].total_time_ms);
            i = i + 1;
            assert(times@ =~= response_times(self.task_timers@.take(i as int)));
        }
        assert(self.task_timers@.take(i as int) =~= self.task_timers@);
        let sorted = sort_times(times.as_slice());
        let n = sorted.len();
        let mid = n / 2;
        if n % 2 == 0 {
            Some((sorted[mid - 1] + sorted[mid]) / 2)
        } else {
            Some(sorted[mid])
        }
    }

    /// The number of finished tasks.
    pub fn get_task_count(&self) -> (r: usize)
        ensures
            r == self.task_timers@.len(),
    {
        self.task_timers.len()
    }

    /// The timing of the session so far.
    pub fn stop_session(&mut self) -> (r: SessionTimingResult)
        requires
            old(self).total_pause_duration <= u128::MAX - MAX_DURATION_NS,
            median_fits(sorted_times(response_times(old(self).task_timers@))),
        ensures
            r.task_count == old(self).task_timers@.len(),
            r.median_response_time_ms == median_of(sorted_times(response_times(old(self).task_timers@))),
            r.task_results@ == old(self).task_timers@,
            r.total_time_ms <= MAX_DURATION_NS / 1_000_000,
            r.active_time_ms <= MAX_DURATION_NS / 1_000_000,
            r.pause_time_ms >= old(self).total_pause_duration / 1_000_000,
            *final(self) == *old(self),
    {
        SessionTimingResult {
            total_time_ms: self.get_total_time_ms(),
            active_time_ms: self.get_active_time_ms(),
            pause_time_ms: self.get_pause_time_ms(),
            task_count: self.task_timers.len(),
            median_response_time_ms: self.get_median_response_time_ms(),
            task_results: self.task_timers.clone(),
        }
    }
}

impl Default for SessionTimer {
    fn default() -> (r: Self)
        ensures
            r.timer.wf(),
            r.task_timers@.len() == 0,
            r.pause_start is None,
            r.total_pause_duration == 0,
            !r.session_started,
    {
        SessionTimer::new()
    }
}

/// Percentiles of a set of reaction times.
#[derive(Debug, Clone, Copy, PartialEq, Eq, Structural)]
pub struct PercentileResult {
    pub min: u128,
    pub p25: u128,
    pub p50: u128,
    pub p75: u128,
    pub p90: u128,
    pub p95: u128,
    pub p99: u128,
    pub max: u128,
}

impl Default for PercentileResult {
    fn default() -> (r: Self)
        ensures
            r == (PercentileResult { min: 0, p25: 0, p50: 0, p75: 0, p90: 0, p95: 0, p99: 0, max: 0 }),
    {
        PercentileResult { min: 0, p25: 0, p50: 0, p75: 0, p90: 0, p95: 0, p99: 0, max: 0 }
    }
}

/// The percentiles of an ascending sequence: for `n` values, the value at
/// position ⌊n·q⌋ for each quantile q, the first as minimum and the last as
/// maximum; all zero for no values.
pub open spec fn percentiles_of(s: Seq<u128>) -> PercentileResult {
    let n = s.len() as int;
    if n == 0 {
        PercentileResult { min: 0, p25: 0, p50: 0, p75: 0, p90: 0, p95: 0, p99: 0, max: 0 }
    } else {
        PercentileResult {
            min: s[0],
            p25: s[n / 4],
            p50: s[n / 2],
            p75: s[(3 * n) / 4],
            p90: s[(9 * n) / 10],
            p95: s[(19 * n) / 20],
            p99: s[(99 * n) / 100],
            max: s[n - 1],
        }
    }
}

/// The percentiles of a set of reaction times.
pub fn calculate_reaction_time_percentiles(times: &[u128]) -> (r: PercentileResult)
    requires
        99 * times@.len() <= usize::MAX,
    ensures
        r == percentiles_of(sorted_times(times@)),
{
    proof {
        lemma_sorted_times(times@);
    }
    if times.len() == 0 {
        return PercentileResult::default();
    }
    let sorted = sort_times(times);
    let len = sorted.len();
    let p25_idx = len / 4;
    let p50_idx = len / 2;
    let p75_idx = (3 * len) / 4;
    let p90_idx = (9 * len) / 10;
    let p95_idx = (19 * len) / 20;
    let p99_idx = (99 * len) / 100;
    PercentileResult {
        min: sorted[0],
        p25: sorted[p25_idx],
        p50: sorted[p50_idx],
        p75: sorted[p75_idx],
        p90: if p90_idx < len { sorted[p90_idx] } else { sorted[len - 1] },
        p95: if p95_idx < len { sorted[p95_idx] } else { sorted[len - 1] },
        p99: if p99_idx < len { sorted[p99_idx] } else { sorted[len - 1] },
        max: sorted[len - 1],
    }
}

/// The percentiles of any set of reaction times come in order: the minimum,
/// then p25, p50, p75, p90, p95 and p99, then the maximum.
pub proof fn lemma_percentiles_ordered(times: Seq<u128>)
    ensures
        ({
            let r = percentiles_of(sorted_times(times));
            r.min <= r.p25 <= r.p50 <= r.p75 <= r.p90 <= r.p95 <= r.p99 <= r.max
        }),
{
    lemma_sorted_times(times);
    let s = sorted_times(times);
    let n = s.len() as int;
    if n > 0 {
        assert(0 <= n / 4 <= n / 2 <= (3 * n) / 4 <= (9 * n) / 10 <= (19 * n) / 20 <= (99 * n) / 100 < n)
            by (nonlinear_arith)
            requires
                n > 0,
        ;
        assert(ascending()(s[0], s[n / 4]) || n / 4 == 0);
        assert(ascending()(s[n / 4], s[n / 2]) || n / 4 == n / 2);
        assert(ascending()(s[n / 2], s[(3 * n) / 4]) || n / 2 == (3 * n) / 4);
        assert(ascending()(s[(3 * n) / 4], s[(9 * n) / 10]) || (3 * n) / 4 == (9 * n) / 10);
        assert(ascending()(s[(9 * n) / 10], s[(19 * n) / 20]) || (9 * n) / 10 == (19 * n) / 20);
        assert(ascending()(s[(19 * n) / 20], s[(99 * n) / 100]) || (19 * n) / 20 == (99 * n) / 100);
        assert(ascending()(s[(99 * n) / 100], s[n - 1]) || (99 * n) / 100 == n - 1);
    }
}

/// The minimum and the maximum of any non-empty set of reaction times are
/// its smallest and its largest time, and every percentile is one of the
/// times.
pub proof fn lemma_percentiles_are_times(times: Seq<u128>)
    requires
        times.len() > 0,
    ensures
        ({
            let r = percentiles_of(sorted_times(times));
            &&& times.contains(r.min)
            &&& times.contains(r.p25)
            &&& times.contains(r.p50)
            &&& times.contains(r.p75)
            &&& times.contains(r.p90)
            &&& times.contains(r.p95)
            &&& times.contains(r.p99)
            &&& times.contains(r.max)
            &&& forall|i: int| 0 <= i < times.len() ==> r.min <= #[trigger] times[i] <= r.max
        }),
{
    lemma_sorted_times(times);
    let s = sorted_times(times);
    let n = s.len() as int;
    assert(0 <= n / 4 <= n / 2 <= (3 * n) / 4 <= (9 * n) / 10 <= (19 * n) / 20 <= (99 * n) / 100 < n)
        by (nonlinear_arith)
        requires
            n > 0,
    ;
    assert forall|k: int| 0 <= k < n implies times.contains(#[trigger] s[k]) by {
        assert(s.to_multiset().count(s[k]) > 0);
    }
    assert(times.contains(s[n / 4]));
    assert(times.contains(s[n / 2]));
    assert(times.contains(s[(3 * n) / 4]));
    assert(times.contains(s[(9 * n) / 10]));
    assert(times.contains(s[(19 * n) / 20]));
    assert(times.contains(s[(99 * n) / 100]));
    assert(times.contains(s[n - 1]));
    assert(times.contains(s[0]));
    assert forall|i: int| 0 <= i < times.len() implies s[0] <= #[trigger] times[i] <= s[n - 1] by {
        assert(times.to_multiset().count(times[i]) > 0);
        assert(s.contains(times[i]));
        let j = choose|j: int| 0 <= j < s.len() && s[j] == times[i];
        if j > 0 {
            assert(ascending()(s[0], s[j]));
        }
        if j < n - 1 {
            assert(ascending()(s[j], s[n - 1]));
        }
    }
}

/// The percentiles do not depend on the order in which the times come:
/// two lists holding the same times give the same percentiles.
pub proof fn lemma_percentiles_ignore_order(a: Seq<u128>, b: Seq<u128>)
    requires
        a.to_multiset() == b.to_multiset(),
    ensures
        percentiles_of(sorted_times(a)) == percentiles_of(sorted_times(b)),
{
    lemma_sorted_times(a);
    lemma_sorted_times(b);
    lemma_sorted_unique(sorted_times(a), sorted_times(b));
}

/// The median of a session's times lies between its two middle times: in
/// the ascending order of the times, every time in the lower half (the
/// middle one included, for an odd count) is at most the median and every
/// time from the middle on is at least it. For an even count it is the mean
/// of the two middle times, rounded down.
pub proof fn lemma_median_between_middles(times: Seq<u128>)
    requires
        times.len() > 0,
    ensures
        ({
            let s = sorted_times(times);
            let n = times.len() as int;
            &&& median_of(s) is Some
            &&& forall|i: int| 0 <= i < (n + 1) / 2 ==> s[i] <= median_of(s)->Some_0
            &&& forall|i: int| n / 2 <= i < n ==> median_of(s)->Some_0 <= s[i]
            &&& n % 2 == 0 ==> median_of(s)->Some_0 == (s[n / 2 - 1] + s[n / 2]) / 2
        }),
{
    lemma_sorted_times(times);
    let s = sorted_times(times);
    let n = times.len() as int;
    let m = median_of(s)->Some_0;
    assert forall|i: int| 0 <= i < (n + 1) / 2 implies s[i] <= m by {
        let j = if n % 2 == 0 { n / 2 - 1 } else { n / 2 };
        if i < j {
            assert(ascending()(s[i], s[j]));
        }
        if n % 2 == 0 {
            assert(ascending()(s[n / 2 - 1], s[n / 2]));
        }
    }
    assert forall|i: int| n / 2 <= i < n implies m <= s[i] by {
        if i > n / 2 {
            assert(ascending()(s[n / 2], s[i]));
        }
        if n % 2 == 0 {
            assert(ascending()(s[n / 2 - 1], s[n / 2]));
        }
    }
}

/// The median does not depend on the extremes: in an ascending list of
/// three or more times, raising the largest time (so that it stays the
/// largest) or lowering the smallest (so that it stays the smallest) leaves
/// the median as it was.
pub proof fn lemma_median_ignores_extremes(s: Seq<u128>, high: u128, low: u128)
    requires
        sorted_by(s, ascending()),
        s.len() >= 3,
        high >= s[s.len() - 1],
        low <= s[0],
    ensures
        median_of(s.update(s.len() - 1, high)) == median_of(s),
        median_of(s.update(0, low)) == median_of(s),
{
    let n = s.len() as int;
    assert(n / 2 < n - 1 && (n % 2 == 0 ==> n / 2 - 1 > 0) && (n % 2 == 1 ==> n / 2 > 0));
}

/// Where each percentile stands among the times: in their ascending
/// order, the q-th percentile has the first ⌊n·q⌋ + 1 times at or below it
/// and the times from position ⌊n·q⌋ on at or above it (for q of 25, 50,
/// 75, 90, 95 and 99 percent).
pub proof fn lemma_percentile_positions(times: Seq<u128>)
    requires
        times.len() > 0,
    ensures
        ({
            let s = sorted_times(times);
            let n = times.len() as int;
            let r = percentiles_of(s);
            &&& forall|i: int| 0 <= i <= n / 4 ==> s[i] <= r.p25
            &&& forall|i: int| n / 4 <= i < n ==> r.p25 <= s[i]
            &&& forall|i: int| 0 <= i <= n / 2 ==> s[i] <= r.p50
            &&& forall|i: int| n / 2 <= i < n ==> r.p50 <= s[i]
            &&& forall|i: int| 0 <= i <= (3 * n) / 4 ==> s[i] <= r.p75
            &&& forall|i: int| (3 * n) / 4 <= i < n ==> r.p75 <= s[i]
            &&& forall|i: int| 0 <= i <= (9 * n) / 10 ==> s[i] <= r.p90
            &&& forall|i: int| (9 * n) / 10 <= i < n ==> r.p90 <= s[i]
            &&& forall|i: int| 0 <= i <= (19 * n) / 20 ==> s[i] <= r.p95
            &&& forall|i: int| (19 * n) / 20 <= i < n ==> r.p95 <= s[i]
            &&& forall|i: int| 0 <= i <= (99 * n) / 100 ==> s[i] <= r.p99
            &&& forall|i: int| (99 * n) / 100 <= i < n ==> r.p99 <= s[i]
        }),
{
    lemma_sorted_times(times);
    let s = sorted_times(times);
    let n = times.len() as int;
    assert(0 <= n / 4 <= n / 2 <= (3 * n) / 4 <= (9 * n) / 10 <= (19 * n) / 20 <= (99 * n) / 100 < n)
        by (nonlinear_arith)
        requires
            n > 0,
    ;
    assert forall|i: int, j: int| 0 <= i <= j < n implies s[i] <= s[j] by {
        if i < j {
            assert(ascending()(s[i], s[j]));
        }
    }
}

} // verus!
