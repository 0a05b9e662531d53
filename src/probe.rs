//! One probe: its definition, how a poll's outcome is judged, and the
//! debounce state machine that turns poll outcomes into confirmed
//! transitions.
use vstd::prelude::*;

verus! {

/// A confirmed transition of a probe: emitted only when a streak of
/// identical poll outcomes reaches its threshold.
#[derive(Clone, Copy, Debug, PartialEq, Eq, Structural)]
pub enum Status {
    Success,
    Failure,
}

/// Length of the streak of `v` at the end of `polls`.
pub open spec fn streak(polls: Seq<bool>, v: bool) -> nat
    decreases polls.len(),
{
    if polls.len() == 0 {
        0
    } else if polls.last() == v {
        streak(polls.drop_last(), v) + 1
    } else {
        0
    }
}

/// What the latest poll of `polls` emits, under the given thresholds.
pub open spec fn emitted(polls: Seq<bool>, success_threshold: nat, failure_threshold: nat) -> Option<Status> {
    if polls.len() == 0 {
        None
    } else if streak(polls, true) == success_threshold {
        Some(Status::Success)
    } else if streak(polls, false) == failure_threshold {
        Some(Status::Failure)
    } else {
        None
    }
}

pub open spec fn min_nat(a: nat, b: nat) -> nat {
    if a <= b { a } else { b }
}

/// `k` outcomes, all `v`.
pub open spec fn repeat(v: bool, k: nat) -> Seq<bool> {
    Seq::new(k, |_i: int| v)
}

/// No two neighbouring outcomes are the same.
pub open spec fn alternating(polls: Seq<bool>) -> bool {
    forall|i: int| 0 <= i < polls.len() - 1 ==> #[trigger] polls[i] != polls[i + 1]
}

proof fn lemma_streak_of_repeat(h: Seq<bool>, v: bool, k: nat)
    requires
        h.len() == 0 || h.last() != v,
    ensures
        streak(h + repeat(v, k), v) == k,
        k >= 1 ==> streak(h + repeat(v, k), !v) == 0,
    decreases k,
{
    let p = h + repeat(v, k);
    if k == 0 {
        assert(p =~= h);
        if h.len() > 0 {
            assert(streak(h, v) == 0);
        }
    } else {
        assert(p.drop_last() =~= h + repeat(v, (k - 1) as nat));
        lemma_streak_of_repeat(h, v, (k - 1) as nat);
    }
}

proof fn lemma_streak_alternating(polls: Seq<bool>, v: bool)
    requires
        alternating(polls),
    ensures
        streak(polls, v) <= 1,
    decreases polls.len(),
{
    reveal_with_fuel(streak, 2);
    if polls.len() > 1 {
        let pre = polls.drop_last();
        assert forall|i: int| 0 <= i < pre.len() - 1 implies #[trigger] pre[i] != pre[i + 1] by {
            assert(polls[i] != polls[i + 1]);
        }
        lemma_streak_alternating(pre, v);
        assert(polls[polls.len() - 2] != polls[polls.len() - 1]);
    }
}

/// With both thresholds at one, a poll whose outcome differs from the one
/// before it (or the first poll) confirms that outcome at once.
pub proof fn lemma_single_poll_decides(polls: Seq<bool>, ok: bool)
    requires
        polls.len() == 0 || polls.last() != ok,
    ensures
        emitted(polls.push(ok), 1, 1) == Some(if ok { Status::Success } else { Status::Failure }),
{
    reveal_with_fuel(streak, 2);
    let p = polls.push(ok);
    assert(p.drop_last() =~= polls);
}

/// After a differing outcome (or none), a streak of `k` identical outcomes
/// emits exactly when `k` reaches that outcome's threshold: fewer stay
/// silent, the threshold-th emits, and longer streaks stay silent again.
pub proof fn lemma_streak_reaches_threshold(
    h: Seq<bool>,
    v: bool,
    k: nat,
    success_threshold: nat,
    failure_threshold: nat,
)
    requires
        success_threshold >= 1,
        failure_threshold >= 1,
        k >= 1,
        h.len() == 0 || h.last() != v,
    ensures
        emitted(h + repeat(v, k), success_threshold, failure_threshold) == (if v {
            if k == success_threshold { Some(Status::Success) } else { None }
        } else {
            if k == failure_threshold { Some(Status::Failure) } else { None }
        }),
{
    lemma_streak_of_repeat(h, v, k);
}

/// With both thresholds above one, outcomes that keep alternating never
/// emit, however long they go on.
pub proof fn lemma_alternating_never_emits(polls: Seq<bool>, success_threshold: nat, failure_threshold: nat)
    requires
        success_threshold > 1,
        failure_threshold > 1,
        alternating(polls),
    ensures
        forall|n: int| 0 <= n <= polls.len() ==> #[trigger] emitted(polls.take(n), success_threshold, failure_threshold) is None,
{
    assert forall|n: int| 0 <= n <= polls.len() implies #[trigger] emitted(
        polls.take(n),
        success_threshold,
        failure_threshold,
    ) is None by {
        let pre = polls.take(n);
        assert forall|i: int| 0 <= i < pre.len() - 1 implies #[trigger] pre[i] != pre[i + 1] by {
            assert(polls[i] != polls[i + 1]);
        }
        lemma_streak_alternating(pre, true);
        lemma_streak_alternating(pre, false);
    }
}

/// The debounce state of one running watcher.
///
/// `success` and `failure` hold the current streaks, capped at their
/// thresholds: past the threshold a streak's exact length no longer matters,
/// since a transition fires only when a streak reaches it.
pub struct Watch {
    /// Next poll time, in milliseconds on the caller's monotonic clock.
    pub deadline: u64,
    pub success: usize,
    pub failure: usize,
    /// The outcomes of all polls made so far, oldest first.
    pub polls: Ghost<Seq<bool>>,
}

impl Watch {
    /// The counters agree with the poll history under these thresholds.
    pub open spec fn inv(&self, success_threshold: usize, failure_threshold: usize) -> bool {
        &&& self.success as nat == min_nat(streak(self.polls@, true), success_threshold as nat)
        &&& self.failure as nat == min_nat(streak(self.polls@, false), failure_threshold as nat)
    }

    /// A fresh watcher whose first poll is due `initial_delay` after `now`.
    pub fn start(now: u64, initial_delay: u64) -> (w: Watch)
        ensures
            w.deadline as int == min_nat((now + initial_delay) as nat, u64::MAX as nat),
            w.polls@ == Seq::<bool>::empty(),
            w.success == 0,
            w.failure == 0,
    {
        Watch { deadline: now.saturating_add(initial_delay), success: 0, failure: 0, polls: Ghost(Seq::empty()) }
    }

    /// Moves the deadline on by exactly one period; called when a poll is
    /// started, so that slow polls cause no drift.
    pub fn advance(&mut self, period: u64)
        ensures
            final(self).deadline as int == min_nat((old(self).deadline + period) as nat, u64::MAX as nat),
            final(self).success == old(self).success,
            final(self).failure == old(self).failure,
            final(self).polls == old(self).polls,
    {
        self.deadline = self.deadline.saturating_add(period);
    }

    /// Records the outcome of one poll and returns the transition it
    /// confirms, if any.
    pub fn record(&mut self, success_threshold: usize, failure_threshold: usize, ok: bool) -> (r: Option<Status>)
        requires
            success_threshold >= 1,
            failure_threshold >= 1,
            old(self).inv(success_threshold, failure_threshold),
        ensures
            final(self).polls@ == old(self).polls@.push(ok),
            final(self).inv(success_threshold, failure_threshold),
            final(self).deadline == old(self).deadline,
            r == emitted(final(self).polls@, success_threshold as nat, failure_threshold as nat),
    {
        let ghost h = self.polls@.push(ok);
        assert(h.drop_last() =~= self.polls@);
        let reached: bool;
        if ok {
            reached = self.success == success_threshold - 1;
            if self.success < success_threshold {
                self.success = self.success + 1;
            }
            self.failure = 0;
        } else {
            reached = self.failure == failure_threshold - 1;
            if self.failure < failure_threshold {
                self.failure = self.failure + 1;
            }
            self.success = 0;
        }
        self.polls = Ghost(h);
        if reached {
            if ok {
                Some(Status::Success)
            } else {
                Some(Status::Failure)
            }
        } else {
            None
        }
    }
}


/// How one poll of a probe is made.
#[derive(Clone, Debug)]
pub enum Method {
    /// Run `program` with `args`; the poll succeeds on exit code 0.
    Exec { program: String, args: Vec<String> },
    /// Send a GET request; the poll succeeds on a 2xx status.
    HttpGet { uri: http::Uri, headers: http::HeaderMap },
}

/// A probe definition. Durations are in milliseconds.
#[derive(Clone, Debug)]
pub struct Probe {
    pub method: Method,
    pub initial_delay: u64,
    pub period: u64,
    pub timeout: u64,
    pub success_threshold: usize,
    pub failure_threshold: usize,
}

impl Probe {
    /// Both thresholds are at least one.
    pub open spec fn wf(&self) -> bool {
        self.success_threshold >= 1 && self.failure_threshold >= 1
    }

    /// A fresh watcher for this probe, started at time `now`: its first
    /// poll is due `initial_delay` later.
    pub fn watch(&self, now: u64) -> (w: Watch)
        ensures
            w.deadline as int == min_nat((now + self.initial_delay) as nat, u64::MAX as nat),
            w.polls@ == Seq::<bool>::empty(),
            w.inv(self.success_threshold, self.failure_threshold),
    {
        Watch::start(now, self.initial_delay)
    }
}


/// How one attempt at a poll ended.
#[derive(Clone, Copy, Debug, PartialEq, Eq, Structural)]
pub enum Attempt {
    /// The program ran to its end: its exit code, or `None` where a signal
    /// ended it.
    Exited { code: Option<i32> },
    /// The server answered with this HTTP status.
    Responded { status: u16 },
    /// The program could not be started, or the request failed.
    Failed,
    /// The attempt did not end within the probe's timeout.
    TimedOut,
}

impl Attempt {
    /// Whether the poll succeeded: an exit code of 0, or a 2xx status.
    pub open spec fn ok(self) -> bool {
        match self {
            Attempt::Exited { code } => code == Some(0i32),
            Attempt::Responded { status } => 200 <= status && status < 300,
            _ => false,
        }
    }

    pub fn succeeded(&self) -> (r: bool)
        ensures
            r == self.ok(),
    {
        match self {
            Attempt::Exited { code } => match code {
                Some(c) => *c == 0,
                None => false,
            },
            Attempt::Responded { status } => 200 <= *status && *status < 300,
            _ => false,
        }
    }
}

impl Watch {
    /// Records how one poll of `probe` ended and returns the transition it
    /// confirms, if any.
    pub fn poll(&mut self, probe: &Probe, attempt: Attempt) -> (r: Option<Status>)
        requires
            probe.wf(),
            old(self).inv(probe.success_threshold, probe.failure_threshold),
        ensures
            final(self).polls@ == old(self).polls@.push(attempt.ok()),
            final(self).inv(probe.success_threshold, probe.failure_threshold),
            final(self).deadline == old(self).deadline,
            r == emitted(final(self).polls@, probe.success_threshold as nat, probe.failure_threshold as nat),
    {
        let ok = attempt.succeeded();
        self.record(probe.success_threshold, probe.failure_threshold, ok)
    }
}

} // verus!
