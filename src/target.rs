//! One monitored target: its probes, its two health flags, and the state
//! machine that holds back the liveness and readiness branches until the
//! startup probe succeeds. Also the aggregation of all targets' flags.
use vstd::prelude::*;
use crate::probe::{emitted, lemma_single_poll_decides, Probe, Status};

verus! {

/// The health flags of one target.
#[derive(Clone, Copy, Debug, PartialEq, Eq, Structural)]
pub struct TargetStatus {
    pub live: bool,
    pub ready: bool,
}

impl Default for TargetStatus {
    /// Live, and not yet ready.
    fn default() -> (r: TargetStatus)
        ensures
            r.live,
            !r.ready,
    {
        TargetStatus { live: true, ready: false }
    }
}

/// A monitored target, with up to one probe of each kind.
#[derive(Clone, Debug)]
pub struct Target {
    pub name: String,
    pub startup: Option<Probe>,
    pub liveness: Option<Probe>,
    pub readiness: Option<Probe>,
}

/// The three kinds of probe a target may have.
#[derive(Clone, Copy, Debug, PartialEq, Eq, Structural)]
pub enum Kind {
    Startup,
    Liveness,
    Readiness,
}

/// Where the orchestration of one target stands.
///
/// `startup`, `liveness` and `readiness` say which probes are configured;
/// `started` says whether the startup probe has succeeded (or there is none).
#[derive(Clone, Copy, Debug, PartialEq, Eq, Structural)]
pub struct Orchestration {
    pub startup: bool,
    pub liveness: bool,
    pub readiness: bool,
    pub started: bool,
    pub status: TargetStatus,
}

impl Orchestration {
    /// The state in which a target with the given probes starts: without a
    /// startup probe it is started at once, and without a readiness probe
    /// the target is then ready.
    pub open spec fn initial(startup: bool, liveness: bool, readiness: bool) -> Orchestration {
        Orchestration {
            startup,
            liveness,
            readiness,
            started: !startup,
            status: TargetStatus { live: true, ready: !startup && !readiness },
        }
    }

    pub open spec fn wf(self) -> bool {
        &&& !self.startup ==> self.started
        &&& !self.started ==> self.status.live && !self.status.ready
        &&& !self.liveness ==> self.status.live
        &&& !self.readiness && self.started ==> self.status.ready
    }

    /// Whether the watcher of this kind is being consumed: the startup one
    /// until the target is started; the liveness one after that, until its first
    /// failure; the readiness one after it, for good.
    pub open spec fn consumes(self, kind: Kind) -> bool {
        match kind {
            Kind::Startup => !self.started,
            Kind::Liveness => self.started && self.liveness && self.status.live,
            Kind::Readiness => self.started && self.readiness,
        }
    }

    /// The state after the watcher of `kind` emits `s`.
    pub open spec fn step(self, kind: Kind, s: Status) -> Orchestration {
        if !self.consumes(kind) {
            self
        } else {
            match kind {
                Kind::Startup => if s == Status::Success {
                    Orchestration {
                        started: true,
                        status: TargetStatus {
                            live: self.status.live,
                            ready: self.status.ready || !self.readiness,
                        },
                        ..self
                    }
                } else {
                    self
                },
                Kind::Liveness => if s == Status::Failure {
                    Orchestration { status: TargetStatus { live: false, ready: self.status.ready }, ..self }
                } else {
                    self
                },
                Kind::Readiness => Orchestration {
                    status: TargetStatus { live: self.status.live, ready: s == Status::Success },
                    ..self
                },
            }
        }
    }

    /// The state after a sequence of emissions, oldest first.
    pub open spec fn run(self, events: Seq<(Kind, Status)>) -> Orchestration
        decreases events.len(),
    {
        if events.len() == 0 {
            self
        } else {
            self.run(events.drop_last()).step(events.last().0, events.last().1)
        }
    }

    /// The starting state of a target.
    pub fn new(target: &Target) -> (o: Orchestration)
        ensures
            o == Orchestration::initial(
                target.startup is Some,
                target.liveness is Some,
                target.readiness is Some,
            ),
            o.wf(),
    {
        let startup = target.startup.is_some();
        let readiness = target.readiness.is_some();
        Orchestration {
            startup,
            liveness: target.liveness.is_some(),
            readiness,
            started: !startup,
            status: TargetStatus { live: true, ready: !startup && !readiness },
        }
    }

    /// Whether the watcher of `kind` is to be consumed now.
    pub fn wants(&self, kind: Kind) -> (r: bool)
        ensures
            r == self.consumes(kind),
    {
        match kind {
            Kind::Startup => !self.started,
            Kind::Liveness => self.started && self.liveness && self.status.live,
            Kind::Readiness => self.started && self.readiness,
        }
    }

    /// Takes in an emission of the watcher of `kind`. Emissions of a watcher
    /// that is not being consumed change nothing.
    pub fn on_event(&mut self, kind: Kind, s: Status)
        requires
            old(self).wf(),
        ensures
            *final(self) == old(self).step(kind, s),
            final(self).wf(),
    {
        if self.wants(kind) {
            match kind {
                Kind::Startup => {
                    if s == Status::Success {
                        self.started = true;
                        if !self.readiness {
                            self.status.ready = true;
                        }
                    }
                },
                Kind::Liveness => {
                    if s == Status::Failure {
                        self.status.live = false;
                    }
                },
                Kind::Readiness => {
                    self.status.ready = s == Status::Success;
                },
            }
        }
    }
}

/// Every target is live.
pub open spec fn all_live(s: Seq<TargetStatus>) -> bool {
    forall|i: int| 0 <= i < s.len() ==> #[trigger] s[i].live
}

/// Every target is ready.
pub open spec fn all_ready(s: Seq<TargetStatus>) -> bool {
    forall|i: int| 0 <= i < s.len() ==> #[trigger] s[i].ready
}

/// Whole-service liveness: the conjunction of the targets' live flags.
pub fn overall_live(statuses: &[TargetStatus]) -> (r: bool)
    ensures
        r == all_live(statuses@),
{
    let mut i: usize = 0;
    while i < statuses.len()
        invariant
            i <= statuses@.len(),
            forall|j: int| 0 <= j < i ==> #[trigger] statuses@[j].live,
        decreases statuses@.len() - i,
    {
        if !statuses[i].live {
            return false;
        }
        i = i + 1;
    }
    true
}

/// Whole-service readiness: the conjunction of the targets' ready flags.
pub fn overall_ready(statuses: &[TargetStatus]) -> (r: bool)
    ensures
        r == all_ready(statuses@),
{
    let mut i: usize = 0;
    while i < statuses.len()
        invariant
            i <= statuses@.len(),
            forall|j: int| 0 <= j < i ==> #[trigger] statuses@[j].ready,
        decreases statuses@.len() - i,
    {
        if !statuses[i].ready {
            return false;
        }
        i = i + 1;
    }
    true
}

/// The HTTP status of the liveness endpoint: 200 when every target is live,
/// else 500.
pub fn liveness_code(statuses: &[TargetStatus]) -> (r: u16)
    ensures
        r == (if all_live(statuses@) { 200u16 } else { 500u16 }),
{
    if overall_live(statuses) { 200 } else { 500 }
}

/// The HTTP status of the readiness endpoint: 200 when every target is
/// ready, else 503.
pub fn readiness_code(statuses: &[TargetStatus]) -> (r: u16)
    ensures
        r == (if all_ready(statuses@) { 200u16 } else { 503u16 }),
{
    if overall_ready(statuses) { 200 } else { 503 }
}

/// One target that is not live makes the whole service not live, and one
/// that is not ready makes it not ready, whatever the other targets say.
pub proof fn lemma_one_target_decides(s: Seq<TargetStatus>, i: int)
    requires
        0 <= i < s.len(),
    ensures
        !s[i].live ==> !all_live(s),
        !s[i].ready ==> !all_ready(s),
{
}

/// With both thresholds at one, the first poll after a differing outcome
/// moves the flags at once: a failing liveness poll makes the target not
/// live, and a readiness poll makes it ready exactly when it succeeds.
pub proof fn lemma_single_poll_flips(o: Orchestration, polls: Seq<bool>, ok: bool)
    requires
        o.wf(),
        o.started,
        polls.len() == 0 || polls.last() != ok,
    ensures
        o.readiness ==> o.step(Kind::Readiness, emitted(polls.push(ok), 1, 1)->Some_0).status.ready == ok,
        o.liveness && !ok ==> !o.step(Kind::Liveness, emitted(polls.push(ok), 1, 1)->Some_0).status.live,
{
    lemma_single_poll_decides(polls, ok);
}

/// Every emission keeps a well-formed state well-formed, keeps which probes
/// are configured, and never undoes the start.
pub proof fn lemma_run_wf(o: Orchestration, events: Seq<(Kind, Status)>)
    requires
        o.wf(),
    ensures
        o.run(events).wf(),
        o.run(events).startup == o.startup,
        o.run(events).liveness == o.liveness,
        o.run(events).readiness == o.readiness,
        o.started ==> o.run(events).started,
    decreases events.len(),
{
    if events.len() > 0 {
        lemma_run_wf(o, events.drop_last());
    }
}

/// Liveness never recovers: once a target is not live, no emission of any
/// watcher makes it live again.
pub proof fn lemma_liveness_never_recovers(o: Orchestration, events: Seq<(Kind, Status)>)
    requires
        !o.status.live,
    ensures
        !o.run(events).status.live,
    decreases events.len(),
{
    if events.len() > 0 {
        lemma_liveness_never_recovers(o, events.drop_last());
    }
}

/// Readiness is reversible and follows the readiness watcher in order: once
/// the target is started, each readiness emission leaves it ready exactly
/// when it is a success.
pub proof fn lemma_readiness_follows(o: Orchestration, events: Seq<(Kind, Status)>)
    requires
        o.wf(),
        o.readiness,
        o.started,
    ensures
        forall|i: int|
            0 <= i < events.len() && (#[trigger] events[i]).0 == Kind::Readiness ==> o.run(
                events.take(i + 1),
            ).status.ready == (events[i].1 == Status::Success),
{
    assert forall|i: int|
        0 <= i < events.len() && (#[trigger] events[i]).0 == Kind::Readiness implies o.run(
            events.take(i + 1),
        ).status.ready == (events[i].1 == Status::Success) by {
        let pre = events.take(i + 1);
        assert(pre.drop_last() =~= events.take(i));
        assert(pre.last() == events[i]);
        lemma_run_wf(o, events.take(i));
    }
}

/// A probe kind that is not configured holds its default for good: without
/// a liveness probe the target stays live, and without a readiness probe it
/// is ready from its start on, whatever is emitted.
pub proof fn lemma_unconfigured_defaults(o: Orchestration, events: Seq<(Kind, Status)>)
    requires
        o.wf(),
    ensures
        !o.liveness ==> o.run(events).status.live,
        !o.readiness && o.run(events).started ==> o.run(events).status.ready,
        !o.startup && !o.readiness ==> o.run(events).status.ready,
{
    lemma_run_wf(o, events);
}

/// Startup comes first: until the startup watcher emits a success,
/// nothing that is emitted changes the state, so the target stays live and
/// not ready.
pub proof fn lemma_startup_first(o: Orchestration, events: Seq<(Kind, Status)>)
    requires
        o.wf(),
        !o.started,
        forall|i: int| 0 <= i < events.len() ==> #[trigger] events[i] != (Kind::Startup, Status::Success),
    ensures
        o.run(events) == o,
        o.run(events).status.live,
        !o.run(events).status.ready,
    decreases events.len(),
{
    if events.len() > 0 {
        let pre = events.drop_last();
        assert forall|i: int| 0 <= i < pre.len() implies #[trigger] pre[i] != (Kind::Startup, Status::Success) by {
            assert(pre[i] == events[i]);
        }
        lemma_startup_first(o, pre);
        assert(events.last() == events[events.len() - 1]);
    }
}

} // verus!
