//! The order retry engine: the two dependent phases of a purchase, build
//! (reserve an order) and submit (commit it), each with its own bounded
//! retry budget and jittered backoff.
//!
//! The engine is a state machine. The caller performs the action it hands
//! out (call the gateway, sleep), then reports what happened as an event
//! and receives the next action, until the action is `Finish`.

use crate::jitter::{jitter_high, jitter_low, jittered_ms};
use vstd::prelude::*;

verus! {

/// The outcome of one build or submit call.
#[derive(Clone, Debug, PartialEq, Eq)]
pub enum AttemptOutcome {
    Success,
    /// A transient condition (overload, rate limit, transport error,
    /// missing success marker); the reason is kept for the report.
    RetryableFailure(String),
    /// A condition that retrying cannot resolve (stock exhausted, listing or
    /// session expired).
    TerminalFailure(String),
}

/// The overall result of one purchase run.
#[derive(Clone, Debug, PartialEq, Eq)]
pub enum RunOutcome {
    Success,
    /// A phase used up its attempts; the reason is the last failure seen.
    RetryableFailure(String),
    TerminalFailure(String),
    Cancelled,
}

impl RunOutcome {
    /// A copy of this outcome.
    pub fn duplicate(&self) -> (r: RunOutcome)
        ensures
            r == *self,
    {
        match self {
            RunOutcome::Success => RunOutcome::Success,
            RunOutcome::RetryableFailure(s) => RunOutcome::RetryableFailure(s.clone()),
            RunOutcome::TerminalFailure(s) => RunOutcome::TerminalFailure(s.clone()),
            RunOutcome::Cancelled => RunOutcome::Cancelled,
        }
    }

    pub fn is_success(&self) -> (r: bool)
        ensures
            r == (*self is Success),
    {
        match self {
            RunOutcome::Success => true,
            _ => false,
        }
    }
}

/// Where a run stands.
#[derive(Clone, Debug, PartialEq, Eq)]
pub enum EngineState {
    /// The next action is a build call.
    BuildPending,
    /// A build failed and is retried after a wait.
    BuildBackoff,
    /// The build succeeded; the engine waits before the first submit.
    InterPhase,
    /// The next action is a submit call.
    SubmitPending,
    /// A submit failed and is retried after a wait.
    SubmitBackoff,
    Done(RunOutcome),
}

/// What the caller reports back after performing an action.
#[derive(Clone, Debug, PartialEq, Eq)]
pub enum EngineEvent {
    /// The build or submit call that was asked for returned this.
    Attempted(AttemptOutcome),
    /// The wait that was asked for has elapsed.
    Woke,
    /// The cancellation signal was observed.
    Cancelled,
}

/// What the caller is to do next.
#[derive(Clone, Debug, PartialEq, Eq)]
pub enum EngineAction {
    Build,
    Submit,
    /// Wait this many milliseconds, then report `Woke`.
    Sleep(u64),
    Finish(RunOutcome),
}

/// The retry settings of a task.
#[derive(Clone, Copy, Debug, PartialEq, Eq, Structural)]
pub struct RetryPolicy {
    /// Attempts per phase; a value below 1 stands for 3.
    pub retry_times: u64,
    /// Nominal wait between two attempts of a phase, in milliseconds.
    pub retry_interval: u64,
    /// Nominal wait between a successful build and the first submit, in
    /// milliseconds.
    pub wait_for_submit_interval: u64,
}

/// The number of attempts that each phase may make.
pub open spec fn effective_retries(retry_times: u64) -> nat {
    if retry_times < 1 {
        3
    } else {
        retry_times as nat
    }
}

impl RetryPolicy {
    /// The number of attempts that each phase may make.
    pub fn attempt_limit(&self) -> (r: u64)
        ensures
            r == effective_retries(self.retry_times),
    {
        if self.retry_times < 1 {
            3
        } else {
            self.retry_times
        }
    }
}

/// A wait drawn for `base`: within its jitter window.
pub open spec fn sleep_within(a: EngineAction, base: u64) -> bool {
    match a {
        EngineAction::Sleep(ms) => jitter_low(base) <= ms && ms <= jitter_high(base),
        _ => false,
    }
}

/// The two phases of a purchase.
#[derive(Clone, Copy, Debug, PartialEq, Eq, Structural)]
pub enum Phase {
    Build,
    Submit,
}

/// The record of one build or submit call, kept for the log.
#[derive(Clone, Debug, PartialEq, Eq)]
pub struct OrderAttempt {
    pub phase: Phase,
    /// 1-based number of the attempt within its phase.
    pub index: u64,
    /// How long the call took, in milliseconds.
    pub elapsed_ms: u64,
    pub outcome: AttemptOutcome,
}

/// The engine of one run.
#[derive(Clone, Debug)]
pub struct OrderEngine {
    pub policy: RetryPolicy,
    pub state: EngineState,
    /// Build calls made so far.
    pub build_attempts: u64,
    /// Submit calls made so far.
    pub submit_attempts: u64,
}

impl OrderEngine {
    pub open spec fn limit(self) -> nat {
        effective_retries(self.policy.retry_times)
    }

    /// The counters stay within the budget, and a pending or backoff state
    /// has an attempt left.
    pub open spec fn wf(self) -> bool {
        &&& self.build_attempts <= self.limit()
        &&& self.submit_attempts <= self.limit()
        &&& match self.state {
            EngineState::BuildPending | EngineState::BuildBackoff => {
                &&& self.build_attempts < self.limit()
                &&& self.submit_attempts == 0
            },
            EngineState::InterPhase | EngineState::SubmitPending | EngineState::SubmitBackoff => {
                &&& self.build_attempts >= 1
                &&& self.submit_attempts < self.limit()
            },
            EngineState::Done(_) => true,
        }
    }

    /// The engine at the start of a run.
    pub open spec fn initial(policy: RetryPolicy) -> OrderEngine {
        OrderEngine {
            policy,
            state: EngineState::BuildPending,
            build_attempts: 0,
            submit_attempts: 0,
        }
    }

    /// The engine after `ev`. A finished run stays as it is; cancellation
    /// ends any other state; an event that does not answer the current
    /// action is ignored.
    pub open spec fn next(self, ev: EngineEvent) -> OrderEngine {
        match self.state {
            EngineState::Done(_) => self,
            _ => match ev {
                EngineEvent::Cancelled => OrderEngine {
                    state: EngineState::Done(RunOutcome::Cancelled),
                    ..self
                },
                EngineEvent::Woke => match self.state {
                    EngineState::BuildBackoff => OrderEngine {
                        state: EngineState::BuildPending,
                        ..self
                    },
                    EngineState::InterPhase | EngineState::SubmitBackoff => OrderEngine {
                        state: EngineState::SubmitPending,
                        ..self
                    },
                    _ => self,
                },
                EngineEvent::Attempted(o) => match self.state {
                    EngineState::BuildPending => {
                        let n = (self.build_attempts + 1) as u64;
                        let state = match o {
                            AttemptOutcome::Success => EngineState::InterPhase,
                            AttemptOutcome::TerminalFailure(r) => EngineState::Done(
                                RunOutcome::TerminalFailure(r),
                            ),
                            AttemptOutcome::RetryableFailure(r) => if n < self.limit() {
                                EngineState::BuildBackoff
                            } else {
                                EngineState::Done(RunOutcome::RetryableFailure(r))
                            },
                        };
                        OrderEngine { state, build_attempts: n, ..self }
                    },
                    EngineState::SubmitPending => {
                        let n = (self.submit_attempts + 1) as u64;
                        let state = match o {
                            AttemptOutcome::Success => EngineState::Done(RunOutcome::Success),
                            AttemptOutcome::TerminalFailure(r) => EngineState::Done(
                                RunOutcome::TerminalFailure(r),
                            ),
                            AttemptOutcome::RetryableFailure(r) => if n < self.limit() {
                                EngineState::SubmitBackoff
                            } else {
                                EngineState::Done(RunOutcome::RetryableFailure(r))
                            },
                        };
                        OrderEngine { state, submit_attempts: n, ..self }
                    },
                    _ => self,
                },
            },
        }
    }

    /// The action that a state asks for: the call of a pending phase, a
    /// jittered wait before a retry or before the submit phase, or the end.
    pub open spec fn action_fits(self, a: EngineAction) -> bool {
        match self.state {
            EngineState::BuildPending => a == EngineAction::Build,
            EngineState::SubmitPending => a == EngineAction::Submit,
            EngineState::BuildBackoff | EngineState::SubmitBackoff => sleep_within(
                a,
                self.policy.retry_interval,
            ),
            EngineState::InterPhase => sleep_within(a, self.policy.wait_for_submit_interval),
            EngineState::Done(o) => a == EngineAction::Finish(o),
        }
    }

    /// A fresh run under `policy`: the first action is a build.
    pub fn new(policy: RetryPolicy) -> (r: OrderEngine)
        ensures
            r == OrderEngine::initial(policy),
            r.wf(),
    {
        OrderEngine {
            policy,
            state: EngineState::BuildPending,
            build_attempts: 0,
            submit_attempts: 0,
        }
    }

    /// The action that the current state asks for. Waits are drawn anew on
    /// each call.
    pub fn action(&self) -> (a: EngineAction)
        ensures
            self.action_fits(a),
    {
        match &self.state {
            EngineState::BuildPending => EngineAction::Build,
            EngineState::SubmitPending => EngineAction::Submit,
            EngineState::BuildBackoff | EngineState::SubmitBackoff => EngineAction::Sleep(
                jittered_ms(self.policy.retry_interval),
            ),
            EngineState::InterPhase => EngineAction::Sleep(
                jittered_ms(self.policy.wait_for_submit_interval),
            ),
            EngineState::Done(o) => EngineAction::Finish(o.duplicate()),
        }
    }

    /// The record of the call that the current state asks for, once it has
    /// returned `outcome` after `elapsed_ms`; `None` in a state that asks
    /// for no call.
    pub fn attempt_record(&self, elapsed_ms: u64, outcome: AttemptOutcome) -> (r: Option<OrderAttempt>)
        requires
            self.wf(),
        ensures
            self.state == EngineState::BuildPending ==> r == Some(
                OrderAttempt {
                    phase: Phase::Build,
                    index: (self.build_attempts + 1) as u64,
                    elapsed_ms,
                    outcome,
                },
            ),
            self.state == EngineState::SubmitPending ==> r == Some(
                OrderAttempt {
                    phase: Phase::Submit,
                    index: (self.submit_attempts + 1) as u64,
                    elapsed_ms,
                    outcome,
                },
            ),
            self.state != EngineState::BuildPending && self.state != EngineState::SubmitPending
                ==> r is None,
    {
        match &self.state {
            EngineState::BuildPending => Some(
                OrderAttempt {
                    phase: Phase::Build,
                    index: self.build_attempts + 1,
                    elapsed_ms,
                    outcome,
                },
            ),
            EngineState::SubmitPending => Some(
                OrderAttempt {
                    phase: Phase::Submit,
                    index: self.submit_attempts + 1,
                    elapsed_ms,
                    outcome,
                },
            ),
            _ => None,
        }
    }

    /// Takes in what happened and hands out what to do next.
    pub fn on_event(&mut self, ev: EngineEvent) -> (a: EngineAction)
        requires
            old(self).wf(),
        ensures
            *final(self) == old(self).next(ev),
            final(self).wf(),
            final(self).action_fits(a),
    {
        let limit = self.policy.attempt_limit();
        match &self.state {
            EngineState::Done(_) => {},
            _ => match ev {
                EngineEvent::Cancelled => {
                    self.state = EngineState::Done(RunOutcome::Cancelled);
                },
                EngineEvent::Woke => match &self.state {
                    EngineState::BuildBackoff => {
                        self.state = EngineState::BuildPending;
                    },
                    EngineState::InterPhase | EngineState::SubmitBackoff => {
                        self.state = EngineState::SubmitPending;
                    },
                    _ => {},
                },
                EngineEvent::Attempted(o) => match &self.state {
                    EngineState::BuildPending => {
                        let n = self.build_attempts + 1;
                        self.state =
                            match o {
                                AttemptOutcome::Success => EngineState::InterPhase,
                                AttemptOutcome::TerminalFailure(r) => EngineState::Done(
                                    RunOutcome::TerminalFailure(r),
                                ),
                                AttemptOutcome::RetryableFailure(r) => if n < limit {
                                    EngineState::BuildBackoff
                                } else {
                                    EngineState::Done(RunOutcome::RetryableFailure(r))
                                },
                            };
                        self.build_attempts = n;
                    },
                    EngineState::SubmitPending => {
                        let n = self.submit_attempts + 1;
                        self.state =
                            match o {
                                AttemptOutcome::Success => EngineState::Done(RunOutcome::Success),
                                AttemptOutcome::TerminalFailure(r) => EngineState::Done(
                                    RunOutcome::TerminalFailure(r),
                                ),
                                AttemptOutcome::RetryableFailure(r) => if n < limit {
                                    EngineState::SubmitBackoff
                                } else {
                                    EngineState::Done(RunOutcome::RetryableFailure(r))
                                },
                            };
                        self.submit_attempts = n;
                    },
                    _ => {},
                },
            },
        }
        self.action()
    }
}

/// The engine after a sequence of events, taken in order.
pub open spec fn run_events(e: OrderEngine, evs: Seq<EngineEvent>) -> OrderEngine
    decreases evs.len(),
{
    if evs.len() == 0 {
        e
    } else {
        run_events(e, evs.drop_last()).next(evs.last())
    }
}

/// The events of builds that fail with the given transient reasons, each
/// followed by the end of its backoff wait.
pub open spec fn failed_builds(reasons: Seq<String>) -> Seq<EngineEvent>
    decreases reasons.len(),
{
    if reasons.len() == 0 {
        Seq::empty()
    } else {
        failed_builds(reasons.drop_last()) + seq![
            EngineEvent::Attempted(AttemptOutcome::RetryableFailure(reasons.last())),
            EngineEvent::Woke,
        ]
    }
}

proof fn lemma_run_append(e: OrderEngine, a: Seq<EngineEvent>, b: Seq<EngineEvent>)
    ensures
        run_events(e, a + b) == run_events(run_events(e, a), b),
    decreases b.len(),
{
    if b.len() == 0 {
        assert(a + b =~= a);
    } else {
        assert((a + b).drop_last() =~= a + b.drop_last());
        lemma_run_append(e, a, b.drop_last());
    }
}

proof fn lemma_run_two(e: OrderEngine, x: EngineEvent, y: EngineEvent)
    ensures
        run_events(e, seq![x, y]) == e.next(x).next(y),
{
    lemma_run_one(e, x);
    assert(seq![x, y].drop_last() =~= seq![x]);
    assert(seq![x, y].last() == y);
}

proof fn lemma_run_one(e: OrderEngine, x: EngineEvent)
    ensures
        run_events(e, seq![x]) == e.next(x),
{
    assert(seq![x].drop_last() =~= Seq::<EngineEvent>::empty());
    assert(seq![x].last() == x);
    assert(run_events(e, Seq::<EngineEvent>::empty()) == e);
}

proof fn lemma_failed_builds(policy: RetryPolicy, reasons: Seq<String>)
    requires
        reasons.len() < effective_retries(policy.retry_times),
    ensures
        run_events(OrderEngine::initial(policy), failed_builds(reasons)) == (OrderEngine {
            build_attempts: reasons.len() as u64,
            ..OrderEngine::initial(policy)
        }),
    decreases reasons.len(),
{
    if reasons.len() > 0 {
        let init = OrderEngine::initial(policy);
        let prev = reasons.drop_last();
        let pair = seq![
            EngineEvent::Attempted(AttemptOutcome::RetryableFailure(reasons.last())),
            EngineEvent::Woke,
        ];
        lemma_failed_builds(policy, prev);
        lemma_run_append(init, failed_builds(prev), pair);
        lemma_run_two(run_events(init, failed_builds(prev)), pair[0], pair[1]);
    }
}

proof fn lemma_done_stays(e: OrderEngine, more: Seq<EngineEvent>)
    requires
        e.state is Done,
    ensures
        run_events(e, more) == e,
    decreases more.len(),
{
    if more.len() > 0 {
        lemma_done_stays(e, more.drop_last());
    }
}

/// Recovery: when fewer builds fail than the attempt budget allows and the
/// next one succeeds, the build phase succeeds after exactly one more
/// attempt than there were failures, no submit has been made yet, and the
/// end of the inter-phase wait moves the run on to submit.
pub proof fn lemma_build_recovers(policy: RetryPolicy, reasons: Seq<String>)
    requires
        reasons.len() < effective_retries(policy.retry_times),
    ensures
        ({
            let evs = failed_builds(reasons).push(EngineEvent::Attempted(AttemptOutcome::Success));
            let e = run_events(OrderEngine::initial(policy), evs);
            &&& e.state == EngineState::InterPhase
            &&& e.build_attempts == reasons.len() + 1
            &&& e.submit_attempts == 0
            &&& run_events(OrderEngine::initial(policy), evs.push(EngineEvent::Woke)).state
                == EngineState::SubmitPending
        }),
{
    let init = OrderEngine::initial(policy);
    let evs = failed_builds(reasons).push(EngineEvent::Attempted(AttemptOutcome::Success));
    lemma_failed_builds(policy, reasons);
    assert(evs.drop_last() =~= failed_builds(reasons));
    assert(evs.push(EngineEvent::Woke).drop_last() =~= evs);
}

/// Exhaustion: when every one of the budgeted builds fails transiently, the
/// run ends with a retryable failure whose reason is the last one seen, and
/// whatever is reported afterwards, no submit is ever made.
pub proof fn lemma_build_exhausted(
    policy: RetryPolicy,
    reasons: Seq<String>,
    more: Seq<EngineEvent>,
)
    requires
        reasons.len() == effective_retries(policy.retry_times),
    ensures
        ({
            let evs = failed_builds(reasons.drop_last()).push(
                EngineEvent::Attempted(AttemptOutcome::RetryableFailure(reasons.last())),
            );
            let e = run_events(OrderEngine::initial(policy), evs);
            &&& e.state == EngineState::Done(RunOutcome::RetryableFailure(reasons.last()))
            &&& e.build_attempts == reasons.len()
            &&& run_events(OrderEngine::initial(policy), evs + more) == e
            &&& run_events(OrderEngine::initial(policy), evs + more).submit_attempts == 0
        }),
{
    let init = OrderEngine::initial(policy);
    let prev = reasons.drop_last();
    let evs = failed_builds(prev).push(
        EngineEvent::Attempted(AttemptOutcome::RetryableFailure(reasons.last())),
    );
    lemma_failed_builds(policy, prev);
    assert(evs.drop_last() =~= failed_builds(prev));
    let e = run_events(init, evs);
    lemma_run_append(init, evs, more);
    lemma_done_stays(e, more);
}

/// Cancellation wins: reported in any state of an unfinished run, it ends
/// the run as cancelled at once, and nothing reported later changes that.
pub proof fn lemma_cancel_ends_run(e: OrderEngine, more: Seq<EngineEvent>)
    requires
        !(e.state is Done),
    ensures
        run_events(e, seq![EngineEvent::Cancelled] + more).state == EngineState::Done(
            RunOutcome::Cancelled,
        ),
{
    lemma_run_append(e, seq![EngineEvent::Cancelled], more);
    lemma_run_one(e, EngineEvent::Cancelled);
    lemma_done_stays(e.next(EngineEvent::Cancelled), more);
}

} // verus!
