//! The wait-strategy engine.
//!
//! Given the ordered ready conditions of a just-started container and one
//! shared startup deadline, the engine evaluates the strategies sequentially
//! in declaration order: it advances to the next strategy only once the
//! current one reports ready, aborts on the first definite failure, and
//! aborts with a timeout attributed to the active strategy when the shared
//! deadline elapses first. Between polls it asks the caller to sleep for the
//! active strategy's cadence, bounded by the remaining deadline.
//!
//! The engine is a step machine over observations: the caller (a runtime
//! driver, or a test) hands in one snapshot per poll and performs the sleep
//! the engine asks for.

use vstd::prelude::*;
use crate::errors::Error;
use crate::errors::HealthStatus;
use crate::errors::ObservedWaitState;
use crate::wait::PollDecision;
use crate::wait::RsWaitFor;
use crate::wait::WaitObservation;
use crate::wait::decide;
use crate::wait::poll_interval;
use crate::wait::spec_all_resolved;
use crate::wait::spec_decide;
use crate::wait::spec_log_count;
use crate::wait::spec_poll_interval;

verus! {

/// The engine's state: the resolved strategies, how many of them have
/// already reported ready, and the window the whole run must fit in.
pub struct WaitEngine {
    pub strategies: Vec<RsWaitFor>,
    /// Strategies before this index have reported ready; the one at it is
    /// the active strategy.
    pub index: usize,
    pub start_ns: u64,
    pub deadline_ns: u64,
}

/// What the engine asks of its caller after one poll.
#[derive(Clone, Copy, Debug, PartialEq, Eq, Structural)]
pub enum EngineStep {
    /// Every strategy has reported ready.
    AllReady,
    /// Sleep this long, observe again, and step again.
    Continue { sleep_ns: u64 },
    /// The run is over: a strategy failed or the deadline elapsed.
    Aborted { error: Error },
}

/// The state a strategy was last seen in, as carried by a timeout error.
pub open spec fn spec_observed(w: RsWaitFor, obs: WaitObservation) -> ObservedWaitState {
    ObservedWaitState {
        log_count: match w {
            RsWaitFor::Log { strategy } => if spec_log_count(strategy, obs) <= usize::MAX {
                spec_log_count(strategy, obs) as usize
            } else {
                usize::MAX
            },
            _ => 0,
        },
        health: obs.health,
        exit_code: obs.exit_code,
    }
}

/// The neutral state reported for a strategy that was never polled.
pub open spec fn spec_unobserved() -> ObservedWaitState {
    ObservedWaitState { log_count: 0, health: HealthStatus::Starting, exit_code: None }
}

impl WaitEngine {
    pub open spec fn wf(&self) -> bool {
        self.index <= self.strategies@.len() && spec_all_resolved(self.strategies@)
    }

    /// Every strategy has reported ready.
    pub open spec fn spec_done(&self) -> bool {
        self.index == self.strategies@.len()
    }

    /// What one poll does to the engine, and what it asks of the caller.
    pub open spec fn spec_step(self, obs: WaitObservation) -> (WaitEngine, EngineStep) {
        if self.index == self.strategies@.len() {
            (self, EngineStep::AllReady)
        } else {
            let w = self.strategies@[self.index as int];
            match spec_decide(w, self.start_ns, obs) {
                PollDecision::Ready => {
                    let advanced = WaitEngine { index: (self.index + 1) as usize, ..self };
                    if advanced.spec_done() {
                        (advanced, EngineStep::AllReady)
                    } else {
                        (advanced, EngineStep::Continue { sleep_ns: 0 })
                    }
                },
                PollDecision::Failed { failure } => (
                    self,
                    EngineStep::Aborted {
                        error: Error::WaitStrategyFailed {
                            strategy_index: self.index,
                            failure,
                        },
                    },
                ),
                PollDecision::NotYet => {
                    if obs.now_ns >= self.deadline_ns {
                        (
                            self,
                            EngineStep::Aborted {
                                error: Error::WaitTimeout {
                                    strategy_index: self.index,
                                    last: spec_observed(w, obs),
                                },
                            },
                        )
                    } else {
                        let remaining = self.deadline_ns - obs.now_ns;
                        let cadence = spec_poll_interval(w) as int;
                        let sleep = if cadence <= remaining {
                            cadence
                        } else {
                            remaining
                        };
                        (self, EngineStep::Continue { sleep_ns: sleep as u64 })
                    }
                },
            }
        }
    }

    /// Where a whole run over a trace of observations ends: the engine
    /// consumes one observation per poll; a run that exhausts the trace
    /// while undecided is a timeout attributed to the active strategy.
    pub open spec fn spec_drive(self, trace: Seq<WaitObservation>) -> (WaitEngine, Result<
        (),
        Error,
    >)
        decreases trace.len(),
    {
        if self.spec_done() {
            (self, Ok(()))
        } else if trace.len() == 0 {
            (
                self,
                Err(
                    Error::WaitTimeout {
                        strategy_index: self.index,
                        last: spec_unobserved(),
                    },
                ),
            )
        } else {
            let stepped = self.spec_step(trace[0]);
            match stepped.1 {
                EngineStep::AllReady => (stepped.0, Ok(())),
                EngineStep::Aborted { error } => (stepped.0, Err(error)),
                EngineStep::Continue { .. } => stepped.0.spec_drive(trace.drop_first()),
            }
        }
    }

    /// Starts an engine for the given resolved strategies, started at
    /// `start_ns`, with the shared deadline `start_ns + timeout_ns`
    /// (saturating).
    pub fn new(strategies: Vec<RsWaitFor>, start_ns: u64, timeout_ns: u64) -> (r: WaitEngine)
        requires
            spec_all_resolved(strategies@),
        ensures
            r.strategies == strategies,
            r.index == 0,
            r.start_ns == start_ns,
            r.deadline_ns == start_ns.checked_add(timeout_ns).unwrap_or(u64::MAX),
            r.wf(),
    {
        let deadline_ns = match start_ns.checked_add(timeout_ns) {
            Some(d) => d,
            None => u64::MAX,
        };
        WaitEngine { strategies, index: 0, start_ns, deadline_ns }
    }

    /// Polls the active strategy against one observation.
    pub fn step(&mut self, obs: &WaitObservation) -> (s: EngineStep)
        requires
            old(self).wf(),
        ensures
            final(self).wf(),
            (*final(self), s) == old(self).spec_step(*obs),
            final(self).strategies == old(self).strategies,
            final(self).start_ns == old(self).start_ns,
            final(self).deadline_ns == old(self).deadline_ns,
    {
        if self.index == self.strategies.len() {
            return EngineStep::AllReady;
        }
        let w = &self.strategies[self.index];
        match decide(w, self.start_ns, obs) {
            PollDecision::Ready => {
                self.index = self.index + 1;
                if self.index == self.strategies.len() {
                    EngineStep::AllReady
                } else {
                    EngineStep::Continue { sleep_ns: 0 }
                }
            },
            PollDecision::Failed { failure } => EngineStep::Aborted {
                error: Error::WaitStrategyFailed { strategy_index: self.index, failure },
            },
            PollDecision::NotYet => {
                if obs.now_ns >= self.deadline_ns {
                    EngineStep::Aborted {
                        error: Error::WaitTimeout {
                            strategy_index: self.index,
                            last: observed_state(w, obs),
                        },
                    }
                } else {
                    let remaining = self.deadline_ns - obs.now_ns;
                    let cadence = poll_interval(w);
                    let sleep = if cadence <= remaining {
                        cadence
                    } else {
                        remaining
                    };
                    EngineStep::Continue { sleep_ns: sleep }
                }
            },
        }
    }

    /// Runs the engine over a whole trace of observations, one per poll.
    pub fn drive(&mut self, trace: &Vec<WaitObservation>) -> (r: Result<(), Error>)
        requires
            old(self).wf(),
        ensures
            final(self).wf(),
            (*final(self), r) == old(self).spec_drive(trace@),
            r == spec_run_outcome(
                old(self).strategies@,
                old(self).index as int,
                old(self).start_ns,
                old(self).deadline_ns,
                trace@,
            ),
    {
        proof {
            lemma_drive_matches_run(*self, trace@);
        }
        let ghost orig = *self;
        let n = trace.len();
        let mut i: usize = 0;
        proof {
            assert(trace@.skip(0) =~= trace@);
        }
        while i < n
            invariant
                orig == *old(self),
                self.wf(),
                i <= n,
                n == trace@.len(),
                orig.spec_drive(trace@) == self.spec_drive(trace@.skip(i as int)),
                orig.spec_drive(trace@).1 == spec_run_outcome(
                    orig.strategies@,
                    orig.index as int,
                    orig.start_ns,
                    orig.deadline_ns,
                    trace@,
                ),
            decreases n - i,
        {
            if self.index == self.strategies.len() {
                return Ok(());
            }
            let step = self.step(&trace[i]);
            proof {
                assert(trace@.skip(i as int)[0] == trace@[i as int]);
                assert(trace@.skip(i as int).drop_first() =~= trace@.skip(i + 1));
            }
            match step {
                EngineStep::AllReady => {
                    return Ok(());
                },
                EngineStep::Aborted { error } => {
                    return Err(error);
                },
                EngineStep::Continue { .. } => {},
            }
            i += 1;
        }
        if self.index == self.strategies.len() {
            Ok(())
        } else {
            proof {
                assert(trace@.skip(n as int) =~= Seq::<WaitObservation>::empty());
            }
            Err(
                Error::WaitTimeout {
                    strategy_index: self.index,
                    last: ObservedWaitState {
                        log_count: 0,
                        health: HealthStatus::Starting,
                        exit_code: None,
                    },
                },
            )
        }
    }
}

/// Where a run over a trace ends, stated over the strategies as a plain
/// sequence; it agrees with `spec_drive` on every engine.
pub open spec fn spec_run_outcome(
    strategies: Seq<RsWaitFor>,
    index: int,
    start_ns: u64,
    deadline_ns: u64,
    trace: Seq<WaitObservation>,
) -> Result<(), Error>
    decreases trace.len(),
{
    if index >= strategies.len() {
        Ok(())
    } else if trace.len() == 0 {
        Err(Error::WaitTimeout { strategy_index: index as usize, last: spec_unobserved() })
    } else {
        let w = strategies[index];
        match spec_decide(w, start_ns, trace[0]) {
            PollDecision::Ready => if index + 1 >= strategies.len() {
                Ok(())
            } else {
                spec_run_outcome(strategies, index + 1, start_ns, deadline_ns, trace.drop_first())
            },
            PollDecision::Failed { failure } => Err(
                Error::WaitStrategyFailed { strategy_index: index as usize, failure },
            ),
            PollDecision::NotYet => if trace[0].now_ns >= deadline_ns {
                Err(
                    Error::WaitTimeout {
                        strategy_index: index as usize,
                        last: spec_observed(w, trace[0]),
                    },
                )
            } else {
                spec_run_outcome(strategies, index, start_ns, deadline_ns, trace.drop_first())
            },
        }
    }
}

/// A whole run ends where the sequence-level statement says it does.
pub proof fn lemma_drive_matches_run(e: WaitEngine, trace: Seq<WaitObservation>)
    requires
        e.wf(),
    ensures
        e.spec_drive(trace).1 == spec_run_outcome(
            e.strategies@,
            e.index as int,
            e.start_ns,
            e.deadline_ns,
            trace,
        ),
    decreases trace.len(),
{
    vstd::std_specs::vec::axiom_spec_len(&e.strategies);
    if !e.spec_done() && trace.len() > 0 {
        let stepped = e.spec_step(trace[0]);
        match stepped.1 {
            EngineStep::Continue { .. } => {
                lemma_drive_matches_run(stepped.0, trace.drop_first());
            },
            _ => {},
        }
    }
}

/// The state the active strategy was last seen in.
fn observed_state(w: &RsWaitFor, obs: &WaitObservation) -> (r: ObservedWaitState)
    ensures
        r == spec_observed(*w, *obs),
{
    let log_count: usize = match w {
        RsWaitFor::Log { strategy } => {
            let count = crate::wait::log_count(strategy, obs);
            if count > usize::MAX as u128 {
                usize::MAX
            } else {
                count as usize
            }
        },
        _ => 0,
    };
    ObservedWaitState { log_count, health: obs.health, exit_code: obs.exit_code }
}

/// Sequential policy: on a trace where the first strategy never reports
/// ready, no later strategy is ever consulted — the engine's index stays at
/// the first strategy through the whole run — and the run ends in a timeout
/// attributed to that first strategy.
pub proof fn lemma_sequential_gating(e: WaitEngine, trace: Seq<WaitObservation>)
    requires
        e.wf(),
        e.index == 0,
        e.strategies@.len() >= 1,
        forall|i: int|
            0 <= i < trace.len() ==> spec_decide(e.strategies@[0], e.start_ns, #[trigger] trace[i])
                == PollDecision::NotYet,
    ensures
        e.spec_drive(trace).0.index == 0,
        e.spec_drive(trace).1 matches Err(err) && err matches Error::WaitTimeout {
            strategy_index,
            ..
        } && strategy_index == 0,
    decreases trace.len(),
{
    if trace.len() > 0 {
        let stepped = e.spec_step(trace[0]);
        match stepped.1 {
            EngineStep::Continue { .. } => {
                lemma_sequential_gating(stepped.0, trace.drop_first());
            },
            _ => {},
        }
    }
}

} // verus!
