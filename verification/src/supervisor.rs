//! Shared supervisor state and the watchdog's state machine.
//!
//! `Supervisor` is the one record shared between the application's setup
//! thread, the background watchdog loop and on-demand queries: the owned
//! child handle, the stop flag, the restart counter and the health phase.
//! The watchdog's decisions are pure: the caller performs a health probe and
//! feeds the outcome to [`Supervisor::on_probe`], which returns what to do
//! (notify, restart, stop); after carrying out a restart (terminate the old
//! child, launch, run the startup gate) the caller reports back through
//! [`Supervisor::finish_restart`]. All sleeping, probing and process work
//! stays with the caller, which must hold the record under one lock.
//!
//! Every mutating operation is an instance of the spec-level transition
//! [`Supervisor::step`], so session-wide guarantees (the restart counter
//! never passes the cap, nothing launches after a stop request, a child is
//! reaped exactly once) are proved once over arbitrary event sequences.

use vstd::prelude::*;

verus! {

/// Internal phase of the watchdog loop.
#[derive(Clone, Copy, PartialEq, Eq, Structural, Debug)]
pub enum Phase {
    /// Probing on every tick; no restart in flight.
    Monitoring,
    /// A restart attempt is in flight; probes are ignored until the caller
    /// reports its outcome.
    Restarting,
    /// The session's restart cap was reached: probing and reporting go on,
    /// but the supervisor never launches again.
    Exhausted,
    /// A stop request was observed; the watchdog loop is over.
    Stopped,
}

/// Health classification exposed to outside queries.
#[derive(Clone, Copy, PartialEq, Eq, Structural, Debug)]
pub enum Status {
    /// The last probe succeeded.
    Healthy,
    /// This many consecutive probes failed.
    Degraded(u32),
    /// A restart attempt is in flight.
    Restarting,
    /// Automatic recovery is disabled for the rest of the session.
    RestartExhausted,
    /// Shutdown was observed; monitoring has ended.
    Stopped,
}

/// Status notification the caller should emit to the presentation layer.
#[derive(Clone, Copy, PartialEq, Eq, Structural, Debug)]
pub enum Notice {
    /// The backend answered a probe again after at least one failure.
    Recovered,
    /// The failure counter reached the restart threshold.
    Unhealthy,
    /// A restart attempt brought the backend back to health.
    Restarted,
    /// The restart cap was reached; automatic recovery stops here.
    Exhausted,
}

/// What one watchdog tick asks of the caller.
#[derive(Clone, Copy, PartialEq, Eq, Structural, Debug)]
pub struct TickOutcome {
    /// Notification to emit, if any.
    pub notice: Option<Notice>,
    /// The caller must attempt a restart: terminate any owned child, launch,
    /// run the startup gate, and report through `finish_restart`.
    pub restart: bool,
    /// A stop request was observed: exit the watchdog loop.
    pub stopped: bool,
}

/// One observable step of the supervisor's life, for stating laws over
/// whole sessions.
pub enum SupEvent<H> {
    /// A watchdog tick observed this probe outcome.
    Probe(bool),
    /// A restart attempt ended: whether a launch succeeded, and whether the
    /// startup gate then saw the backend healthy.
    RestartFinished { launched: bool, gate_healthy: bool },
    /// The shutdown coordinator set the stop flag.
    StopRequested,
    /// The owned child handle was taken for termination.
    ChildTaken,
    /// A freshly launched child handle was offered to the supervisor.
    ChildAttached(H),
}

/// The single shared supervisor record. `H` is the child-process handle
/// type; the supervisor owns at most one handle at a time.
pub struct Supervisor<H> {
    /// Phase of the watchdog loop.
    pub phase: Phase,
    /// Consecutive failed probes (saturating).
    pub failures: u32,
    /// Automatic restarts performed this session; never reset mid-session.
    pub restart_count: u32,
    /// Monotonic stop flag, set once by the shutdown coordinator.
    pub stop_requested: bool,
    /// The owned child handle, if the supervisor launched one.
    pub child: Option<H>,
    /// Consecutive failures that trigger a restart attempt.
    pub threshold: u32,
    /// Maximum automatic restarts per session.
    pub cap: u32,
}

/// `n + 1`, stopping at the largest `u32`.
pub open spec fn sat_inc(n: u32) -> u32 {
    if n == u32::MAX {
        n
    } else {
        (n + 1) as u32
    }
}

impl<H> Supervisor<H> {
    /// Well-formedness: the counter respects the cap, a restart is only in
    /// flight while under the cap and past the threshold, and a stopped
    /// watchdog implies a stop request.
    pub open spec fn wf(self) -> bool {
        &&& self.threshold >= 1
        &&& self.restart_count <= self.cap
        &&& (self.phase is Restarting ==> self.restart_count < self.cap && self.failures
            >= self.threshold)
        &&& (self.phase is Stopped ==> self.stop_requested)
    }

    /// State after a watchdog tick that observed probe outcome `healthy`.
    pub open spec fn probe_next(self, healthy: bool) -> Supervisor<H> {
        if self.stop_requested {
            Supervisor { phase: Phase::Stopped, ..self }
        } else {
            match self.phase {
                Phase::Stopped => self,
                Phase::Restarting => self,
                Phase::Exhausted => if healthy {
                    Supervisor { failures: 0, ..self }
                } else {
                    Supervisor { failures: sat_inc(self.failures), ..self }
                },
                Phase::Monitoring => if healthy {
                    Supervisor { failures: 0, ..self }
                } else {
                    let f = sat_inc(self.failures);
                    if f >= self.threshold {
                        if self.restart_count < self.cap {
                            Supervisor { phase: Phase::Restarting, failures: f, ..self }
                        } else {
                            Supervisor { phase: Phase::Exhausted, failures: f, ..self }
                        }
                    } else {
                        Supervisor { failures: f, ..self }
                    }
                },
            }
        }
    }

    /// What the tick asks of the caller, for the same probe outcome.
    pub open spec fn probe_out(self, healthy: bool) -> TickOutcome {
        if self.stop_requested {
            TickOutcome { notice: None, restart: false, stopped: true }
        } else {
            match self.phase {
                Phase::Stopped => TickOutcome { notice: None, restart: false, stopped: true },
                Phase::Restarting => TickOutcome { notice: None, restart: false, stopped: false },
                Phase::Exhausted => TickOutcome { notice: None, restart: false, stopped: false },
                Phase::Monitoring => if healthy {
                    TickOutcome {
                        notice: if self.failures > 0 {
                            Some(Notice::Recovered)
                        } else {
                            None
                        },
                        restart: false,
                        stopped: false,
                    }
                } else {
                    let f = sat_inc(self.failures);
                    if f >= self.threshold {
                        if self.restart_count < self.cap {
                            TickOutcome {
                                notice: if f == self.threshold {
                                    Some(Notice::Unhealthy)
                                } else {
                                    None
                                },
                                restart: true,
                                stopped: false,
                            }
                        } else {
                            TickOutcome { notice: Some(Notice::Exhausted), restart: false, stopped: false }
                        }
                    } else {
                        TickOutcome { notice: None, restart: false, stopped: false }
                    }
                },
            }
        }
    }

    /// State after the caller reports a restart attempt's outcome. Only a
    /// successful launch counts against the session cap; a launch whose
    /// startup gate stays unhealthy leaves the failure counter where it was,
    /// so the next failed tick may try again.
    pub open spec fn finish_next(self, launched: bool, gate_healthy: bool) -> Supervisor<H> {
        if self.phase is Restarting {
            let count = if launched {
                (self.restart_count + 1) as u32
            } else {
                self.restart_count
            };
            if launched && gate_healthy {
                Supervisor { phase: Phase::Monitoring, failures: 0, restart_count: count, ..self }
            } else {
                Supervisor { phase: Phase::Monitoring, restart_count: count, ..self }
            }
        } else {
            self
        }
    }

    /// Notification owed after a restart attempt's outcome.
    pub open spec fn finish_notice(self, launched: bool, gate_healthy: bool) -> Option<Notice> {
        if self.phase is Restarting && launched && gate_healthy {
            Some(Notice::Restarted)
        } else {
            None
        }
    }

    /// State after the shutdown coordinator sets the stop flag.
    pub open spec fn stop_next(self) -> Supervisor<H> {
        Supervisor { stop_requested: true, ..self }
    }

    /// State after the owned child handle, if any, is taken.
    pub open spec fn take_next(self) -> Supervisor<H> {
        Supervisor { child: None, ..self }
    }

    /// Whether an offered child handle is accepted: never after a stop
    /// request, and never while another handle is owned.
    pub open spec fn accepts_child(self) -> bool {
        !self.stop_requested && self.child is None
    }

    /// State after a child handle is offered.
    pub open spec fn attach_next(self, h: H) -> Supervisor<H> {
        if self.accepts_child() {
            Supervisor { child: Some(h), ..self }
        } else {
            self
        }
    }

    /// The transition relation all mutating operations instantiate.
    pub open spec fn step(self, e: SupEvent<H>) -> Supervisor<H> {
        match e {
            SupEvent::Probe(healthy) => self.probe_next(healthy),
            SupEvent::RestartFinished { launched, gate_healthy } => self.finish_next(
                launched,
                gate_healthy,
            ),
            SupEvent::StopRequested => self.stop_next(),
            SupEvent::ChildTaken => self.take_next(),
            SupEvent::ChildAttached(h) => self.attach_next(h),
        }
    }

    /// The state reached by a whole sequence of events.
    pub open spec fn run(self, es: Seq<SupEvent<H>>) -> Supervisor<H>
        decreases es.len(),
    {
        if es.len() == 0 {
            self
        } else {
            self.step(es[0]).run(es.drop_first())
        }
    }

    /// Health classification derived from the current phase and counter.
    pub open spec fn spec_status(self) -> Status {
        if self.phase is Stopped {
            Status::Stopped
        } else if self.phase is Exhausted {
            Status::RestartExhausted
        } else if self.phase is Restarting {
            Status::Restarting
        } else if self.failures == 0 {
            Status::Healthy
        } else {
            Status::Degraded(self.failures)
        }
    }

    /// A fresh supervisor: monitoring, no failures, no restarts yet, no stop
    /// request, no owned child.
    pub fn new(threshold: u32, cap: u32) -> (s: Supervisor<H>)
        requires
            threshold >= 1,
        ensures
            s.wf(),
            s.phase is Monitoring,
            s.failures == 0,
            s.restart_count == 0,
            !s.stop_requested,
            s.child is None,
            s.threshold == threshold,
            s.cap == cap,
    {
        Supervisor {
            phase: Phase::Monitoring,
            failures: 0,
            restart_count: 0,
            stop_requested: false,
            child: None,
            threshold,
            cap,
        }
    }

    /// One watchdog tick: record the probe outcome and say what to do.
    pub fn on_probe(&mut self, healthy: bool) -> (out: TickOutcome)
        requires
            old(self).wf(),
        ensures
            final(self).wf(),
            *final(self) == old(self).probe_next(healthy),
            out == old(self).probe_out(healthy),
    {
        if self.stop_requested {
            self.phase = Phase::Stopped;
            TickOutcome { notice: None, restart: false, stopped: true }
        } else {
            match self.phase {
                Phase::Stopped => TickOutcome { notice: None, restart: false, stopped: true },
                Phase::Restarting => TickOutcome { notice: None, restart: false, stopped: false },
                Phase::Exhausted => {
                    if healthy {
                        self.failures = 0;
                    } else if self.failures < u32::MAX {
                        self.failures = self.failures + 1;
                    }
                    TickOutcome { notice: None, restart: false, stopped: false }
                },
                Phase::Monitoring => {
                    if healthy {
                        let was_degraded = self.failures > 0;
                        self.failures = 0;
                        TickOutcome {
                            notice: if was_degraded {
                                Some(Notice::Recovered)
                            } else {
                                None
                            },
                            restart: false,
                            stopped: false,
                        }
                    } else {
                        let f = if self.failures < u32::MAX {
                            self.failures + 1
                        } else {
                            self.failures
                        };
                        self.failures = f;
                        if f >= self.threshold {
                            if self.restart_count < self.cap {
                                self.phase = Phase::Restarting;
                                TickOutcome {
                                    notice: if f == self.threshold {
                                        Some(Notice::Unhealthy)
                                    } else {
                                        None
                                    },
                                    restart: true,
                                    stopped: false,
                                }
                            } else {
                                self.phase = Phase::Exhausted;
                                TickOutcome {
                                    notice: Some(Notice::Exhausted),
                                    restart: false,
                                    stopped: false,
                                }
                            }
                        } else {
                            TickOutcome { notice: None, restart: false, stopped: false }
                        }
                    }
                },
            }
        }
    }

    /// Report how the restart attempt requested by a tick went.
    pub fn finish_restart(&mut self, launched: bool, gate_healthy: bool) -> (notice: Option<
        Notice,
    >)
        requires
            old(self).wf(),
        ensures
            final(self).wf(),
            *final(self) == old(self).finish_next(launched, gate_healthy),
            notice == old(self).finish_notice(launched, gate_healthy),
    {
        match self.phase {
            Phase::Restarting => {
                if launched {
                    self.restart_count = self.restart_count + 1;
                }
                self.phase = Phase::Monitoring;
                if launched && gate_healthy {
                    self.failures = 0;
                    Some(Notice::Restarted)
                } else {
                    None
                }
            },
            _ => None,
        }
    }

    /// Set the stop flag. The watchdog observes it on its next tick or
    /// sleep slice; no launch follows it.
    pub fn request_stop(&mut self)
        requires
            old(self).wf(),
        ensures
            final(self).wf(),
            *final(self) == old(self).stop_next(),
    {
        self.stop_requested = true;
    }

    /// Take the owned child handle for verification and termination. The
    /// caller must terminate the returned handle; the supervisor owns none
    /// afterwards.
    pub fn take_child(&mut self) -> (h: Option<H>)
        requires
            old(self).wf(),
        ensures
            final(self).wf(),
            *final(self) == old(self).take_next(),
            h == old(self).child,
    {
        self.child.take()
    }

    /// Offer a freshly launched child handle. After a stop request, or while
    /// another handle is owned, the handle is refused and handed back, and
    /// the caller must terminate it itself.
    pub fn attach_child(&mut self, h: H) -> (refused: Option<H>)
        requires
            old(self).wf(),
        ensures
            final(self).wf(),
            *final(self) == old(self).attach_next(h),
            refused == if old(self).accepts_child() {
                Option::<H>::None
            } else {
                Some(h)
            },
    {
        if !self.stop_requested && self.child.is_none() {
            self.child = Some(h);
            None
        } else {
            Some(h)
        }
    }

    /// The shutdown coordinator's one call: set the stop flag, then (and
    /// only then) give the owned child handle, if any, to the caller for
    /// termination and reaping. Idempotent: a second call finds no handle
    /// and changes nothing further.
    pub fn shutdown(&mut self) -> (h: Option<H>)
        requires
            old(self).wf(),
        ensures
            final(self).wf(),
            *final(self) == old(self).stop_next().take_next(),
            h == old(self).child,
    {
        self.stop_requested = true;
        self.child.take()
    }

    /// Current health classification, for outside queries; reads cached
    /// state and performs no probe.
    pub fn status(&self) -> (st: Status)
        ensures
            st == self.spec_status(),
    {
        match self.phase {
            Phase::Stopped => Status::Stopped,
            Phase::Exhausted => Status::RestartExhausted,
            Phase::Restarting => Status::Restarting,
            Phase::Monitoring => {
                if self.failures == 0 {
                    Status::Healthy
                } else {
                    Status::Degraded(self.failures)
                }
            },
        }
    }
}

/// Every single step keeps the record well formed, keeps the threshold and
/// cap as they are, never lowers the restart counter, and never clears the
/// stop flag.
pub proof fn lemma_step_preserves<H>(s: Supervisor<H>, e: SupEvent<H>)
    requires
        s.wf(),
    ensures
        s.step(e).wf(),
        s.step(e).threshold == s.threshold,
        s.step(e).cap == s.cap,
        s.step(e).restart_count >= s.restart_count,
        s.stop_requested ==> s.step(e).stop_requested,
{
}

/// Law: over every sequence of events, the restart counter is non-decreasing
/// and never exceeds the session cap.
pub proof fn lemma_restart_count_bounded<H>(s: Supervisor<H>, es: Seq<SupEvent<H>>)
    requires
        s.wf(),
    ensures
        s.run(es).wf(),
        s.run(es).threshold == s.threshold,
        s.run(es).cap == s.cap,
        s.run(es).restart_count >= s.restart_count,
        s.run(es).restart_count <= s.cap,
        s.stop_requested ==> s.run(es).stop_requested,
    decreases es.len(),
{
    if es.len() > 0 {
        lemma_step_preserves(s, es[0]);
        lemma_restart_count_bounded(s.step(es[0]), es.drop_first());
    }
}

/// Law: once the stop flag is set and no restart is in flight, no event
/// sequence ever brings a restart in flight again, the restart counter never
/// moves, and no tick ever asks the caller to launch, whatever its probes
/// observe.
pub proof fn lemma_no_launch_after_stop<H>(s: Supervisor<H>, es: Seq<SupEvent<H>>)
    requires
        s.wf(),
        s.stop_requested,
        !(s.phase is Restarting),
    ensures
        s.run(es).stop_requested,
        !(s.run(es).phase is Restarting),
        s.run(es).restart_count == s.restart_count,
        forall|healthy: bool| !s.run(es).probe_out(healthy).restart,
    decreases es.len(),
{
    if es.len() > 0 {
        lemma_step_preserves(s, es[0]);
        lemma_no_launch_after_stop(s.step(es[0]), es.drop_first());
    }
}

/// Law: from a healthy state under the cap, with the default threshold of
/// three, the first two failed probes ask for no restart, the third asks for
/// exactly one (announcing the degradation), and no further probe asks for
/// another until the caller has reported that attempt's outcome.
pub proof fn lemma_three_failures_one_restart<H>(s: Supervisor<H>)
    requires
        s.wf(),
        s.phase is Monitoring,
        !s.stop_requested,
        s.failures == 0,
        s.threshold == 3,
        s.restart_count < s.cap,
    ensures
        ({
            let s1 = s.probe_next(false);
            let s2 = s1.probe_next(false);
            let s3 = s2.probe_next(false);
            &&& !s.probe_out(false).restart
            &&& !s1.probe_out(false).restart
            &&& s2.probe_out(false).restart
            &&& s2.probe_out(false).notice == Some(Notice::Unhealthy)
            &&& s3.phase is Restarting
            &&& forall|healthy: bool| !s3.probe_out(healthy).restart
            &&& forall|healthy: bool| s3.probe_next(healthy) == s3
        }),
{
}

/// Law: one healthy probe while degraded below the threshold resets the
/// failure counter to zero and asks for no restart, only for a recovery
/// notification.
pub proof fn lemma_recovery_resets_counter<H>(s: Supervisor<H>)
    requires
        s.wf(),
        s.phase is Monitoring,
        !s.stop_requested,
        0 < s.failures < s.threshold,
    ensures
        s.probe_next(true).failures == 0,
        s.probe_next(true).phase is Monitoring,
        s.probe_next(true).restart_count == s.restart_count,
        !s.probe_out(true).restart,
        s.probe_out(true).notice == Some(Notice::Recovered),
{
}

/// After a stop request, a supervisor that owns no child never owns one
/// again: every offered handle is refused.
pub proof fn lemma_no_child_after_stop<H>(s: Supervisor<H>, es: Seq<SupEvent<H>>)
    requires
        s.stop_requested,
        s.child is None,
    ensures
        s.run(es).child is None,
        s.run(es).stop_requested,
    decreases es.len(),
{
    if es.len() > 0 {
        lemma_no_child_after_stop(s.step(es[0]), es.drop_first());
    }
}

/// Law: shutdown yields the owned child handle for termination exactly once.
/// The first call hands out whatever was owned; afterwards the supervisor
/// owns nothing and no later event — another shutdown included — ever makes
/// it hand out a handle again.
pub proof fn lemma_shutdown_reaps_exactly_once<H>(s: Supervisor<H>, es: Seq<SupEvent<H>>)
    requires
        s.wf(),
    ensures
        ({
            let after = s.stop_next().take_next();
            &&& after.stop_requested
            &&& after.child is None
            &&& s.run(seq![SupEvent::StopRequested, SupEvent::ChildTaken]) == after
            &&& after.run(es).child is None
        }),
{
    let after = s.stop_next().take_next();
    let es2: Seq<SupEvent<H>> = seq![SupEvent::StopRequested, SupEvent::ChildTaken];
    let tail = es2.drop_first();
    assert(es2[0] == SupEvent::<H>::StopRequested);
    assert(tail.len() == 1 && tail[0] == SupEvent::<H>::ChildTaken);
    assert(tail.drop_first().len() == 0);
    assert(s.run(es2) == s.stop_next().run(tail));
    assert(s.stop_next().run(tail) == after.run(tail.drop_first()));
    assert(after.run(tail.drop_first()) == after);
    lemma_no_child_after_stop(after, es);
}

} // verus!
