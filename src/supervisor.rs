use vstd::prelude::*;

use crate::launch::{binary_name, worker_binary_name, LaunchSpec, Platform, ResolveError};
use crate::readiness::{is_marker_line, ReadinessDetector};
use crate::status::{
    exited_unready_event, exited_unready_text, resolve_error_text, resolve_failed_event,
    spawn_failed_event, spawn_failed_text, OutputStream, StatusEvent,
};

verus! {

/// Where the worker is in its life.
#[derive(Clone, Copy, Debug, PartialEq, Eq, Structural)]
pub enum Phase {
    /// No launch attempted yet.
    Idle,
    /// A spawn was requested and its outcome is awaited.
    Spawning,
    /// The worker runs; the supervisor holds its handle (process id).
    Running(u32),
    /// The attempt is over: it failed, or the worker's output ended.
    Finished,
}

/// What the host side reports to the supervisor.
#[derive(Debug)]
pub enum SupervisorInput {
    /// The outcome of resolving the launch spec.
    Resolved(Result<LaunchSpec, ResolveError>),
    /// The worker process was started, with this process id.
    Spawned(u32),
    /// The operating system refused to start the worker, for this reason.
    SpawnError(String),
    /// A line of the worker's standard output.
    StdoutLine(String),
    /// A line of the worker's standard error.
    StderrLine(String),
    /// The worker's standard output reached its end.
    StdoutClosed,
    /// The host application is terminating.
    HostTerminating,
}

/// Diagnostics that go to the host's log only.
#[derive(Clone, Copy, Debug, PartialEq, Eq, Structural)]
pub enum Diagnostic {
    /// The worker was started with this process id.
    WorkerStarted(u32),
    /// The worker's output ended after it had become ready.
    WorkerExitedAfterReady,
}

/// What the supervisor asks the host side to do.
#[derive(Debug)]
pub enum Action {
    /// Start the worker with piped standard output and standard error.
    Spawn(LaunchSpec),
    /// Deliver an event to the host (best effort).
    Notify(StatusEvent),
    /// Write a diagnostic to the host's log.
    Report(Diagnostic),
    /// Kill the worker process that the supervisor holds.
    KillWorker,
    /// Ask the system to terminate every process of this executable name;
    /// finding none is no error.
    TerminateByName(String),
}

/// Decides, for each report from the host side, what is to be done next.
/// At most one worker is launched per supervisor, and none is held once the
/// host has begun to terminate.
pub struct Supervisor {
    pub platform: Platform,
    pub phase: Phase,
    pub detector: ReadinessDetector,
    pub shut_down: bool,
}

/// The rank of a phase; phases only move forward.
pub open spec fn phase_rank(p: Phase) -> nat {
    match p {
        Phase::Idle => 0,
        Phase::Spawning => 1,
        Phase::Running(_) => 2,
        Phase::Finished => 3,
    }
}

pub open spec fn is_ready_notice(a: Action) -> bool {
    a matches Action::Notify(StatusEvent::BackendReady)
}

pub open spec fn is_spawn_failed_notice(a: Action) -> bool {
    a matches Action::Notify(StatusEvent::SpawnFailed(_))
}

pub open spec fn is_exited_unready_notice(a: Action) -> bool {
    a matches Action::Notify(StatusEvent::BackendExitedUnready(_))
}

pub open spec fn is_spawn_request(a: Action) -> bool {
    a matches Action::Spawn(_)
}

/// How many of `acts` satisfy `f`.
pub open spec fn count_where(acts: Seq<Action>, f: spec_fn(Action) -> bool) -> nat
    decreases acts.len(),
{
    if acts.len() == 0 {
        0
    } else {
        count_where(acts.drop_last(), f) + if f(acts.last()) { 1nat } else { 0nat }
    }
}

pub proof fn lemma_count_concat(a: Seq<Action>, b: Seq<Action>, f: spec_fn(Action) -> bool)
    ensures
        count_where(a + b, f) == count_where(a, f) + count_where(b, f),
    decreases b.len(),
{
    if b.len() > 0 {
        lemma_count_concat(a, b.drop_last(), f);
        assert((a + b).drop_last() =~= a + b.drop_last());
    }
}

/// A log line from `stream` holding `text`.
pub open spec fn is_log_line(a: Action, stream: OutputStream, text: Seq<char>) -> bool {
    a matches Action::Notify(StatusEvent::LogLine(s, t)) && s == stream && t@ == text
}

/// A request to terminate the worker's executable by name.
pub open spec fn is_name_termination(a: Action, platform: Platform) -> bool {
    a matches Action::TerminateByName(n) && n@ == binary_name(platform)
}

/// The actions owed by a shutdown when the supervisor holds `worker`.
pub open spec fn is_shutdown_actions(acts: Seq<Action>, platform: Platform, holds_worker: bool) -> bool {
    let kills: int = if holds_worker { 1 } else { 0 };
    &&& acts.len() == kills + if platform == Platform::Windows { 1int } else { 0int }
    &&& holds_worker ==> (acts[0] is KillWorker)
    &&& platform == Platform::Windows ==> is_name_termination(acts[kills], platform)
}

/// One step of the supervisor: from `s` on `input`, to `t` with `acts`.
pub open spec fn is_step(s: Supervisor, input: SupervisorInput, t: Supervisor, acts: Seq<Action>) -> bool {
    &&& t.platform == s.platform
    &&& match input {
        SupervisorInput::Resolved(res) => if s.phase == Phase::Idle && !s.shut_down {
            match res {
                Ok(spec) => {
                    &&& t.phase == Phase::Spawning
                    &&& t.detector == s.detector && t.shut_down == s.shut_down
                    &&& acts.len() == 1
                    &&& acts[0] matches Action::Spawn(sp) && sp == spec
                },
                Err(e) => {
                    &&& t.phase == Phase::Finished
                    &&& t.detector == s.detector && t.shut_down == s.shut_down
                    &&& acts.len() == 1
                    &&& acts[0] matches Action::Notify(StatusEvent::SpawnFailed(m))
                        && m@ == spawn_failed_text(resolve_error_text(s.platform, e))
                },
            }
        } else {
            t == s && acts.len() == 0
        },
        SupervisorInput::Spawned(pid) => if s.phase == Phase::Spawning {
            &&& t.phase == if s.shut_down { Phase::Finished } else { Phase::Running(pid) }
            &&& t.detector == s.detector && t.shut_down == s.shut_down
            &&& acts.len() == if s.shut_down { 2int } else { 1int }
            &&& acts[0] == Action::Report(Diagnostic::WorkerStarted(pid))
            &&& s.shut_down ==> (acts[1] is KillWorker)
        } else {
            t == s && acts.len() == 0
        },
        SupervisorInput::SpawnError(why) => if s.phase == Phase::Spawning {
            &&& t.phase == Phase::Finished
            &&& t.detector == s.detector && t.shut_down == s.shut_down
            &&& acts.len() == 1
            &&& acts[0] matches Action::Notify(StatusEvent::SpawnFailed(m)) && m@ == spawn_failed_text(why@)
        } else {
            t == s && acts.len() == 0
        },
        SupervisorInput::StdoutLine(line) => if s.phase matches Phase::Running(_) {
            let first = !s.detector.ready && is_marker_line(line@);
            &&& t.phase == s.phase && t.shut_down == s.shut_down
            &&& t.detector.ready == (s.detector.ready || is_marker_line(line@))
            &&& acts.len() == if first { 2int } else { 1int }
            &&& is_log_line(acts[0], OutputStream::Stdout, line@)
            &&& first ==> acts[1] == Action::Notify(StatusEvent::BackendReady)
        } else {
            t == s && acts.len() == 0
        },
        SupervisorInput::StderrLine(line) => if s.phase matches Phase::Running(_) || s.phase == Phase::Finished {
            &&& t == s
            &&& acts.len() == 1
            &&& is_log_line(acts[0], OutputStream::Stderr, line@)
        } else {
            t == s && acts.len() == 0
        },
        SupervisorInput::StdoutClosed => if s.phase matches Phase::Running(_) {
            &&& t.phase == Phase::Finished
            &&& t.detector == s.detector && t.shut_down == s.shut_down
            &&& acts.len() == 1
            &&& !s.detector.ready ==> (acts[0] matches Action::Notify(StatusEvent::BackendExitedUnready(m))
                && m@ == exited_unready_text())
            &&& s.detector.ready ==> acts[0] == Action::Report(Diagnostic::WorkerExitedAfterReady)
        } else {
            t == s && acts.len() == 0
        },
        SupervisorInput::HostTerminating => if !s.shut_down {
            &&& t.phase == if s.phase is Running { Phase::Finished } else { s.phase }
            &&& t.detector == s.detector && t.shut_down
            &&& is_shutdown_actions(acts, s.platform, s.phase matches Phase::Running(_))
        } else {
            t == s && acts.len() == 0
        },
    }
}

/// The actions of each step, one after the other.
pub open spec fn concat_all(outs: Seq<Seq<Action>>) -> Seq<Action>
    decreases outs.len(),
{
    if outs.len() == 0 {
        Seq::empty()
    } else {
        concat_all(outs.drop_last()) + outs.last()
    }
}

/// `states` and `outs` witness a run from `s` on `inputs` to `t`: each step
/// goes from one state to the next on its input and asks for its actions.
pub open spec fn is_trace(
    s: Supervisor,
    inputs: Seq<SupervisorInput>,
    t: Supervisor,
    acts: Seq<Action>,
    states: Seq<Supervisor>,
    outs: Seq<Seq<Action>>,
) -> bool {
    &&& states.len() == inputs.len() + 1
    &&& outs.len() == inputs.len()
    &&& states[0] == s
    &&& states.last() == t
    &&& forall|i: int| 0 <= i < inputs.len() ==> is_step(#[trigger] states[i], inputs[i], states[i + 1], outs[i])
    &&& acts == concat_all(outs)
}

/// A run: from `s`, the steps for `inputs` in order lead to `t`, asking for
/// `acts`, each step's actions after those of the steps before it.
pub open spec fn is_run(s: Supervisor, inputs: Seq<SupervisorInput>, t: Supervisor, acts: Seq<Action>) -> bool {
    exists|states: Seq<Supervisor>, outs: Seq<Seq<Action>>| #[trigger] is_trace(s, inputs, t, acts, states, outs)
}

/// Once the host has begun to terminate, no step leaves a worker held.
pub proof fn lemma_no_worker_after_shutdown(s: Supervisor, input: SupervisorInput, t: Supervisor, acts: Seq<Action>)
    requires
        s.shut_down ==> !(s.phase is Running),
        s.shut_down || input is HostTerminating,
        is_step(s, input, t, acts),
    ensures
        t.shut_down,
        !(t.phase is Running),
{
}

/// Counts over at most two actions, term by term.
proof fn lemma_count_short(acts: Seq<Action>, f: spec_fn(Action) -> bool)
    requires
        acts.len() <= 2,
    ensures
        count_where(acts, f) == (if acts.len() > 0 && f(acts[0]) { 1nat } else { 0nat })
            + (if acts.len() > 1 && f(acts[1]) { 1nat } else { 0nat }),
{
    if acts.len() > 0 {
        let a = acts.drop_last();
        assert(count_where(acts, f) == count_where(a, f) + if f(acts.last()) { 1nat } else { 0nat });
        if a.len() > 0 {
            assert(a.drop_last().len() == 0);
            assert(count_where(a, f) == count_where(a.drop_last(), f) + if f(a.last()) { 1nat } else { 0nat });
            assert(count_where(a.drop_last(), f) == 0);
            assert(a.last() == acts[0]);
        } else {
            assert(count_where(a, f) == 0);
        }
    }
}

/// What one step can emit: a readiness notice only as readiness is reached, a
/// spawn request only when leaving `Idle`, a failure notice only when the
/// attempt ends.
pub proof fn lemma_step_bounds(s: Supervisor, input: SupervisorInput, t: Supervisor, acts: Seq<Action>)
    requires
        is_step(s, input, t, acts),
    ensures
        s.detector.ready ==> t.detector.ready,
        phase_rank(s.phase) <= phase_rank(t.phase),
        count_where(acts, |a: Action| is_ready_notice(a))
            == if !s.detector.ready && t.detector.ready { 1nat } else { 0nat },
        count_where(acts, |a: Action| is_spawn_request(a))
            <= if phase_rank(s.phase) == 0 && phase_rank(t.phase) >= 1 { 1nat } else { 0nat },
        count_where(acts, |a: Action| is_spawn_failed_notice(a))
            + count_where(acts, |a: Action| is_exited_unready_notice(a))
            <= if phase_rank(s.phase) < 3 && phase_rank(t.phase) == 3 { 1nat } else { 0nat },
{
    lemma_count_short(acts, |a: Action| is_ready_notice(a));
    lemma_count_short(acts, |a: Action| is_spawn_request(a));
    lemma_count_short(acts, |a: Action| is_spawn_failed_notice(a));
    lemma_count_short(acts, |a: Action| is_exited_unready_notice(a));
}

impl Supervisor {
    /// A supervisor that has launched nothing yet.
    pub fn new(platform: Platform) -> (r: Supervisor)
        ensures
            r.platform == platform,
            r.phase == Phase::Idle,
            !r.detector.ready,
            !r.shut_down,
    {
        Supervisor { platform, phase: Phase::Idle, detector: ReadinessDetector::new(), shut_down: false }
    }

    /// Whether the worker has announced readiness.
    pub fn is_ready(&self) -> (r: bool)
        ensures
            r == self.detector.ready,
    {
        self.detector.is_ready()
    }

    /// The process id of the worker the supervisor holds, if any.
    pub fn worker(&self) -> (r: Option<u32>)
        ensures
            match self.phase {
                Phase::Running(pid) => r == Some(pid),
                _ => r is None,
            },
    {
        match self.phase {
            Phase::Running(pid) => Some(pid),
            _ => None,
        }
    }

    /// Takes one report from the host side and returns what is to be done,
    /// in order.
    pub fn handle(&mut self, input: SupervisorInput) -> (r: Vec<Action>)
        ensures
            is_step(*old(self), input, *final(self), r@),
    {
        let mut acts: Vec<Action> = Vec::new();
        match input {
            SupervisorInput::Resolved(res) => {
                if self.phase == Phase::Idle && !self.shut_down {
                    match res {
                        Ok(spec) => {
                            self.phase = Phase::Spawning;
                            acts.push(Action::Spawn(spec));
                        },
                        Err(e) => {
                            self.phase = Phase::Finished;
                            acts.push(Action::Notify(resolve_failed_event(self.platform, e)));
                        },
                    }
                }
            },
            SupervisorInput::Spawned(pid) => {
                if self.phase == Phase::Spawning {
                    acts.push(Action::Report(Diagnostic::WorkerStarted(pid)));
                    if self.shut_down {
                        self.phase = Phase::Finished;
                        acts.push(Action::KillWorker);
                    } else {
                        self.phase = Phase::Running(pid);
                    }
                }
            },
            SupervisorInput::SpawnError(why) => {
                if self.phase == Phase::Spawning {
                    self.phase = Phase::Finished;
                    acts.push(Action::Notify(spawn_failed_event(why.as_str())));
                }
            },
            SupervisorInput::StdoutLine(line) => {
                if let Phase::Running(_) = self.phase {
                    let first = self.detector.observe(line.as_str());
                    acts.push(Action::Notify(StatusEvent::LogLine(OutputStream::Stdout, line)));
                    if first {
                        acts.push(Action::Notify(StatusEvent::BackendReady));
                    }
                }
            },
            SupervisorInput::StderrLine(line) => {
                let live = match self.phase {
                    Phase::Running(_) => true,
                    Phase::Finished => true,
                    _ => false,
                };
                if live {
                    acts.push(Action::Notify(StatusEvent::LogLine(OutputStream::Stderr, line)));
                }
            },
            SupervisorInput::StdoutClosed => {
                if let Phase::Running(_) = self.phase {
                    self.phase = Phase::Finished;
                    if self.detector.ready {
                        acts.push(Action::Report(Diagnostic::WorkerExitedAfterReady));
                    } else {
                        acts.push(Action::Notify(exited_unready_event()));
                    }
                }
            },
            SupervisorInput::HostTerminating => {
                if !self.shut_down {
                    self.shut_down = true;
                    if let Phase::Running(_) = self.phase {
                        self.phase = Phase::Finished;
                        acts.push(Action::KillWorker);
                    }
                    if self.platform == Platform::Windows {
                        acts.push(Action::TerminateByName(worker_binary_name(self.platform)));
                    }
                }
            },
        }
        acts
    }

    /// Takes reports in order and returns all the actions they call for, in
    /// order. Over any sequence of reports the host is told at most once that
    /// the worker became ready, the worker is spawned at most once, and at
    /// most one failure (to start, or before readiness) is reported.
    pub fn handle_all(&mut self, inputs: Vec<SupervisorInput>) -> (r: Vec<Action>)
        ensures
            is_run(*old(self), inputs@, *final(self), r@),
            final(self).platform == old(self).platform,
            old(self).detector.ready ==> final(self).detector.ready,
            count_where(r@, |a: Action| is_ready_notice(a))
                == if !old(self).detector.ready && final(self).detector.ready { 1nat } else { 0nat },
            count_where(r@, |a: Action| is_ready_notice(a)) <= 1,
            count_where(r@, |a: Action| is_spawn_request(a)) <= 1,
            count_where(r@, |a: Action| is_spawn_failed_notice(a))
                + count_where(r@, |a: Action| is_exited_unready_notice(a)) <= 1,
    {
        let ghost s0 = *self;
        let ghost all = inputs@;
        let ghost mut states: Seq<Supervisor> = seq![*self];
        let ghost mut outs: Seq<Seq<Action>> = Seq::empty();
        let mut out: Vec<Action> = Vec::new();
        let mut rest = inputs;
        assert(rest@ =~= all.subrange(0, all.len() as int));
        while rest.len() > 0
            invariant
                rest@.len() <= all.len(),
                rest@ == all.subrange(all.len() - rest@.len(), all.len() as int),
                is_trace(s0, all.subrange(0, all.len() - rest@.len()), *self, out@, states, outs),
                self.platform == s0.platform,
                s0.detector.ready ==> self.detector.ready,
                phase_rank(s0.phase) <= phase_rank(self.phase),
                count_where(out@, |a: Action| is_ready_notice(a))
                    == if !s0.detector.ready && self.detector.ready { 1nat } else { 0nat },
                count_where(out@, |a: Action| is_spawn_request(a))
                    <= if phase_rank(s0.phase) == 0 && phase_rank(self.phase) >= 1 { 1nat } else { 0nat },
                count_where(out@, |a: Action| is_spawn_failed_notice(a))
                    + count_where(out@, |a: Action| is_exited_unready_notice(a))
                    <= if phase_rank(s0.phase) < 3 && phase_rank(self.phase) == 3 { 1nat } else { 0nat },
            decreases rest@.len(),
        {
            let ghost done = all.subrange(0, all.len() - rest@.len());
            let input = rest.remove(0);
            let ghost before = *self;
            let ghost seen = out@;
            let mut acts = self.handle(input);
            proof {
                let k = all.len() - rest@.len() - 1;
                assert(input == all[k]);
                assert(rest@ =~= all.subrange(k + 1, all.len() as int));
                let done2 = all.subrange(0, k + 1);
                let states2 = states.push(*self);
                let outs2 = outs.push(acts@);
                assert(outs2.drop_last() =~= outs);
                assert forall|i: int| 0 <= i < done2.len() implies is_step(
                    #[trigger] states2[i],
                    done2[i],
                    states2[i + 1],
                    outs2[i],
                ) by {
                    if i < k {
                        assert(states2[i] == states[i] && states2[i + 1] == states[i + 1]);
                        assert(done2[i] == done[i] && outs2[i] == outs[i]);
                        assert(is_step(states[i], done[i], states[i + 1], outs[i]));
                    }
                }
                states = states2;
                outs = outs2;
                lemma_step_bounds(before, input, *self, acts@);
                lemma_count_concat(seen, acts@, |a: Action| is_ready_notice(a));
                lemma_count_concat(seen, acts@, |a: Action| is_spawn_request(a));
                lemma_count_concat(seen, acts@, |a: Action| is_spawn_failed_notice(a));
                lemma_count_concat(seen, acts@, |a: Action| is_exited_unready_notice(a));
            }
            out.append(&mut acts);
        }
        assert(all.subrange(0, all.len() as int) =~= all);
        assert(is_trace(s0, all, *self, out@, states, outs));
        out
    }
}

/// Shutting down twice is the same as shutting down once: the second request
/// changes nothing and asks for nothing.
pub proof fn lemma_shutdown_idempotent(
    s0: Supervisor,
    s1: Supervisor,
    first: Seq<Action>,
    s2: Supervisor,
    second: Seq<Action>,
)
    requires
        is_step(s0, SupervisorInput::HostTerminating, s1, first),
        is_step(s1, SupervisorInput::HostTerminating, s2, second),
    ensures
        s2 == s1,
        second.len() == 0,
{
}

/// Shutting down when no worker is held kills nothing; the only request left
/// is the best-effort termination by name on Windows.
pub proof fn lemma_shutdown_without_worker(s: Supervisor, t: Supervisor, acts: Seq<Action>)
    requires
        !(s.phase is Running),
        is_step(s, SupervisorInput::HostTerminating, t, acts),
    ensures
        forall|i: int| 0 <= i < acts.len() ==> !(#[trigger] acts[i] is KillWorker),
        forall|i: int| 0 <= i < acts.len() ==> #[trigger] is_name_termination(acts[i], s.platform),
{
}

/// A worker that cannot be spawned leaves no handle, and the host hears of it
/// exactly once.
pub proof fn lemma_spawn_failure_reported_once(s: Supervisor, why: String, t: Supervisor, acts: Seq<Action>)
    requires
        s.phase == Phase::Spawning,
        is_step(s, SupervisorInput::SpawnError(why), t, acts),
    ensures
        t.phase == Phase::Finished,
        count_where(acts, |a: Action| is_spawn_failed_notice(a)) == 1,
        count_where(acts, |a: Action| is_ready_notice(a)) == 0,
{
    lemma_count_short(acts, |a: Action| is_spawn_failed_notice(a));
    lemma_count_short(acts, |a: Action| is_ready_notice(a));
}

/// A worker whose output ends before the readiness marker is reported as
/// exited exactly once, and never as ready.
pub proof fn lemma_exit_before_ready_reported_once(s: Supervisor, t: Supervisor, acts: Seq<Action>)
    requires
        s.phase is Running,
        !s.detector.ready,
        is_step(s, SupervisorInput::StdoutClosed, t, acts),
    ensures
        t.phase == Phase::Finished,
        count_where(acts, |a: Action| is_exited_unready_notice(a)) == 1,
        count_where(acts, |a: Action| is_ready_notice(a)) == 0,
{
    lemma_count_short(acts, |a: Action| is_exited_unready_notice(a));
    lemma_count_short(acts, |a: Action| is_ready_notice(a));
}

} // verus!
