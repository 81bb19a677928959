//! The process supervisor: a state machine that owns one worker's launch and
//! readiness decisions.
//!
//! One supervision run walks the machine
//! `Idle -> Spawning -> (SpawnFailed | Spawned) -> Polling -> (Ready | Exhausted)`.
//! The caller performs the outside work — resolving the executable, spawning
//! the process, opening a probe connection, sleeping between attempts — and
//! reports each outcome back; the supervisor decides what follows and records
//! exactly one diagnostic entry per step. `SpawnFailed` is fatal and is
//! reported as a `LaunchError`; running out of probe attempts is not: it
//! concludes with a readiness of `false` and leaves the worker alone.

use vstd::prelude::*;

use crate::diag::DiagnosticLog;
use crate::diag::appended_one;
use crate::diag::dec_rep;
use crate::diag::decimal_string;
use crate::diag::entry_is;
use crate::diag::rendered;

verus! {

/// What to launch: the worker's logical executable name — resolved to a path
/// by an outside packaging mechanism — and the environment overrides handed
/// to the new process. Immutable once constructed.
pub struct LaunchSpec {
    pub executable: String,
    pub env: Vec<(String, String)>,
}

impl LaunchSpec {
    /// The spec for a worker that must bind the given port: its one
    /// environment override sets `PORT` to the decimal writing of the port.
    pub fn for_port(executable: String, port: u16) -> (s: LaunchSpec)
        ensures
            s.executable@ == executable@,
            s.env@.len() == 1,
            s.env@[0].0@ == "PORT"@,
            s.env@[0].1@ == dec_rep(port as nat),
    {
        let mut env: Vec<(String, String)> = Vec::new();
        env.push((String::from_str("PORT"), decimal_string(port as u64)));
        LaunchSpec { executable, env }
    }
}

/// The identifier of the spawned worker. The supervisor keeps it for the
/// whole life of the parent process; it is never handed back to the operating
/// system.
#[derive(Clone, Copy, Debug, PartialEq, Eq, Structural)]
pub struct ChildHandle {
    pub pid: u32,
}

/// The fatal ways a launch can fail: the executable could not be located, or
/// the operating system refused to start the process. Each carries the
/// outside mechanism's own description.
#[derive(Debug)]
pub enum LaunchError {
    ResolutionFailed(String),
    SpawnFailed(String),
}

/// Where one supervision run stands.
#[derive(Clone, Copy, Debug, PartialEq, Eq, Structural)]
pub enum SupervisorState {
    Idle,
    Spawning,
    SpawnFailed,
    Spawned,
    Polling,
    Ready,
    Exhausted,
}

/// What one probe attempt decided: poll again, the worker is ready, or the
/// attempt budget is spent.
#[derive(Clone, Copy, Debug, PartialEq, Eq, Structural)]
pub enum PollStep {
    Continue,
    Ready,
    Exhausted,
}

/// The default attempt budget: polling gives the worker up to 15 chances.
pub const DEFAULT_MAX_ATTEMPTS: u32 = 15;

/// The default pause before each probe, in milliseconds. Together with the
/// default budget it bounds the blocking wait at 7500 ms.
pub const DEFAULT_INTERVAL_MS: u64 = 500;

/// The payload of the entry recorded when supervision starts.
pub open spec fn start_data(port: u16, max_attempts: u32) -> Seq<char> {
    "{\"port\":"@ + dec_rep(port as nat) + ",\"maxAttempts\":"@ + dec_rep(max_attempts as nat)
        + "}"@
}

/// The payload of the entry recorded for a successful spawn.
pub open spec fn spawn_data(pid: u32) -> Seq<char> {
    "{\"pid\":"@ + dec_rep(pid as nat) + "}"@
}

/// The payload of the entry recorded for one probe attempt.
pub open spec fn attempt_data(attempt: u32, max_attempts: u32, connected: bool) -> Seq<char> {
    "{\"attempt\":"@ + dec_rep(attempt as nat) + ",\"maxAttempts\":"@ + dec_rep(
        max_attempts as nat,
    ) + ",\"connected\":"@ + (if connected {
        "true"@
    } else {
        "false"@
    }) + "}"@
}

/// The payload of the entry recorded when polling concludes.
pub open spec fn conclude_data(ready: bool, attempts: u32) -> Seq<char> {
    "{\"ready\":"@ + (if ready {
        "true"@
    } else {
        "false"@
    }) + ",\"attempts\":"@ + dec_rep(attempts as nat) + "}"@
}

/// Some probe among the first `max` would find the worker listening.
pub open spec fn poll_ready(outcomes: Seq<bool>, max: nat) -> bool {
    exists|i: int| 0 <= i < max && i < outcomes.len() && outcomes[i]
}

/// How many probes a bounded poll makes when attempt `i + 1` would observe
/// `outcomes[i]`: it stops at the first success, and no later than `max`.
pub open spec fn poll_attempts(outcomes: Seq<bool>, max: nat) -> nat
    decreases max,
{
    if max == 0 || outcomes.len() == 0 {
        0
    } else if outcomes[0] {
        1
    } else {
        (1 + poll_attempts(outcomes.drop_first(), (max - 1) as nat)) as nat
    }
}

/// A bounded poll never makes more than `max` attempts.
pub proof fn lemma_poll_attempts_bounded(outcomes: Seq<bool>, max: nat)
    ensures
        poll_attempts(outcomes, max) <= max,
    decreases max,
{
    if max > 0 && outcomes.len() > 0 && !outcomes[0] {
        lemma_poll_attempts_bounded(outcomes.drop_first(), (max - 1) as nat);
    }
}

/// A poll whose first success would come on attempt `k + 1` makes exactly
/// `k + 1` attempts and reports readiness: it stops at the first success and
/// issues no further attempt.
pub proof fn lemma_poll_first_success(outcomes: Seq<bool>, max: nat, k: int)
    requires
        0 <= k < max,
        k < outcomes.len(),
        outcomes[k],
        forall|j: int| 0 <= j < k ==> !outcomes[j],
    ensures
        poll_attempts(outcomes, max) == k + 1,
        poll_ready(outcomes, max),
    decreases k,
{
    if k > 0 {
        lemma_poll_first_success(outcomes.drop_first(), (max - 1) as nat, k - 1);
    }
}

/// A poll against a worker that is already ready — every probe would connect
/// — ends on the very first attempt, whatever the budget: readiness is
/// reported and no further attempt is made.
pub proof fn lemma_poll_ready_target(outcomes: Seq<bool>, max: nat)
    requires
        max >= 1,
        outcomes.len() >= 1,
        forall|j: int| 0 <= j < outcomes.len() ==> outcomes[j],
    ensures
        poll_attempts(outcomes, max) == 1,
        poll_ready(outcomes, max),
{
    lemma_poll_first_success(outcomes, max, 0);
}

/// A poll against a worker that never becomes ready makes exactly `max`
/// attempts and reports no readiness.
pub proof fn lemma_poll_exhausted(outcomes: Seq<bool>, max: nat)
    requires
        max <= outcomes.len(),
        forall|j: int| 0 <= j < max ==> !outcomes[j],
    ensures
        poll_attempts(outcomes, max) == max,
        !poll_ready(outcomes, max),
    decreases max,
{
    if max > 0 {
        assert(forall|j: int|
            0 <= j < max - 1 ==> outcomes.drop_first()[j] == outcomes[j + 1]);
        lemma_poll_exhausted(outcomes.drop_first(), (max - 1) as nat);
    }
}

/// The supervisor of one worker: the launch spec, the readiness policy (the
/// port to probe, the attempt budget, the pause between attempts), where the
/// run stands, and the retained handle of the spawned worker.
pub struct Supervisor {
    pub launch_spec: LaunchSpec,
    pub port: u16,
    pub max_attempts: u32,
    pub interval_ms: u64,
    pub state: SupervisorState,
    pub attempts: u32,
    pub handle: Option<ChildHandle>,
    pub concluded: bool,
}

/// The configuration a supervisor was built with never changes.
pub open spec fn same_config(pre: Supervisor, post: Supervisor) -> bool {
    &&& post.launch_spec == pre.launch_spec
    &&& post.port == pre.port
    &&& post.max_attempts == pre.max_attempts
    &&& post.interval_ms == pre.interval_ms
}

impl Supervisor {
    /// At most `max_attempts` probes are ever made; before polling no attempt
    /// is counted; polling goes on only while budget is left; exhaustion
    /// means the whole budget was spent; the worker's handle exists exactly
    /// from the spawn on and is then never given up; only a finished poll can
    /// have been concluded.
    pub open spec fn wf(self) -> bool {
        &&& self.max_attempts >= 1
        &&& self.attempts <= self.max_attempts
        &&& ((self.state is Idle || self.state is Spawning || self.state is SpawnFailed
            || self.state is Spawned) ==> self.attempts == 0)
        &&& (self.state is Polling ==> 1 <= self.attempts < self.max_attempts)
        &&& (self.state is Ready ==> 1 <= self.attempts)
        &&& (self.state is Exhausted ==> self.attempts == self.max_attempts)
        &&& (self.handle is Some <==> (self.state is Spawned || self.state is Polling
            || self.state is Ready || self.state is Exhausted))
        &&& (self.concluded ==> (self.state is Ready || self.state is Exhausted))
    }

    /// A supervisor that has not started: no attempt made, no worker spawned.
    /// The budget must allow at least one probe, since only a probe can spend
    /// it.
    pub fn new(launch_spec: LaunchSpec, port: u16, max_attempts: u32, interval_ms: u64) -> (s:
        Supervisor)
        requires
            max_attempts >= 1,
        ensures
            s.wf(),
            s.state is Idle,
            s.attempts == 0,
            s.handle is None,
            !s.concluded,
            s.launch_spec == launch_spec,
            s.port == port,
            s.max_attempts == max_attempts,
            s.interval_ms == interval_ms,
    {
        Supervisor {
            launch_spec,
            port,
            max_attempts,
            interval_ms,
            state: SupervisorState::Idle,
            attempts: 0,
            handle: None,
            concluded: false,
        }
    }

    /// Begins the run: the supervisor turns to resolving and spawning the
    /// worker, and records that supervision started. The returned line is the
    /// recorded entry, rendered for the caller's log destination.
    pub fn start(&mut self, log: &mut DiagnosticLog, now: u64) -> (line: String)
        requires
            old(self).wf(),
            old(log).wf(),
            old(self).state is Idle,
        ensures
            final(self).wf(),
            final(log).wf(),
            same_config(*old(self), *final(self)),
            final(self).state is Spawning,
            final(self).attempts == 0,
            final(self).handle is None,
            !final(self).concluded,
            appended_one(*old(log), *final(log)),
            entry_is(
                final(log).entries@.last(),
                "supervisor:start"@,
                "supervision started"@,
                start_data(old(self).port, old(self).max_attempts),
            ),
            line@ == rendered(final(log).entries@.last()),
    {
        let data = start_data_string(self.port, self.max_attempts);
        let line = log.record("supervisor:start", "supervision started", data.as_str(), now);
        self.state = SupervisorState::Spawning;
        line
    }

    /// Takes the outside resolver's verdict. When the executable was located
    /// the run stays on course toward spawning; when it was not, the run ends
    /// in `SpawnFailed` and the caller gets `LaunchError::ResolutionFailed`
    /// carrying the resolver's description — so no probing can follow. Either
    /// way exactly one entry is recorded and returned rendered.
    pub fn on_resolution(
        &mut self,
        resolved: bool,
        detail: &str,
        log: &mut DiagnosticLog,
        now: u64,
    ) -> (r: (String, Option<LaunchError>))
        requires
            old(self).wf(),
            old(log).wf(),
            old(self).state is Spawning,
        ensures
            final(self).wf(),
            final(log).wf(),
            same_config(*old(self), *final(self)),
            final(self).attempts == 0,
            final(self).handle is None,
            !final(self).concluded,
            resolved ==> final(self).state is Spawning && r.1 is None && entry_is(
                final(log).entries@.last(),
                "supervisor:resolve"@,
                "executable resolved"@,
                "{\"step\":\"resolved\"}"@,
            ),
            !resolved ==> final(self).state is SpawnFailed && (r.1 matches Some(
                LaunchError::ResolutionFailed(d),
            ) && d@ == detail@) && entry_is(
                final(log).entries@.last(),
                "supervisor:resolve"@,
                detail@,
                "{\"step\":\"resolutionFailed\"}"@,
            ),
            appended_one(*old(log), *final(log)),
            r.0@ == rendered(final(log).entries@.last()),
    {
        if resolved {
            let line = log.record(
                "supervisor:resolve",
                "executable resolved",
                "{\"step\":\"resolved\"}",
                now,
            );
            (line, None)
        } else {
            let line = log.record(
                "supervisor:resolve",
                detail,
                "{\"step\":\"resolutionFailed\"}",
                now,
            );
            self.state = SupervisorState::SpawnFailed;
            (line, Some(LaunchError::ResolutionFailed(String::from_str(detail))))
        }
    }

    /// Takes the operating system's spawn outcome. On success the supervisor
    /// retains the worker's handle — for good — and stands ready to poll; on
    /// failure the run ends in `SpawnFailed` and the caller gets
    /// `LaunchError::SpawnFailed` carrying the system's description. Either
    /// way exactly one entry is recorded and returned rendered.
    pub fn on_spawn(&mut self, outcome: Result<u32, String>, log: &mut DiagnosticLog, now: u64) -> (r: (
        String,
        Option<LaunchError>,
    ))
        requires
            old(self).wf(),
            old(log).wf(),
            old(self).state is Spawning,
        ensures
            final(self).wf(),
            final(log).wf(),
            same_config(*old(self), *final(self)),
            final(self).attempts == 0,
            !final(self).concluded,
            outcome matches Ok(pid) ==> final(self).state is Spawned && (final(self).handle
                matches Some(h) && h.pid == pid) && r.1 is None && entry_is(
                final(log).entries@.last(),
                "supervisor:spawn"@,
                "worker spawned"@,
                spawn_data(pid),
            ),
            outcome matches Err(d) ==> final(self).state is SpawnFailed && final(self).handle
                is None && (r.1 matches Some(LaunchError::SpawnFailed(e)) && e@ == d@) && entry_is(
                final(log).entries@.last(),
                "supervisor:spawn"@,
                d@,
                "{\"step\":\"spawnFailed\"}"@,
            ),
            appended_one(*old(log), *final(log)),
            r.0@ == rendered(final(log).entries@.last()),
    {
        match outcome {
            Ok(pid) => {
                let data = spawn_data_string(pid);
                let line = log.record("supervisor:spawn", "worker spawned", data.as_str(), now);
                self.state = SupervisorState::Spawned;
                self.handle = Some(ChildHandle { pid });
                (line, None)
            },
            Err(d) => {
                let line = log.record(
                    "supervisor:spawn",
                    d.as_str(),
                    "{\"step\":\"spawnFailed\"}",
                    now,
                );
                self.state = SupervisorState::SpawnFailed;
                (line, Some(LaunchError::SpawnFailed(d)))
            },
        }
    }

    /// Takes the outcome of one connection attempt against the worker's port
    /// and counts it. A successful connection ends the poll in `Ready` at
    /// once; an unsuccessful one either leaves the poll running or, when it
    /// was the last budgeted attempt, ends it in `Exhausted`. Exactly one
    /// entry is recorded and returned rendered.
    pub fn on_probe(&mut self, connected: bool, log: &mut DiagnosticLog, now: u64) -> (r: (
        String,
        PollStep,
    ))
        requires
            old(self).wf(),
            old(log).wf(),
            old(self).state is Spawned || old(self).state is Polling,
        ensures
            final(self).wf(),
            final(log).wf(),
            same_config(*old(self), *final(self)),
            final(self).handle == old(self).handle,
            !final(self).concluded,
            final(self).attempts == old(self).attempts + 1,
            connected ==> final(self).state is Ready && r.1 is Ready,
            (!connected && old(self).attempts + 1 == old(self).max_attempts)
                ==> final(self).state is Exhausted && r.1 is Exhausted,
            (!connected && old(self).attempts + 1 < old(self).max_attempts)
                ==> final(self).state is Polling && r.1 is Continue,
            appended_one(*old(log), *final(log)),
            entry_is(
                final(log).entries@.last(),
                "supervisor:probe"@,
                "probe attempt"@,
                attempt_data(
                    (old(self).attempts + 1) as u32,
                    old(self).max_attempts,
                    connected,
                ),
            ),
            r.0@ == rendered(final(log).entries@.last()),
    {
        let attempt: u32 = self.attempts + 1;
        self.attempts = attempt;
        let data = attempt_data_string(attempt, self.max_attempts, connected);
        let line = log.record("supervisor:probe", "probe attempt", data.as_str(), now);
        if connected {
            self.state = SupervisorState::Ready;
            (line, PollStep::Ready)
        } else if attempt == self.max_attempts {
            self.state = SupervisorState::Exhausted;
            (line, PollStep::Exhausted)
        } else {
            self.state = SupervisorState::Polling;
            (line, PollStep::Continue)
        }
    }

    /// Records the final outcome of a finished poll, once, and reports it:
    /// `true` exactly when the poll ended in `Ready`. A `false` outcome is
    /// not an error — the worker is left running and the caller decides what
    /// to do.
    pub fn conclude(&mut self, log: &mut DiagnosticLog, now: u64) -> (r: (String, bool))
        requires
            old(self).wf(),
            old(log).wf(),
            old(self).state is Ready || old(self).state is Exhausted,
            !old(self).concluded,
        ensures
            final(self).wf(),
            final(log).wf(),
            same_config(*old(self), *final(self)),
            final(self).handle == old(self).handle,
            final(self).state == old(self).state,
            final(self).attempts == old(self).attempts,
            final(self).concluded,
            r.1 == (old(self).state is Ready),
            appended_one(*old(log), *final(log)),
            entry_is(
                final(log).entries@.last(),
                "supervisor:conclude"@,
                "polling concluded"@,
                conclude_data(old(self).state is Ready, old(self).attempts),
            ),
            r.0@ == rendered(final(log).entries@.last()),
    {
        let ready: bool = self.state == SupervisorState::Ready;
        let data = conclude_data_string(ready, self.attempts);
        let line = log.record("supervisor:conclude", "polling concluded", data.as_str(), now);
        self.concluded = true;
        (line, ready)
    }

    /// Runs the whole bounded poll against a spawned worker, where attempt
    /// `i + 1` would observe `outcomes[i]`: probes are made one by one, with
    /// the first success ending the poll, until at most `max_attempts` are
    /// spent, and the outcome is concluded. Reports readiness — `true`
    /// exactly when some budgeted attempt would have connected — and hands
    /// back one rendered line per recorded entry: one per attempt made plus
    /// the concluding one.
    pub fn await_ready(
        &mut self,
        outcomes: &Vec<bool>,
        log: &mut DiagnosticLog,
        now: u64,
    ) -> (r: (bool, Vec<String>))
        requires
            old(self).wf(),
            old(log).wf(),
            old(self).state is Spawned,
            outcomes@.len() >= old(self).max_attempts,
        ensures
            final(self).wf(),
            final(log).wf(),
            same_config(*old(self), *final(self)),
            final(self).handle == old(self).handle,
            final(self).concluded,
            r.0 == poll_ready(outcomes@, old(self).max_attempts as nat),
            final(self).attempts == poll_attempts(outcomes@, old(self).max_attempts as nat),
            r.0 ==> final(self).state is Ready,
            !r.0 ==> final(self).state is Exhausted && final(self).attempts == old(self).max_attempts,
            final(log).entries@.len() == old(log).entries@.len() + final(self).attempts + 1,
            forall|i: int|
                0 <= i < final(self).attempts ==> entry_is(
                    #[trigger] final(log).entries@[old(log).entries@.len() + i],
                    "supervisor:probe"@,
                    "probe attempt"@,
                    attempt_data((i + 1) as u32, old(self).max_attempts, outcomes@[i]),
                ),
            entry_is(
                final(log).entries@.last(),
                "supervisor:conclude"@,
                "polling concluded"@,
                conclude_data(r.0, final(self).attempts),
            ),
            r.1@.len() == final(self).attempts + 1,
            forall|i: int|
                0 <= i < r.1@.len() ==> (#[trigger] r.1@[i])@ == rendered(
                    final(log).entries@[old(log).entries@.len() + i],
                ),
    {
        let ghost omax: nat = old(self).max_attempts as nat;
        let mut lines: Vec<String> = Vec::new();
        let mut cont: bool = true;
        while cont
            invariant
                self.wf(),
                log.wf(),
                same_config(*old(self), *self),
                self.handle == old(self).handle,
                !self.concluded,
                omax == self.max_attempts as nat,
                outcomes@.len() >= self.max_attempts,
                cont ==> (self.state is Spawned || self.state is Polling),
                cont ==> (forall|j: int| 0 <= j < self.attempts ==> !outcomes@[j]),
                !cont ==> (self.state is Ready || self.state is Exhausted),
                !cont ==> ((self.state is Ready) == poll_ready(outcomes@, omax)),
                !cont ==> self.attempts as nat == poll_attempts(outcomes@, omax),
                log.entries@.len() == old(log).entries@.len() + self.attempts,
                forall|j: int|
                    0 <= j < self.attempts ==> entry_is(
                        #[trigger] log.entries@[old(log).entries@.len() + j],
                        "supervisor:probe"@,
                        "probe attempt"@,
                        attempt_data((j + 1) as u32, self.max_attempts, outcomes@[j]),
                    ),
                lines@.len() == self.attempts,
                forall|j: int|
                    0 <= j < lines@.len() ==> (#[trigger] lines@[j])@ == rendered(
                        log.entries@[old(log).entries@.len() + j],
                    ),
            decreases self.max_attempts - self.attempts + (if cont {
                1int
            } else {
                0int
            }),
        {
            let idx: usize = self.attempts as usize;
            let connected: bool = outcomes[idx];
            let ghost k: int = self.attempts as int;
            let (line, step) = self.on_probe(connected, log, now);
            lines.push(line);
            match step {
                PollStep::Continue => {},
                PollStep::Ready => {
                    proof {
                        lemma_poll_first_success(outcomes@, omax, k);
                    }
                    cont = false;
                },
                PollStep::Exhausted => {
                    proof {
                        lemma_poll_exhausted(outcomes@, omax);
                    }
                    cont = false;
                },
            }
        }
        let (line, ready) = self.conclude(log, now);
        lines.push(line);
        (ready, lines)
    }

    /// The process id of the retained worker, when one was spawned.
    pub fn child_pid(&self) -> (r: Option<u32>)
        ensures
            r is Some <==> self.handle is Some,
            r matches Some(p) ==> self.handle matches Some(h) && h.pid == p,
    {
        match &self.handle {
            Some(h) => Some(h.pid),
            None => None,
        }
    }
}

fn bool_str(b: bool) -> (r: &'static str)
    ensures
        r@ == (if b {
            "true"@
        } else {
            "false"@
        }),
{
    if b {
        "true"
    } else {
        "false"
    }
}

fn start_data_string(port: u16, max_attempts: u32) -> (r: String)
    ensures
        r@ == start_data(port, max_attempts),
{
    let mut s = String::from_str("{\"port\":");
    let p = decimal_string(port as u64);
    s.append(p.as_str());
    s.append(",\"maxAttempts\":");
    let m = decimal_string(max_attempts as u64);
    s.append(m.as_str());
    s.append("}");
    proof {
        assert(s@ =~= start_data(port, max_attempts));
    }
    s
}

fn spawn_data_string(pid: u32) -> (r: String)
    ensures
        r@ == spawn_data(pid),
{
    let mut s = String::from_str("{\"pid\":");
    let p = decimal_string(pid as u64);
    s.append(p.as_str());
    s.append("}");
    proof {
        assert(s@ =~= spawn_data(pid));
    }
    s
}

fn attempt_data_string(attempt: u32, max_attempts: u32, connected: bool) -> (r: String)
    ensures
        r@ == attempt_data(attempt, max_attempts, connected),
{
    let mut s = String::from_str("{\"attempt\":");
    let a = decimal_string(attempt as u64);
    s.append(a.as_str());
    s.append(",\"maxAttempts\":");
    let m = decimal_string(max_attempts as u64);
    s.append(m.as_str());
    s.append(",\"connected\":");
    s.append(bool_str(connected));
    s.append("}");
    proof {
        assert(s@ =~= attempt_data(attempt, max_attempts, connected));
    }
    s
}

fn conclude_data_string(ready: bool, attempts: u32) -> (r: String)
    ensures
        r@ == conclude_data(ready, attempts),
{
    let mut s = String::from_str("{\"ready\":");
    s.append(bool_str(ready));
    s.append(",\"attempts\":");
    let a = decimal_string(attempts as u64);
    s.append(a.as_str());
    s.append("}");
    proof {
        assert(s@ =~= conclude_data(ready, attempts));
    }
    s
}

} // verus!
