use vstd::prelude::*;

verus! {

/// Phase of one filter worker within the current connection cycle.
#[derive(Clone, Copy, PartialEq, Eq, Structural, Debug)]
pub enum WorkerPhase {
    Running,
    Exited,
}

/// State of the reconnect state machine.
#[derive(Clone, Copy, PartialEq, Eq, Structural, Debug)]
pub enum SupervisorState {
    Idle,
    Connecting,
    Running,
    Draining,
    Backoff,
    Stopped,
}

/// The only error that terminates the whole run: the connection could not
/// be established within the configured number of attempts.
#[derive(Clone, Copy, PartialEq, Eq, Structural, Debug)]
pub enum FatalError {
    RetriesExhausted,
}

/// What the caller of the state machine must do next.
#[derive(Clone, Copy, PartialEq, Eq, Structural, Debug)]
pub enum SupervisorAction {
    /// Attempt to establish a fresh connection.
    Connect,
    /// Spawn one worker per registered filter, sharing the new handle.
    SpawnWorkers(usize),
    /// Keep awaiting the workers that are still running.
    Wait,
    /// All workers exited: ask for the end-of-cycle decision.
    Decide,
    /// Sleep for the given delay, then begin the next connection attempt.
    Sleep(u64),
    /// Cancel the cycle token and stop; the run returns without error.
    CancelCycleAndStop,
    /// Stop; the run returns without error.
    StopOk,
    /// Stop; the run returns the fatal error.
    StopFatal(FatalError),
}

/// The cycle supervisor: owns the reconnect state machine of one run.
pub struct Supervisor {
    pub state: SupervisorState,
    pub attempts: u32,
    pub max_attempts: u32,
    pub delay_ms: u64,
    pub workers: Vec<WorkerPhase>,
}

impl Supervisor {
    /// The machine's invariant: the attempt counter stays below the limit
    /// until the machine stops, and the end-of-cycle decision is reached
    /// only once every worker of the cycle has exited.
    pub open spec fn wf(self) -> bool {
        &&& 1 <= self.max_attempts
        &&& self.attempts <= self.max_attempts
        &&& self.state != SupervisorState::Stopped ==> self.attempts < self.max_attempts
        &&& self.state == SupervisorState::Draining ==> forall|i: int|
            0 <= i < self.workers@.len() ==> self.workers@[i] == WorkerPhase::Exited
    }

    pub open spec fn spec_begin_connect(self, global_cancelled: bool) -> (Supervisor, SupervisorAction) {
        if global_cancelled {
            (Supervisor { state: SupervisorState::Stopped, ..self }, SupervisorAction::StopOk)
        } else {
            (Supervisor { state: SupervisorState::Connecting, ..self }, SupervisorAction::Connect)
        }
    }

    pub open spec fn spec_connect_failed(self) -> (Supervisor, SupervisorAction) {
        let a = (self.attempts + 1) as u32;
        if a >= self.max_attempts {
            (
                Supervisor { state: SupervisorState::Stopped, attempts: a, ..self },
                SupervisorAction::StopFatal(FatalError::RetriesExhausted),
            )
        } else {
            (
                Supervisor { state: SupervisorState::Backoff, attempts: a, ..self },
                SupervisorAction::Sleep(self.delay_ms),
            )
        }
    }

    pub open spec fn spec_cycle_done(self, global_cancelled: bool) -> (Supervisor, SupervisorAction) {
        if global_cancelled {
            (
                Supervisor { state: SupervisorState::Stopped, ..self },
                SupervisorAction::CancelCycleAndStop,
            )
        } else {
            (
                Supervisor { state: SupervisorState::Backoff, attempts: 0u32, ..self },
                SupervisorAction::Sleep(self.delay_ms),
            )
        }
    }

    pub fn new(max_attempts: u32, delay_ms: u64) -> (s: Supervisor)
        requires
            1 <= max_attempts,
        ensures
            s.wf(),
            s.state == SupervisorState::Idle,
            s.attempts == 0,
            s.max_attempts == max_attempts,
            s.delay_ms == delay_ms,
            s.workers@.len() == 0,
    {
        Supervisor {
            state: SupervisorState::Idle,
            attempts: 0,
            max_attempts,
            delay_ms,
            workers: Vec::new(),
        }
    }

    /// Top of the run loop: the global token is consulted before every
    /// connection attempt; once it is set, no further attempt is started.
    pub fn begin_connect(&mut self, global_cancelled: bool) -> (a: SupervisorAction)
        requires
            old(self).wf(),
            old(self).state == SupervisorState::Idle || old(self).state == SupervisorState::Backoff,
        ensures
            final(self).wf(),
            (*final(self), a) == old(self).spec_begin_connect(global_cancelled),
            global_cancelled ==> final(self).state == SupervisorState::Stopped
                && a == SupervisorAction::StopOk,
            !global_cancelled ==> final(self).state == SupervisorState::Connecting
                && a == SupervisorAction::Connect,
            final(self).attempts == old(self).attempts,
    {
        if global_cancelled {
            self.state = SupervisorState::Stopped;
            SupervisorAction::StopOk
        } else {
            self.state = SupervisorState::Connecting;
            SupervisorAction::Connect
        }
    }

    /// Connection establishment failed: the attempt counter grows by one,
    /// and the run stops with the fatal error exactly when it reaches the
    /// limit; otherwise the machine backs off for the fixed delay.
    pub fn connect_failed(&mut self) -> (a: SupervisorAction)
        requires
            old(self).wf(),
            old(self).state == SupervisorState::Connecting,
        ensures
            final(self).wf(),
            (*final(self), a) == old(self).spec_connect_failed(),
            final(self).attempts == old(self).attempts + 1,
            (a == SupervisorAction::StopFatal(FatalError::RetriesExhausted)) <==> (old(self).attempts
                + 1 == old(self).max_attempts),
            final(self).state == SupervisorState::Stopped <==> old(self).attempts + 1
                == old(self).max_attempts,
            old(self).attempts + 1 < old(self).max_attempts ==> final(self).state
                == SupervisorState::Backoff && a == SupervisorAction::Sleep(old(self).delay_ms),
    {
        self.attempts = self.attempts + 1;
        if self.attempts >= self.max_attempts {
            self.state = SupervisorState::Stopped;
            SupervisorAction::StopFatal(FatalError::RetriesExhausted)
        } else {
            self.state = SupervisorState::Backoff;
            SupervisorAction::Sleep(self.delay_ms)
        }
    }

    /// Connection establishment succeeded: exactly one worker per filter
    /// is spawned for the new cycle. With no filters, the cycle has
    /// nothing to await and moves straight to the end-of-cycle decision.
    /// The attempt counter is not reset here: that happens only once the
    /// cycle reaches the reconnect decision.
    pub fn connected(&mut self, filter_count: usize) -> (a: SupervisorAction)
        requires
            old(self).wf(),
            old(self).state == SupervisorState::Connecting,
        ensures
            final(self).wf(),
            a == SupervisorAction::SpawnWorkers(filter_count),
            final(self).workers@.len() == filter_count,
            forall|i: int| 0 <= i < filter_count ==> final(self).workers@[i]
                == WorkerPhase::Running,
            filter_count > 0 ==> final(self).state == SupervisorState::Running,
            filter_count == 0 ==> final(self).state == SupervisorState::Draining,
            final(self).attempts == old(self).attempts,
            final(self).max_attempts == old(self).max_attempts,
            final(self).delay_ms == old(self).delay_ms,
    {
        let mut workers: Vec<WorkerPhase> = Vec::new();
        let mut i: usize = 0;
        while i < filter_count
            invariant
                i <= filter_count,
                workers@.len() == i,
                forall|j: int| 0 <= j < i ==> workers@[j] == WorkerPhase::Running,
            decreases filter_count - i,
        {
            workers.push(WorkerPhase::Running);
            i = i + 1;
        }
        self.workers = workers;
        if filter_count > 0 {
            self.state = SupervisorState::Running;
        } else {
            self.state = SupervisorState::Draining;
        }
        SupervisorAction::SpawnWorkers(filter_count)
    }

    /// One worker of the cycle has exited (for whatever reason). Only that
    /// worker's entry changes: a worker's exit never touches its siblings.
    /// The machine reaches the end-of-cycle decision exactly when every
    /// worker has exited.
    pub fn worker_exited(&mut self, index: usize) -> (a: SupervisorAction)
        requires
            old(self).wf(),
            old(self).state == SupervisorState::Running,
            index < old(self).workers@.len(),
        ensures
            final(self).wf(),
            final(self).workers@ == old(self).workers@.update(index as int, WorkerPhase::Exited),
            forall|j: int| 0 <= j < old(self).workers@.len() && j != index
                ==> final(self).workers@[j] == old(self).workers@[j],
            final(self).attempts == old(self).attempts,
            final(self).max_attempts == old(self).max_attempts,
            final(self).delay_ms == old(self).delay_ms,
            (final(self).state == SupervisorState::Draining <==> forall|j: int|
                0 <= j < final(self).workers@.len() ==> final(self).workers@[j]
                    == WorkerPhase::Exited),
            final(self).state == SupervisorState::Draining || final(self).state
                == SupervisorState::Running,
            a == SupervisorAction::Decide <==> final(self).state == SupervisorState::Draining,
            a == SupervisorAction::Decide || a == SupervisorAction::Wait,
    {
        self.workers.set(index, WorkerPhase::Exited);
        let mut i: usize = 0;
        let mut all_exited = true;
        while i < self.workers.len()
            invariant
                i <= self.workers@.len(),
                all_exited <==> forall|j: int| 0 <= j < i ==> self.workers@[j]
                    == WorkerPhase::Exited,
            decreases self.workers@.len() - i,
        {
            if self.workers[i] != WorkerPhase::Exited {
                all_exited = false;
            }
            i = i + 1;
        }
        if all_exited {
            self.state = SupervisorState::Draining;
            SupervisorAction::Decide
        } else {
            SupervisorAction::Wait
        }
    }

    /// End-of-cycle decision, reached only once every worker has exited.
    /// With the global token set, the cycle token is cancelled and the run
    /// stops without error; otherwise the attempt counter is reset to zero
    /// and the machine backs off before reconnecting.
    pub fn cycle_done(&mut self, global_cancelled: bool) -> (a: SupervisorAction)
        requires
            old(self).wf(),
            old(self).state == SupervisorState::Draining,
        ensures
            final(self).wf(),
            (*final(self), a) == old(self).spec_cycle_done(global_cancelled),
            global_cancelled ==> final(self).state == SupervisorState::Stopped
                && a == SupervisorAction::CancelCycleAndStop,
            !global_cancelled ==> final(self).state == SupervisorState::Backoff
                && final(self).attempts == 0 && a == SupervisorAction::Sleep(old(self).delay_ms),
    {
        if global_cancelled {
            self.state = SupervisorState::Stopped;
            SupervisorAction::CancelCycleAndStop
        } else {
            self.attempts = 0;
            self.state = SupervisorState::Backoff;
            SupervisorAction::Sleep(self.delay_ms)
        }
    }
}

/// One failed connection attempt as seen by the run loop: the loop-top
/// cancellation check (with the token unset), then the failure.
pub open spec fn spec_failure_round(s: Supervisor) -> (Supervisor, SupervisorAction) {
    s.spec_begin_connect(false).0.spec_connect_failed()
}

/// The machine after `k` consecutive connection failures with no
/// intervening success.
pub open spec fn failure_rounds(s: Supervisor, k: nat) -> Supervisor
    decreases k,
{
    if k == 0 {
        s
    } else {
        spec_failure_round(failure_rounds(s, (k - 1) as nat)).0
    }
}

proof fn lemma_rounds_below_limit(s: Supervisor, k: nat)
    requires
        s.wf(),
        s.state == SupervisorState::Idle || s.state == SupervisorState::Backoff,
        s.attempts == 0,
        k < s.max_attempts,
    ensures
        failure_rounds(s, k).attempts == k,
        failure_rounds(s, k).max_attempts == s.max_attempts,
        failure_rounds(s, k).delay_ms == s.delay_ms,
        k == 0 ==> failure_rounds(s, k) == s,
        k > 0 ==> failure_rounds(s, k).state == SupervisorState::Backoff,
    decreases k,
{
    if k > 0 {
        lemma_rounds_below_limit(s, (k - 1) as nat);
    }
}

/// After exactly `max_attempts` consecutive connection-establishment
/// failures with no intervening success, the run stops with the fatal
/// retries-exhausted error — and at no earlier failure.
pub proof fn lemma_retry_exhaustion(s: Supervisor, j: nat)
    requires
        s.wf(),
        s.state == SupervisorState::Idle,
        s.attempts == 0,
        1 <= j <= s.max_attempts,
    ensures
        j < s.max_attempts ==> spec_failure_round(failure_rounds(s, (j - 1) as nat)).1
            == SupervisorAction::Sleep(s.delay_ms) && failure_rounds(s, j).state
            == SupervisorState::Backoff,
        j == s.max_attempts ==> spec_failure_round(failure_rounds(s, (j - 1) as nat)).1
            == SupervisorAction::StopFatal(FatalError::RetriesExhausted) && failure_rounds(
            s,
            j,
        ).state == SupervisorState::Stopped,
{
    lemma_rounds_below_limit(s, (j - 1) as nat);
}

/// Once the global cancellation token is set, no decision point of the
/// machine starts another connection attempt, and the run stops without
/// error: at the loop top it stops at once, and at the end-of-cycle
/// decision it cancels the cycle token and stops.
pub proof fn lemma_cancelled_never_reconnects(s: Supervisor)
    requires
        s.wf(),
    ensures
        s.spec_begin_connect(true).1 == SupervisorAction::StopOk,
        s.spec_begin_connect(true).0.state == SupervisorState::Stopped,
        s.spec_cycle_done(true).1 == SupervisorAction::CancelCycleAndStop,
        s.spec_cycle_done(true).0.state == SupervisorState::Stopped,
{
}

/// One worker's exit — whatever its reason: a failed subscription open,
/// a decode error, a rejected send or a closed stream — changes that
/// worker's entry alone: recording it leaves the phase of every sibling
/// worker of the cycle as it was.
pub proof fn lemma_worker_isolation(s: Supervisor, index: int, j: int)
    requires
        0 <= index < s.workers@.len(),
        0 <= j < s.workers@.len(),
        j != index,
    ensures
        s.workers@.update(index, WorkerPhase::Exited)[j] == s.workers@[j],
{
}

/// A cycle's supervisor reaches the end-of-cycle (reconnect) decision
/// only once every one of its workers has exited.
pub proof fn lemma_drain_waits_for_all(s: Supervisor)
    requires
        s.wf(),
        s.state == SupervisorState::Draining,
    ensures
        forall|i: int| 0 <= i < s.workers@.len() ==> s.workers@[i] == WorkerPhase::Exited,
{
}

} // verus!
