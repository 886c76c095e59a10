//! Supervision of network liveness: the connectivity state, the initial
//! handshakes, and recovery with periodic radio cycling and a final
//! escalation.

use vstd::prelude::*;

verus! {

/// Whether the network can be used.
#[derive(Clone, Copy, Debug, PartialEq, Eq, Structural)]
pub enum ConnectivityState {
    Down,
    Connecting,
    Up,
}

/// How hard to try before giving the process up.
#[derive(Clone, Copy, Debug, PartialEq, Eq, Structural)]
pub struct RecoveryPolicy {
    /// Failed handshakes in a row after which connecting is given up.
    pub handshake_limit: u32,
    /// Every attempt whose number is a multiple of this cycles the radio
    /// stack before reconnecting; zero never cycles.
    pub cycle_every: u32,
    /// Recovery attempts in a row after which the supervisor escalates.
    pub ceiling: u32,
}

impl RecoveryPolicy {
    /// Whether the attempt with this number cycles the radio stack first.
    pub open spec fn cycles_at(self, attempt: u32) -> bool {
        self.cycle_every > 0 && attempt % self.cycle_every == 0
    }

    /// Whether the attempt with this number cycles the radio stack first.
    pub fn cycles(&self, attempt: u32) -> (cycle: bool)
        ensures
            cycle == self.cycles_at(attempt),
    {
        self.cycle_every > 0 && attempt % self.cycle_every == 0
    }
}

/// How a handshake ended, and what follows.
#[derive(Clone, Copy, Debug, PartialEq, Eq, Structural)]
pub enum ConnectVerdict {
    /// The network is up.
    Connected,
    /// The handshake failed; try again after a pause.
    Retry,
    /// The handshake failed once too often: restart the process.
    Fatal,
}

/// What to do about a network that is down.
#[derive(Clone, Copy, Debug, PartialEq, Eq, Structural)]
pub enum RecoveryStep {
    /// Ask for a reconnect.
    Reconnect,
    /// Stop the radio stack, pause, start it, then ask for a reconnect.
    CycleThenReconnect,
    /// Nothing weaker has helped: restart the process.
    Escalate,
    /// There is nothing to recover from, or the escalation has been
    /// signalled already.
    Nothing,
}

/// The owner of the connectivity state. Everyone else reads it.
#[derive(Clone, Copy, Debug, PartialEq, Eq, Structural)]
pub struct ConnectivitySupervisor {
    pub(crate) policy: RecoveryPolicy,
    pub(crate) state: ConnectivityState,
    pub(crate) handshake_failures: u32,
    pub(crate) recovery_attempts: u32,
    pub(crate) escalated: bool,
}

impl ConnectivitySupervisor {
    pub open(crate) spec fn policy(self) -> RecoveryPolicy {
        self.policy
    }

    pub open(crate) spec fn state(self) -> ConnectivityState {
        self.state
    }

    /// Handshakes that failed since the network was last up.
    pub open(crate) spec fn failed_handshakes(self) -> u32 {
        self.handshake_failures
    }

    /// Recovery attempts made since the network was last up.
    pub open(crate) spec fn attempts(self) -> u32 {
        self.recovery_attempts
    }

    /// Whether the escalation has been signalled.
    pub open(crate) spec fn has_escalated(self) -> bool {
        self.escalated
    }

    /// A supervisor at boot: the network is down and nothing was tried.
    pub open(crate) spec fn fresh(policy: RecoveryPolicy) -> Self {
        ConnectivitySupervisor {
            policy,
            state: ConnectivityState::Down,
            handshake_failures: 0,
            recovery_attempts: 0,
            escalated: false,
        }
    }

    /// Never more recovery attempts than the ceiling.
    pub open spec fn wf(self) -> bool {
        self.attempts() <= self.policy().ceiling
    }

    /// A handshake starts from `Down`; in any other state nothing changes.
    pub open(crate) spec fn after_begin_connect(self) -> Self {
        if self.state == ConnectivityState::Down {
            ConnectivitySupervisor { state: ConnectivityState::Connecting, ..self }
        } else {
            self
        }
    }

    /// Failed handshakes in a row once one more has failed. The count stops
    /// at the largest number it can hold.
    pub open spec fn failed_handshakes_after_failure(self) -> u32 {
        if self.failed_handshakes() == u32::MAX {
            u32::MAX
        } else {
            (self.failed_handshakes() + 1) as u32
        }
    }

    /// A handshake that succeeds brings the network up; one that fails is
    /// counted, and is fatal once the count reaches the handshake limit.
    pub open spec fn connect_verdict(self, connected: bool) -> ConnectVerdict {
        if connected {
            ConnectVerdict::Connected
        } else if self.failed_handshakes_after_failure() >= self.policy().handshake_limit {
            ConnectVerdict::Fatal
        } else {
            ConnectVerdict::Retry
        }
    }

    pub open(crate) spec fn after_connect(self, connected: bool) -> Self {
        if connected {
            ConnectivitySupervisor {
                state: ConnectivityState::Up,
                handshake_failures: 0,
                recovery_attempts: 0,
                ..self
            }
        } else {
            ConnectivitySupervisor {
                state: ConnectivityState::Down,
                handshake_failures: self.failed_handshakes_after_failure(),
                ..self
            }
        }
    }

    /// A liveness check that finds the network up resets the counts; one
    /// that does not leaves them and puts the state to `Down`.
    pub open(crate) spec fn after_liveness(self, up: bool) -> Self {
        if up {
            ConnectivitySupervisor {
                state: ConnectivityState::Up,
                handshake_failures: 0,
                recovery_attempts: 0,
                ..self
            }
        } else {
            ConnectivitySupervisor { state: ConnectivityState::Down, ..self }
        }
    }

    /// What `recover` answers in this state.
    pub open spec fn recovery_step(self) -> RecoveryStep {
        if self.state() != ConnectivityState::Down || self.has_escalated() {
            RecoveryStep::Nothing
        } else if self.attempts() >= self.policy().ceiling {
            RecoveryStep::Escalate
        } else if self.policy().cycles_at((self.attempts() + 1) as u32) {
            RecoveryStep::CycleThenReconnect
        } else {
            RecoveryStep::Reconnect
        }
    }

    pub open(crate) spec fn after_recover(self) -> Self {
        match self.recovery_step() {
            RecoveryStep::Nothing => self,
            RecoveryStep::Escalate => ConnectivitySupervisor { escalated: true, ..self },
            _ => ConnectivitySupervisor {
                state: ConnectivityState::Connecting,
                recovery_attempts: (self.recovery_attempts + 1) as u32,
                ..self
            },
        }
    }

    /// The supervisor after `rounds` rounds, each of which is one call of
    /// `recover` followed by a liveness check that finds the network down.
    pub open spec fn after_failed_rounds(self, rounds: nat) -> Self
        decreases rounds,
    {
        if rounds == 0 {
            self
        } else {
            self.after_failed_rounds((rounds - 1) as nat).after_recover().after_liveness(false)
        }
    }

    /// A supervisor at boot.
    pub fn new(policy: RecoveryPolicy) -> (supervisor: Self)
        ensures
            supervisor == Self::fresh(policy),
            supervisor.wf(),
            supervisor.policy() == policy,
            supervisor.state() == ConnectivityState::Down,
            supervisor.failed_handshakes() == 0,
            supervisor.attempts() == 0,
            !supervisor.has_escalated(),
    {
        ConnectivitySupervisor {
            policy,
            state: ConnectivityState::Down,
            handshake_failures: 0,
            recovery_attempts: 0,
            escalated: false,
        }
    }

    pub fn connectivity(&self) -> (state: ConnectivityState)
        ensures
            state == self.state(),
    {
        self.state
    }

    pub fn is_up(&self) -> (up: bool)
        ensures
            up == (self.state() == ConnectivityState::Up),
    {
        match self.state {
            ConnectivityState::Up => true,
            _ => false,
        }
    }

    /// Recovery attempts made since the network was last up.
    pub fn reconnect_attempt_count(&self) -> (attempts: u32)
        ensures
            attempts == self.attempts(),
    {
        self.recovery_attempts
    }

    pub fn failed_handshake_count(&self) -> (failures: u32)
        ensures
            failures == self.failed_handshakes(),
    {
        self.handshake_failures
    }

    pub fn escalated(&self) -> (escalated: bool)
        ensures
            escalated == self.has_escalated(),
    {
        self.escalated
    }

    /// Notes that a handshake is under way.
    pub fn begin_connect(&mut self)
        ensures
            *final(self) == old(self).after_begin_connect(),
            old(self).state() == ConnectivityState::Down ==> final(self).state()
                == ConnectivityState::Connecting,
            old(self).state() != ConnectivityState::Down ==> final(self).state()
                == old(self).state(),
            final(self).policy() == old(self).policy(),
            final(self).failed_handshakes() == old(self).failed_handshakes(),
            final(self).attempts() == old(self).attempts(),
            final(self).has_escalated() == old(self).has_escalated(),
            old(self).wf() ==> final(self).wf(),
    {
        match self.state {
            ConnectivityState::Down => {
                self.state = ConnectivityState::Connecting;
            },
            _ => {},
        }
    }

    /// Takes note of how a handshake ended.
    pub fn connect_finished(&mut self, connected: bool) -> (verdict: ConnectVerdict)
        ensures
            verdict == old(self).connect_verdict(connected),
            *final(self) == old(self).after_connect(connected),
            verdict is Connected <==> connected,
            connected ==> {
                &&& final(self).state() == ConnectivityState::Up
                &&& final(self).failed_handshakes() == 0
                &&& final(self).attempts() == 0
            },
            !connected ==> {
                &&& final(self).state() == ConnectivityState::Down
                &&& final(self).failed_handshakes() == old(self).failed_handshakes_after_failure()
                &&& final(self).attempts() == old(self).attempts()
            },
            final(self).policy() == old(self).policy(),
            final(self).has_escalated() == old(self).has_escalated(),
            old(self).wf() ==> final(self).wf(),
    {
        if connected {
            self.state = ConnectivityState::Up;
            self.handshake_failures = 0;
            self.recovery_attempts = 0;
            return ConnectVerdict::Connected;
        }
        self.state = ConnectivityState::Down;
        if self.handshake_failures < u32::MAX {
            self.handshake_failures = self.handshake_failures + 1;
        }
        if self.handshake_failures >= self.policy.handshake_limit {
            ConnectVerdict::Fatal
        } else {
            ConnectVerdict::Retry
        }
    }

    /// Takes note of what the network said of itself. Asking the network is
    /// the caller's part, and is not to block.
    pub fn poll_liveness(&mut self, up: bool) -> (state: ConnectivityState)
        ensures
            *final(self) == old(self).after_liveness(up),
            state == final(self).state(),
            up ==> {
                &&& state == ConnectivityState::Up
                &&& final(self).attempts() == 0
                &&& final(self).failed_handshakes() == 0
            },
            !up ==> {
                &&& state == ConnectivityState::Down
                &&& final(self).attempts() == old(self).attempts()
                &&& final(self).failed_handshakes() == old(self).failed_handshakes()
            },
            final(self).policy() == old(self).policy(),
            final(self).has_escalated() == old(self).has_escalated(),
            old(self).wf() ==> final(self).wf(),
    {
        if up {
            self.state = ConnectivityState::Up;
            self.handshake_failures = 0;
            self.recovery_attempts = 0;
        } else {
            self.state = ConnectivityState::Down;
        }
        self.state
    }

    /// Decides how to recover from a network that is down, and counts the
    /// attempt. Up to the ceiling every attempt reconnects, and every
    /// `cycle_every`-th cycles the radio stack first. The attempt after the
    /// ceiling escalates, once; after that, and while the network is not
    /// down, the answer is `Nothing`.
    pub fn recover(&mut self) -> (step: RecoveryStep)
        ensures
            step == old(self).recovery_step(),
            *final(self) == old(self).after_recover(),
            final(self).policy() == old(self).policy(),
            final(self).failed_handshakes() == old(self).failed_handshakes(),
            step is Nothing ==> *final(self) == *old(self),
            step is Escalate ==> final(self).has_escalated() && final(self).state()
                == ConnectivityState::Down && final(self).attempts() == old(self).attempts(),
            step is Reconnect || step is CycleThenReconnect ==> final(self).state()
                == ConnectivityState::Connecting && final(self).attempts() == old(self).attempts()
                + 1 && !final(self).has_escalated(),
            old(self).wf() ==> final(self).wf(),
    {
        match self.state {
            ConnectivityState::Down => {},
            _ => {
                return RecoveryStep::Nothing;
            },
        }
        if self.escalated {
            return RecoveryStep::Nothing;
        }
        if self.recovery_attempts >= self.policy.ceiling {
            self.escalated = true;
            return RecoveryStep::Escalate;
        }
        self.recovery_attempts = self.recovery_attempts + 1;
        self.state = ConnectivityState::Connecting;
        if self.policy.cycles(self.recovery_attempts) {
            RecoveryStep::CycleThenReconnect
        } else {
            RecoveryStep::Reconnect
        }
    }
}

/// The answer to the `n`-th call of `recover` in a row, counted from one,
/// each of the calls before it having been followed by a liveness check that
/// found the network down.
pub open spec fn nth_recovery(supervisor: ConnectivitySupervisor, n: nat) -> RecoveryStep
    recommends
        n >= 1,
{
    supervisor.after_failed_rounds((n - 1) as nat).recovery_step()
}

/// Escalation comes exactly once: a supervisor that finds the network down
/// with no attempt made yet answers attempts `1` to `ceiling` with a
/// reconnect, cycling the radio stack first on the multiples of
/// `cycle_every`; it escalates at attempt `ceiling + 1`, not before and not
/// after.
pub proof fn law_escalation_exactly_once(supervisor: ConnectivitySupervisor, n: nat)
    requires
        supervisor.state() == ConnectivityState::Down,
        supervisor.attempts() == 0,
        !supervisor.has_escalated(),
        n >= 1,
    ensures
        nth_recovery(supervisor, n) is Escalate <==> n == supervisor.policy().ceiling + 1,
        n <= supervisor.policy().ceiling ==> nth_recovery(supervisor, n) == (if supervisor.policy()
            .cycles_at(n as u32) {
            RecoveryStep::CycleThenReconnect
        } else {
            RecoveryStep::Reconnect
        }),
        n > supervisor.policy().ceiling + 1 ==> nth_recovery(supervisor, n) is Nothing,
{
    lemma_failed_rounds(supervisor, (n - 1) as nat);
}

proof fn lemma_failed_rounds(supervisor: ConnectivitySupervisor, rounds: nat)
    requires
        supervisor.state() == ConnectivityState::Down,
        supervisor.attempts() == 0,
        !supervisor.has_escalated(),
    ensures
        ({
            let end = supervisor.after_failed_rounds(rounds);
            &&& end.policy() == supervisor.policy()
            &&& end.state() == ConnectivityState::Down
            &&& end.failed_handshakes() == supervisor.failed_handshakes()
            &&& rounds <= supervisor.policy().ceiling ==> end.attempts() == rounds
                && !end.has_escalated()
            &&& rounds > supervisor.policy().ceiling ==> end.attempts()
                == supervisor.policy().ceiling && end.has_escalated()
        }),
    decreases rounds,
{
    if rounds > 0 {
        lemma_failed_rounds(supervisor, (rounds - 1) as nat);
    }
}

/// Reaching `Up` resets the count of recovery attempts, so the ceiling
/// counts attempts in a row only.
pub proof fn law_up_resets_attempts(supervisor: ConnectivitySupervisor)
    ensures
        supervisor.after_liveness(true).attempts() == 0,
        supervisor.after_liveness(true).state() == ConnectivityState::Up,
        supervisor.after_connect(true).attempts() == 0,
        supervisor.after_connect(true).state() == ConnectivityState::Up,
{
}

/// Connecting is given up at the `handshake_limit`-th failed handshake in a
/// row, or at the first where the limit is zero.
pub proof fn law_handshake_limit(supervisor: ConnectivitySupervisor)
    ensures
        supervisor.connect_verdict(false) is Fatal <==> supervisor.failed_handshakes() + 1
            >= supervisor.policy().handshake_limit || supervisor.failed_handshakes() == u32::MAX,
        supervisor.connect_verdict(true) is Connected,
{
}

} // verus!
