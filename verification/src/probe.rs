//! Readiness probing: a bounded retry loop with a fixed pause, as a state
//! machine.
//!
//! The probe never touches the network or the clock. Its state says which
//! single operation the host has to perform next ([`ProbeAction`]); the host
//! performs it and reports the outcome ([`ProbeEvent`]).

use crate::log::{supervisor_prefix, LogLine, LogLineView, Sink};
use crate::text::{decimal, decimal_string};
use vstd::prelude::*;

verus! {

/// Time allowed for one connection attempt, in milliseconds.
pub const CONNECT_TIMEOUT_MS: u64 = 500;

/// Pause after a refused attempt, in milliseconds.
pub const RETRY_INTERVAL_MS: u64 = 1000;

/// Where the probe stands.
#[derive(Clone, Copy, Debug, PartialEq, Eq, Structural)]
pub enum ProbePhase {
    /// A connection attempt is due or under way.
    Connecting,
    /// The last attempt was refused; the pause before the next is due.
    Sleeping,
    /// An attempt connected: the endpoint is ready.
    Ready,
    /// Every allowed attempt was refused.
    Exhausted,
}

/// What the host reports back to the probe.
#[derive(Clone, Copy, Debug, PartialEq, Eq, Structural)]
pub enum ProbeEvent {
    /// The connection was established (and closed again at once).
    Connected,
    /// The attempt failed or timed out.
    Refused,
    /// The pause has elapsed.
    Slept,
}

/// The one operation the host has to perform next.
#[derive(Clone, Copy, Debug, PartialEq, Eq, Structural)]
pub enum ProbeAction {
    /// Try a plain TCP connection to the loopback address on `port`, giving
    /// up after `timeout_ms`.
    Connect { port: u16, timeout_ms: u64 },
    /// Pause for `ms` milliseconds.
    Sleep { ms: u64 },
    /// Probing is over; `ready` is its result.
    Finish { ready: bool },
}

/// A readiness probe for one endpoint.
#[derive(Clone, Copy, Debug, PartialEq, Eq)]
pub struct ReadinessProbe {
    port: u16,
    max_attempts: u32,
    attempts: u32,
    phase: ProbePhase,
}

/// The mathematical content of a [`ReadinessProbe`].
pub struct ProbeView {
    pub port: u16,
    /// The number of attempts allowed.
    pub max_attempts: nat,
    /// The number of attempts started so far.
    pub attempts: nat,
    pub phase: ProbePhase,
}

impl ProbeView {
    /// The attempt counter is consistent with the phase: an unfinished or
    /// successful probe has started between one and `max_attempts` attempts,
    /// an exhausted one all of them.
    pub open spec fn wf(self) -> bool {
        match self.phase {
            ProbePhase::Exhausted => self.attempts == self.max_attempts,
            _ => 1 <= self.attempts <= self.max_attempts,
        }
    }

    /// Whether probing is over.
    pub open spec fn finished(self) -> bool {
        self.phase == ProbePhase::Ready || self.phase == ProbePhase::Exhausted
    }
}

/// The probe as it starts: on its first attempt, or exhausted at once when
/// no attempt is allowed.
pub open spec fn probe_initial(port: u16, max_attempts: nat) -> ProbeView {
    if max_attempts == 0 {
        ProbeView { port, max_attempts, attempts: 0, phase: ProbePhase::Exhausted }
    } else {
        ProbeView { port, max_attempts, attempts: 1, phase: ProbePhase::Connecting }
    }
}

/// The state after an event. An event that the current phase does not wait
/// for changes nothing.
pub open spec fn probe_next(s: ProbeView, event: ProbeEvent) -> ProbeView {
    match (s.phase, event) {
        (ProbePhase::Connecting, ProbeEvent::Connected) => ProbeView {
            phase: ProbePhase::Ready,
            ..s
        },
        (ProbePhase::Connecting, ProbeEvent::Refused) => ProbeView {
            phase: ProbePhase::Sleeping,
            ..s
        },
        (ProbePhase::Sleeping, ProbeEvent::Slept) => if s.attempts < s.max_attempts {
            ProbeView { phase: ProbePhase::Connecting, attempts: s.attempts + 1, ..s }
        } else {
            ProbeView { phase: ProbePhase::Exhausted, ..s }
        },
        _ => s,
    }
}

/// The operation that a state asks of the host.
pub open spec fn probe_action(s: ProbeView) -> ProbeAction {
    match s.phase {
        ProbePhase::Connecting => ProbeAction::Connect {
            port: s.port,
            timeout_ms: CONNECT_TIMEOUT_MS,
        },
        ProbePhase::Sleeping => ProbeAction::Sleep { ms: RETRY_INTERVAL_MS },
        ProbePhase::Ready => ProbeAction::Finish { ready: true },
        ProbePhase::Exhausted => ProbeAction::Finish { ready: false },
    }
}

impl View for ReadinessProbe {
    type V = ProbeView;

    closed spec fn view(&self) -> ProbeView {
        ProbeView {
            port: self.port,
            max_attempts: self.max_attempts as nat,
            attempts: self.attempts as nat,
            phase: self.phase,
        }
    }
}

impl ReadinessProbe {
    /// A probe of the loopback endpoint on `port` that allows
    /// `max_wait_seconds` attempts, one per second.
    pub fn new(port: u16, max_wait_seconds: u32) -> (probe: ReadinessProbe)
        ensures
            probe@ == probe_initial(port, max_wait_seconds as nat),
            probe@.wf(),
    {
        if max_wait_seconds == 0 {
            ReadinessProbe { port, max_attempts: 0, attempts: 0, phase: ProbePhase::Exhausted }
        } else {
            ReadinessProbe {
                port,
                max_attempts: max_wait_seconds,
                attempts: 1,
                phase: ProbePhase::Connecting,
            }
        }
    }

    /// The operation the host has to perform now.
    pub fn pending(&self) -> (action: ProbeAction)
        ensures
            action == probe_action(self@),
    {
        match self.phase {
            ProbePhase::Connecting => ProbeAction::Connect {
                port: self.port,
                timeout_ms: CONNECT_TIMEOUT_MS,
            },
            ProbePhase::Sleeping => ProbeAction::Sleep { ms: RETRY_INTERVAL_MS },
            ProbePhase::Ready => ProbeAction::Finish { ready: true },
            ProbePhase::Exhausted => ProbeAction::Finish { ready: false },
        }
    }

    /// Takes in the outcome of the operation last asked for and says what to
    /// do next.
    pub fn step(&mut self, event: ProbeEvent) -> (action: ProbeAction)
        ensures
            final(self)@ == probe_next(old(self)@, event),
            action == probe_action(final(self)@),
            old(self)@.wf() ==> final(self)@.wf(),
    {
        match (self.phase, event) {
            (ProbePhase::Connecting, ProbeEvent::Connected) => {
                self.phase = ProbePhase::Ready;
            },
            (ProbePhase::Connecting, ProbeEvent::Refused) => {
                self.phase = ProbePhase::Sleeping;
            },
            (ProbePhase::Sleeping, ProbeEvent::Slept) => {
                if self.attempts < self.max_attempts {
                    self.attempts = self.attempts + 1;
                    self.phase = ProbePhase::Connecting;
                } else {
                    self.phase = ProbePhase::Exhausted;
                }
            },
            _ => {},
        }
        self.pending()
    }

    /// The port probed.
    pub fn port(&self) -> (port: u16)
        ensures
            port == self@.port,
    {
        self.port
    }

    /// The number of attempts allowed.
    pub fn max_attempts(&self) -> (n: u32)
        ensures
            n == self@.max_attempts,
    {
        self.max_attempts
    }

    /// The number of attempts started so far.
    pub fn attempts(&self) -> (n: u32)
        ensures
            n == self@.attempts,
    {
        self.attempts
    }

    /// Where the probe stands.
    pub fn phase(&self) -> (phase: ProbePhase)
        ensures
            phase == self@.phase,
    {
        self.phase
    }

    /// The probe's result once it is over: `Some(true)` when an attempt
    /// connected, `Some(false)` when all were refused.
    pub fn result(&self) -> (result: Option<bool>)
        ensures
            result == probe_result(self@),
    {
        match self.phase {
            ProbePhase::Ready => Some(true),
            ProbePhase::Exhausted => Some(false),
            _ => None,
        }
    }
}

/// The result of a finished probe; `None` while it is still running.
pub open spec fn probe_result(s: ProbeView) -> Option<bool> {
    match s.phase {
        ProbePhase::Ready => Some(true),
        ProbePhase::Exhausted => Some(false),
        _ => None,
    }
}

/// The address probed: the loopback address and the port, as text.
pub open spec fn probe_address(port: u16) -> Seq<char> {
    "127.0.0.1:"@ + decimal(port as nat)
}

/// The text that reports success on the given attempt.
pub open spec fn ready_notice(attempt: nat, max_attempts: nat) -> Seq<char> {
    supervisor_prefix() + "Sidecar ready (attempt "@ + decimal(attempt) + "/"@ + decimal(
        max_attempts,
    ) + ")"@
}

/// The text that warns that the endpoint never became reachable.
pub open spec fn timeout_warning(max_attempts: nat) -> Seq<char> {
    supervisor_prefix() + "WARNING: Sidecar not ready after "@ + decimal(max_attempts)
        + " seconds"@
}

/// The line that reports a finished probe: a notice on standard output after
/// success, a warning on standard error after exhaustion. A running probe
/// reports nothing.
pub open spec fn probe_report(s: ProbeView) -> Option<LogLineView> {
    match s.phase {
        ProbePhase::Ready => Some(
            LogLineView { sink: Sink::Stdout, text: ready_notice(s.attempts, s.max_attempts) },
        ),
        ProbePhase::Exhausted => Some(
            LogLineView { sink: Sink::Stderr, text: timeout_warning(s.max_attempts) },
        ),
        _ => None,
    }
}

impl ReadinessProbe {
    /// The address to connect to, `127.0.0.1:<port>`.
    pub fn address(&self) -> (address: String)
        ensures
            address@ == probe_address(self@.port),
    {
        let port_text = decimal_string(self.port as u64);
        String::from_str("127.0.0.1:").concat(port_text.as_str())
    }

    /// The line to log when probing is over.
    pub fn report(&self) -> (line: Option<LogLine>)
        ensures
            match line {
                Some(l) => probe_report(self@) == Some(l@),
                None => probe_report(self@) is None,
            },
    {
        match self.phase {
            ProbePhase::Ready => {
                let attempt_text = decimal_string(self.attempts as u64);
                let max_text = decimal_string(self.max_attempts as u64);
                let text = String::from_str("[Supervisor] ").concat(
                    "Sidecar ready (attempt ",
                ).concat(attempt_text.as_str()).concat("/").concat(max_text.as_str()).concat(")");
                Some(LogLine::new(Sink::Stdout, text))
            },
            ProbePhase::Exhausted => {
                let max_text = decimal_string(self.max_attempts as u64);
                let text = String::from_str("[Supervisor] ").concat(
                    "WARNING: Sidecar not ready after ",
                ).concat(max_text.as_str()).concat(" seconds");
                Some(LogLine::new(Sink::Stderr, text))
            },
            _ => None,
        }
    }
}

/// The state after one connection attempt with the given outcome, the pause
/// that follows a refusal included. A probe that is over makes no attempt.
pub open spec fn probe_attempt(s: ProbeView, connected: bool) -> ProbeView {
    if s.phase != ProbePhase::Connecting {
        s
    } else if connected {
        probe_next(s, ProbeEvent::Connected)
    } else {
        probe_next(probe_next(s, ProbeEvent::Refused), ProbeEvent::Slept)
    }
}

/// The state after probing an endpoint whose successive connection attempts
/// would have the given outcomes.
pub open spec fn probe_run(s: ProbeView, outcomes: Seq<bool>) -> ProbeView
    decreases outcomes.len(),
{
    if outcomes.len() == 0 {
        s
    } else {
        probe_attempt(probe_run(s, outcomes.drop_last()), outcomes.last())
    }
}

/// Against an endpoint that never accepts a connection, a probe allowed
/// `max_attempts` attempts is still connecting, on attempt number `k + 1`,
/// after `k < max_attempts` refusals, and is exhausted, with exactly
/// `max_attempts` attempts made and a negative result, once `max_attempts`
/// refusals have been seen. No further attempt is made, however long the
/// endpoint stays unreachable.
pub proof fn lemma_unreachable_endpoint_exhausts_probe(
    port: u16,
    max_attempts: nat,
    outcomes: Seq<bool>,
)
    requires
        forall|i: int| 0 <= i < outcomes.len() ==> !outcomes[i],
    ensures
        outcomes.len() < max_attempts ==> probe_run(probe_initial(port, max_attempts), outcomes)
            == (ProbeView {
            port,
            max_attempts,
            attempts: outcomes.len() + 1,
            phase: ProbePhase::Connecting,
        }),
        outcomes.len() >= max_attempts ==> probe_run(probe_initial(port, max_attempts), outcomes)
            == (ProbeView {
            port,
            max_attempts,
            attempts: max_attempts,
            phase: ProbePhase::Exhausted,
        }),
        outcomes.len() >= max_attempts ==> probe_result(
            probe_run(probe_initial(port, max_attempts), outcomes),
        ) == Some(false),
    decreases outcomes.len(),
{
    if outcomes.len() > 0 {
        lemma_unreachable_endpoint_exhausts_probe(port, max_attempts, outcomes.drop_last());
    }
}

/// Against an endpoint that first accepts a connection on attempt `k`, with
/// `k` within the attempts allowed, the probe ends ready after exactly `k`
/// attempts: whatever the later attempts would have given, none is made.
pub proof fn lemma_first_success_ends_probe(
    port: u16,
    max_attempts: nat,
    outcomes: Seq<bool>,
    k: nat,
)
    requires
        1 <= k <= max_attempts,
        k <= outcomes.len(),
        outcomes[k - 1],
        forall|i: int| 0 <= i < k - 1 ==> !outcomes[i],
    ensures
        probe_run(probe_initial(port, max_attempts), outcomes) == (ProbeView {
            port,
            max_attempts,
            attempts: k,
            phase: ProbePhase::Ready,
        }),
        probe_result(probe_run(probe_initial(port, max_attempts), outcomes)) == Some(true),
    decreases outcomes.len(),
{
    if outcomes.len() == k {
        lemma_unreachable_endpoint_exhausts_probe(port, max_attempts, outcomes.drop_last());
    } else {
        lemma_first_success_ends_probe(port, max_attempts, outcomes.drop_last(), k);
    }
}

/// A probe that is over stays as it is: no event changes its state, and it
/// keeps answering with its result, never with another attempt or pause.
pub proof fn lemma_finished_probe_is_final(s: ProbeView, event: ProbeEvent)
    requires
        s.finished(),
    ensures
        probe_next(s, event) == s,
        probe_action(s) is Finish,
{
}

/// A step keeps the attempt counter within the attempts allowed, and starts
/// a new attempt only by asking for a connection.
pub proof fn lemma_probe_never_exceeds_attempts(s: ProbeView, event: ProbeEvent)
    requires
        s.wf(),
    ensures
        probe_next(s, event).wf(),
        probe_next(s, event).attempts <= s.max_attempts,
        s.attempts <= probe_next(s, event).attempts <= s.attempts + 1,
        probe_next(s, event).attempts == s.attempts + 1 ==> probe_action(probe_next(s, event))
            is Connect,
{
}

/// Attempts are a pause apart: after a refused attempt the probe asks for
/// the fixed pause and for nothing else, and only the end of that pause
/// leads to the next attempt or to giving up.
pub proof fn lemma_refusal_is_followed_by_pause(s: ProbeView)
    requires
        s.wf(),
        s.phase == ProbePhase::Connecting,
    ensures
        probe_action(probe_next(s, ProbeEvent::Refused)) == (ProbeAction::Sleep {
            ms: RETRY_INTERVAL_MS,
        }),
        probe_next(probe_next(s, ProbeEvent::Refused), ProbeEvent::Connected) == probe_next(
            s,
            ProbeEvent::Refused,
        ),
        probe_next(probe_next(s, ProbeEvent::Refused), ProbeEvent::Refused) == probe_next(
            s,
            ProbeEvent::Refused,
        ),
        probe_attempt(s, false).attempts == (if s.attempts < s.max_attempts {
            s.attempts + 1
        } else {
            s.attempts
        }),
{
}

} // verus!
