use skima_sidecar::log::{LogLine, Sink};
use skima_sidecar::probe::{
    ProbeAction, ProbeEvent, ProbePhase, ReadinessProbe, CONNECT_TIMEOUT_MS, RETRY_INTERVAL_MS,
};

/// Drives a probe against an endpoint that accepts connections from the
/// attempt numbered `ready_from` on (never, when `None`). Returns the result
/// with the numbers of connection attempts and of pauses.
fn drive(probe: &mut ReadinessProbe, ready_from: Option<u32>) -> (bool, u32, u32) {
    let mut connects: u32 = 0;
    let mut sleeps: u32 = 0;
    let mut action = probe.pending();
    loop {
        match action {
            ProbeAction::Connect { port, timeout_ms } => {
                assert_eq!(port, probe.port());
                assert_eq!(timeout_ms, CONNECT_TIMEOUT_MS);
                connects += 1;
                assert_eq!(probe.attempts(), connects);
                let accepted = match ready_from {
                    Some(k) => connects >= k,
                    None => false,
                };
                action = probe.step(if accepted {
                    ProbeEvent::Connected
                } else {
                    ProbeEvent::Refused
                });
            }
            ProbeAction::Sleep { ms } => {
                assert_eq!(ms, RETRY_INTERVAL_MS);
                sleeps += 1;
                action = probe.step(ProbeEvent::Slept);
            }
            ProbeAction::Finish { ready } => return (ready, connects, sleeps),
        }
    }
}

#[test]
fn unreachable_endpoint_gets_exactly_max_attempts() {
    for max in [1u32, 2, 5, 30, 100] {
        let mut probe = ReadinessProbe::new(11420, max);
        let (ready, connects, sleeps) = drive(&mut probe, None);
        assert!(!ready);
        assert_eq!(connects, max);
        assert_eq!(sleeps, max);
        assert_eq!(probe.attempts(), max);
        assert_eq!(probe.phase(), ProbePhase::Exhausted);
        assert_eq!(probe.result(), Some(false));
    }
}

#[test]
fn zero_attempts_allowed_fails_at_once() {
    let mut probe = ReadinessProbe::new(11420, 0);
    assert_eq!(probe.pending(), ProbeAction::Finish { ready: false });
    let (ready, connects, sleeps) = drive(&mut probe, None);
    assert!(!ready);
    assert_eq!(connects, 0);
    assert_eq!(sleeps, 0);
    assert_eq!(
        probe.report(),
        Some(LogLine::new(
            Sink::Stderr,
            "[Supervisor] WARNING: Sidecar not ready after 0 seconds".to_string()
        ))
    );
}

#[test]
fn first_success_stops_the_probe() {
    for (max, k) in [(30u32, 1u32), (30, 4), (30, 30), (5, 5), (1, 1)] {
        let mut probe = ReadinessProbe::new(8080, max);
        let (ready, connects, sleeps) = drive(&mut probe, Some(k));
        assert!(ready);
        assert_eq!(connects, k);
        assert_eq!(sleeps, k - 1);
        assert_eq!(probe.attempts(), k);
        assert_eq!(probe.phase(), ProbePhase::Ready);
        assert_eq!(probe.result(), Some(true));
    }
}

#[test]
fn success_after_the_last_attempt_is_not_seen() {
    let mut probe = ReadinessProbe::new(8080, 3);
    let (ready, connects, _) = drive(&mut probe, Some(4));
    assert!(!ready);
    assert_eq!(connects, 3);
}

#[test]
fn probe_steps_one_by_one() {
    let mut probe = ReadinessProbe::new(11420, 2);
    assert_eq!(probe.phase(), ProbePhase::Connecting);
    assert_eq!(probe.max_attempts(), 2);
    assert_eq!(probe.result(), None);
    assert_eq!(probe.report(), None);
    assert_eq!(
        probe.pending(),
        ProbeAction::Connect { port: 11420, timeout_ms: 500 }
    );
    assert_eq!(probe.step(ProbeEvent::Refused), ProbeAction::Sleep { ms: 1000 });
    assert_eq!(probe.phase(), ProbePhase::Sleeping);
    assert_eq!(
        probe.step(ProbeEvent::Slept),
        ProbeAction::Connect { port: 11420, timeout_ms: 500 }
    );
    assert_eq!(probe.attempts(), 2);
    assert_eq!(probe.step(ProbeEvent::Refused), ProbeAction::Sleep { ms: 1000 });
    assert_eq!(probe.step(ProbeEvent::Slept), ProbeAction::Finish { ready: false });
    assert_eq!(probe.attempts(), 2);
}

#[test]
fn unexpected_events_change_nothing() {
    let mut probe = ReadinessProbe::new(11420, 3);
    let before = probe;
    assert_eq!(
        probe.step(ProbeEvent::Slept),
        ProbeAction::Connect { port: 11420, timeout_ms: 500 }
    );
    assert_eq!(probe, before);
    probe.step(ProbeEvent::Refused);
    let sleeping = probe;
    assert_eq!(probe.step(ProbeEvent::Connected), ProbeAction::Sleep { ms: 1000 });
    assert_eq!(probe.step(ProbeEvent::Refused), ProbeAction::Sleep { ms: 1000 });
    assert_eq!(probe, sleeping);
}

#[test]
fn finished_probe_stays_finished() {
    let mut probe = ReadinessProbe::new(11420, 3);
    probe.step(ProbeEvent::Connected);
    let done = probe;
    for event in [ProbeEvent::Connected, ProbeEvent::Refused, ProbeEvent::Slept] {
        assert_eq!(probe.step(event), ProbeAction::Finish { ready: true });
        assert_eq!(probe, done);
    }
    let mut failed = ReadinessProbe::new(11420, 1);
    failed.step(ProbeEvent::Refused);
    failed.step(ProbeEvent::Slept);
    let done = failed;
    for event in [ProbeEvent::Connected, ProbeEvent::Refused, ProbeEvent::Slept] {
        assert_eq!(failed.step(event), ProbeAction::Finish { ready: false });
        assert_eq!(failed, done);
    }
}

#[test]
fn probe_address_is_loopback_and_port() {
    assert_eq!(ReadinessProbe::new(11420, 30).address(), "127.0.0.1:11420");
    assert_eq!(ReadinessProbe::new(0, 30).address(), "127.0.0.1:0");
    assert_eq!(ReadinessProbe::new(65535, 30).address(), "127.0.0.1:65535");
}

#[test]
fn probe_reports_success_with_attempt_count() {
    let mut probe = ReadinessProbe::new(11420, 30);
    drive(&mut probe, Some(4));
    assert_eq!(
        probe.report(),
        Some(LogLine::new(
            Sink::Stdout,
            "[Supervisor] Sidecar ready (attempt 4/30)".to_string()
        ))
    );
}

#[test]
fn probe_reports_exhaustion_as_warning() {
    let mut probe = ReadinessProbe::new(11420, 5);
    drive(&mut probe, None);
    assert_eq!(
        probe.report(),
        Some(LogLine::new(
            Sink::Stderr,
            "[Supervisor] WARNING: Sidecar not ready after 5 seconds".to_string()
        ))
    );
}

#[test]
fn per_attempt_timeout_is_at_most_a_second() {
    assert!(CONNECT_TIMEOUT_MS <= 1000);
    assert_eq!(RETRY_INTERVAL_MS, 1000);
}
