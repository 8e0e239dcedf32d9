use online::{
    classify_event, fold_attempts, normalize_timeout, parse_timeout, ConnectEvent, ProbeError,
    Timeout, TransportKind,
};

#[test]
fn parse_timeout_rejects_zero() {
    assert_eq!(parse_timeout(0), Err(ProbeError::InvalidTimeout));
}

#[test]
fn parse_timeout_keeps_positive_seconds() {
    assert_eq!(parse_timeout(1), Ok(Timeout { secs: 1 }));
    assert_eq!(parse_timeout(5), Ok(Timeout { secs: 5 }));
    assert_eq!(parse_timeout(u64::MAX), Ok(Timeout { secs: u64::MAX }));
}

#[test]
fn normalize_timeout_keeps_absent_unbounded() {
    assert_eq!(normalize_timeout(None), Ok(None));
}

#[test]
fn normalize_timeout_rejects_zero_and_keeps_positive() {
    assert_eq!(normalize_timeout(Some(0)), Err(ProbeError::InvalidTimeout));
    assert_eq!(normalize_timeout(Some(7)), Ok(Some(Timeout { secs: 7 })));
}

#[test]
fn classify_event_maps_each_observation() {
    assert_eq!(
        classify_event(ConnectEvent::NoAddress),
        Err(ProbeError::Unresolvable)
    );
    assert_eq!(
        classify_event(ConnectEvent::DeadlineElapsed),
        Err(ProbeError::TimedOut)
    );
    assert_eq!(classify_event(ConnectEvent::Connected), Ok(()));
    assert_eq!(
        classify_event(ConnectEvent::Failed(TransportKind::Refused)),
        Err(ProbeError::Transport(TransportKind::Refused))
    );
}

#[test]
fn fold_attempts_prefers_success_then_the_first_error() {
    assert_eq!(fold_attempts(Ok(()), Ok(())), Ok(()));
    assert_eq!(fold_attempts(Ok(()), Err(ProbeError::TimedOut)), Ok(()));
    assert_eq!(fold_attempts(Err(ProbeError::TimedOut), Ok(())), Ok(()));
    assert_eq!(
        fold_attempts(
            Err(ProbeError::TimedOut),
            Err(ProbeError::Transport(TransportKind::Refused))
        ),
        Err(ProbeError::TimedOut)
    );
}

#[test]
fn messages_name_each_failure() {
    assert_eq!(
        ProbeError::InvalidTimeout.message(),
        "cannot set a 0 duration timeout"
    );
    assert_eq!(
        ProbeError::Unresolvable.message(),
        "target did not resolve to any address"
    );
    assert_eq!(ProbeError::TimedOut.message(), "future timed out");
    assert_eq!(
        ProbeError::Transport(TransportKind::Reset).message(),
        "transport error while connecting"
    );
}
