use relay::accept::{classify_accept_error, AcceptDecision, AcceptErrorKind, BindRetry};
use relay::chunk::relay_payload;
use relay::registry::ConnectionRegistry;

fn registry_with(handles: &[u64]) -> ConnectionRegistry {
    let mut reg = ConnectionRegistry::new();
    for &h in handles {
        reg.register(h);
    }
    reg
}

fn handles_of(reg: &ConnectionRegistry) -> Vec<u64> {
    let mut out = Vec::new();
    let mut i = 0;
    while i < reg.len() {
        out.push(reg.handle_at(i));
        i += 1;
    }
    out
}

#[test]
fn fanout_reaches_all_in_insertion_order() {
    let mut reg = registry_with(&[1, 2, 3]);
    let recipients = relay::registry::broadcast_pass(&mut reg, &vec![true, true, true]);
    assert_eq!(recipients, vec![1, 2, 3]);
    assert_eq!(handles_of(&reg), vec![1, 2, 3]);
}

#[test]
fn fanout_keeps_order_past_a_failed_peer() {
    let mut reg = registry_with(&[1, 2, 3, 4]);
    let recipients = relay::registry::broadcast_pass(&mut reg, &vec![true, false, true, true]);
    assert_eq!(recipients, vec![1, 3, 4]);
    assert_eq!(handles_of(&reg), vec![1, 3, 4]);
}

#[test]
fn sender_receives_its_own_broadcast() {
    // Connection 1 broadcasts; its own handle is registered like any other,
    // so it is among the recipients of its own chunk.
    let mut reg = registry_with(&[1, 2]);
    let recipients = relay::registry::broadcast_pass(&mut reg, &vec![true, true]);
    assert!(recipients.contains(&1));
}

#[test]
fn eviction_is_lazy() {
    // Connect A and B, then let B's peer disconnect: nothing tells the
    // registry, so B's stale handle must still be there.
    let mut reg = registry_with(&[10, 20]);
    assert_eq!(reg.len(), 2);
    // The next broadcast is what discovers the dead peer: the write to B
    // fails and only then is B's handle dropped.
    let recipients = relay::registry::broadcast_pass(&mut reg, &vec![true, false]);
    assert_eq!(recipients, vec![10]);
    assert_eq!(reg.len(), 1);
    assert_eq!(handles_of(&reg), vec![10]);
}

#[test]
fn broadcast_step_advances_on_success() {
    let mut reg = registry_with(&[5, 6]);
    let j = reg.broadcast_step(0, true);
    assert_eq!(j, 1);
    assert_eq!(handles_of(&reg), vec![5, 6]);
}

#[test]
fn broadcast_step_removes_in_place_on_failure() {
    let mut reg = registry_with(&[5, 6]);
    let j = reg.broadcast_step(0, false);
    assert_eq!(j, 0);
    assert_eq!(handles_of(&reg), vec![6]);
}

#[test]
fn valid_chunk_is_relayed_unchanged() {
    let chunk = b"hello\n".to_vec();
    let relayed = relay_payload(chunk.clone());
    assert_eq!(relayed, Some(chunk));
}

#[test]
fn undecodable_chunk_is_dropped() {
    // 0xFF can never appear in well-formed UTF-8.
    let relayed = relay_payload(vec![0xFF, 0xFE, b'a']);
    assert_eq!(relayed, None);
}

#[test]
fn empty_chunk_is_relayed() {
    assert_eq!(relay_payload(Vec::new()), Some(Vec::new()));
}

#[test]
fn connection_class_errors_are_retried() {
    assert!(matches!(
        classify_accept_error(AcceptErrorKind::ConnectionRefused),
        AcceptDecision::RetryAfterDelay
    ));
    assert!(matches!(
        classify_accept_error(AcceptErrorKind::ConnectionReset),
        AcceptDecision::RetryAfterDelay
    ));
    assert!(matches!(
        classify_accept_error(AcceptErrorKind::ConnectionAborted),
        AcceptDecision::RetryAfterDelay
    ));
}

#[test]
fn other_accept_errors_are_fatal() {
    assert!(matches!(
        classify_accept_error(AcceptErrorKind::Other),
        AcceptDecision::Fatal
    ));
}

#[test]
fn bind_budget_allows_five_attempts() {
    let mut retry = BindRetry::new();
    let mut attempts = 0;
    while retry.may_attempt() {
        attempts += 1;
        retry.record_failure();
    }
    assert_eq!(attempts, 5);
    assert!(!retry.may_attempt());
}
