use pingmon::batch::collect_batch;
use pingmon::probe::HopOutcome;
use pingmon::record::{NodeType, SHop};
use pingmon::trace::{
    classify, epoch_nanos, hop_record, outcome_for_ttl, run_trace, trace_replies, ProbeReply,
    TraceSession, DEFAULT_MAX_HOPS,
};

fn received(address: &str, rtt: u64) -> HopOutcome {
    HopOutcome::Received { address: address.to_string(), host: address.to_string(), rtt }
}

fn reply(ttl: u64, address: &str, rtt: u64) -> ProbeReply {
    ProbeReply { ttl, address: address.to_string(), host: address.to_string(), rtt }
}

#[test]
fn classify_first_hop_is_gateway_even_at_destination() {
    let dest = "8.8.8.8".to_string();
    assert_eq!(classify(1, &"192.168.0.1".to_string(), &dest), NodeType::DefaultGateway);
    assert_eq!(classify(1, &dest, &dest), NodeType::DefaultGateway);
    assert_eq!(classify(4, &dest, &dest), NodeType::Destination);
    assert_eq!(classify(4, &"10.1.1.1".to_string(), &dest), NodeType::Relay);
}

#[test]
fn hop_record_of_timeout() {
    let h = hop_record(&"8.8.8.8".to_string(), 77, 6, &HopOutcome::TimedOut);
    assert_eq!(h.seq, 6);
    assert_eq!(h.rtt, 0);
    assert!(h.timeout);
    assert_eq!(h.host, "");
    assert_eq!(h.ip, "");
    assert_eq!(h.final_dest, "8.8.8.8");
    assert_eq!(h.node_type, NodeType::Relay);
    assert_eq!(h.time, 77);
}

#[test]
fn hop_record_of_reply() {
    let h = hop_record(&"8.8.8.8".to_string(), 77, 2, &received("10.0.0.1", 12_345_000));
    assert_eq!(h.seq, 2);
    assert_eq!(h.rtt, 12_345_000);
    assert!(!h.timeout);
    assert_eq!(h.host, "10.0.0.1");
    assert_eq!(h.ip, "10.0.0.1");
    assert_eq!(h.node_type, NodeType::Relay);
}

#[test]
fn trace_stops_when_destination_replies_at_ttl_three() {
    let dest = "8.8.8.8".to_string();
    let outcomes = vec![received("192.168.0.1", 1), received("10.0.0.1", 2), received("8.8.8.8", 3), received("8.8.8.8", 4)];
    let hops = run_trace(&dest, 5, DEFAULT_MAX_HOPS, &outcomes);
    assert_eq!(hops.len(), 3);
    assert_eq!(hops[0].node_type, NodeType::DefaultGateway);
    assert_eq!(hops[1].node_type, NodeType::Relay);
    assert_eq!(hops[2].node_type, NodeType::Destination);
    assert_eq!(hops[2].seq, 3);
    assert_eq!(hops[2].rtt, 3);
}

#[test]
fn trace_of_silent_destination_has_max_hops_timeouts() {
    let dest = "203.0.113.9".to_string();
    let hops = run_trace(&dest, 5, DEFAULT_MAX_HOPS, &Vec::new());
    assert_eq!(hops.len(), 30);
    for h in &hops {
        assert!(h.timeout);
        assert_ne!(h.node_type, NodeType::Destination);
    }
}

#[test]
fn trace_sequence_numbers_have_no_gaps() {
    let dest = "8.8.8.8".to_string();
    let outcomes = vec![received("192.168.0.1", 1), HopOutcome::TimedOut, received("10.0.0.1", 2), HopOutcome::TimedOut];
    let hops = run_trace(&dest, 9, 10, &outcomes);
    assert_eq!(hops.len(), 10);
    for (i, h) in hops.iter().enumerate() {
        assert_eq!(h.seq, i as u64 + 1);
        assert_eq!(h.time, 9);
        assert_eq!(h.final_dest, "8.8.8.8");
    }
}

#[test]
fn trace_first_hop_at_destination_is_gateway_and_goes_on() {
    let dest = "8.8.8.8".to_string();
    let outcomes = vec![received("8.8.8.8", 1), received("8.8.8.8", 2)];
    let hops = run_trace(&dest, 0, 30, &outcomes);
    assert_eq!(hops.len(), 2);
    assert_eq!(hops[0].node_type, NodeType::DefaultGateway);
    assert_eq!(hops[1].node_type, NodeType::Destination);
}

#[test]
fn trace_with_zero_max_hops_is_empty() {
    let hops = run_trace(&"8.8.8.8".to_string(), 0, 0, &vec![received("8.8.8.8", 1)]);
    assert!(hops.is_empty());
}

#[test]
fn session_steps_one_probe_at_a_time() {
    let mut s = TraceSession::new("8.8.8.8".to_string(), 1, 3);
    assert_eq!(s.next_ttl(), Some(1));
    s.record(&received("192.168.0.1", 10));
    assert_eq!(s.next_ttl(), Some(2));
    s.record(&HopOutcome::TimedOut);
    assert_eq!(s.next_ttl(), Some(3));
    assert!(!s.is_finished());
    s.record(&received("10.9.9.9", 10));
    assert!(s.is_finished());
    assert_eq!(s.next_ttl(), None);
    let hops = s.into_hops();
    assert_eq!(hops.len(), 3);
    assert!(hops[1].timeout);
}

#[test]
fn session_finishes_at_destination() {
    let mut s = TraceSession::new("8.8.8.8".to_string(), 1, 30);
    s.record(&received("192.168.0.1", 10));
    s.record(&received("8.8.8.8", 20));
    assert!(s.is_finished());
    assert_eq!(s.into_hops().len(), 2);
}

#[test]
fn outcome_for_ttl_takes_first_matching_reply() {
    let replies = vec![reply(2, "10.0.0.1", 5), reply(2, "10.0.0.2", 6), reply(1, "192.168.0.1", 1)];
    assert!(matches!(outcome_for_ttl(&replies, 2), HopOutcome::Received { rtt: 5, .. }));
    assert!(matches!(outcome_for_ttl(&replies, 1), HopOutcome::Received { rtt: 1, .. }));
    assert!(matches!(outcome_for_ttl(&replies, 3), HopOutcome::TimedOut));
}

#[test]
fn trace_replies_fills_gaps_with_timeouts() {
    let dest = "8.8.8.8".to_string();
    let replies = vec![reply(4, "8.8.8.8", 40), reply(1, "192.168.0.1", 10), reply(3, "10.0.0.1", 30)];
    let hops = trace_replies(&dest, 3, 30, &replies);
    assert_eq!(hops.len(), 4);
    assert_eq!(hops[0].node_type, NodeType::DefaultGateway);
    assert!(hops[1].timeout);
    assert_eq!(hops[2].ip, "10.0.0.1");
    assert_eq!(hops[3].node_type, NodeType::Destination);
    assert_eq!(hops[3].rtt, 40);
}

#[test]
fn batch_traces_are_independent() {
    let a = "192.0.2.1".to_string();
    let b = "198.51.100.7".to_string();
    let a_outcomes = vec![received("192.168.0.1", 1), received("192.0.2.1", 2)];
    let b_outcomes: Vec<HopOutcome> = Vec::new();
    let a_hops = run_trace(&a, 0, DEFAULT_MAX_HOPS, &a_outcomes);
    let b_hops = run_trace(&b, 0, DEFAULT_MAX_HOPS, &b_outcomes);
    let batch = collect_batch(vec![a.clone(), b.clone()], vec![Some(a_hops), Some(b_hops)]);
    assert_eq!(batch.len(), 2);
    assert_eq!(batch[0].0, a);
    assert_eq!(batch[0].1.len(), 2);
    assert_eq!(batch[0].1[1].node_type, NodeType::Destination);
    assert_eq!(batch[1].0, b);
    assert_eq!(batch[1].1.len(), 30);
    assert!(batch[1].1.iter().all(|h: &SHop| h.timeout));
}

#[test]
fn batch_failed_unit_gives_empty_trace() {
    let hops = run_trace(&"192.0.2.1".to_string(), 0, 2, &Vec::new());
    let batch = collect_batch(vec!["x".to_string(), "192.0.2.1".to_string()], vec![None, Some(hops)]);
    assert_eq!(batch[0].0, "x");
    assert!(batch[0].1.is_empty());
    assert_eq!(batch[1].1.len(), 2);
}

#[test]
fn epoch_nanos_values() {
    assert_eq!(epoch_nanos(Some(1_700_000_000_123_456_789), 0), 1_700_000_000_123_456_789);
    assert_eq!(epoch_nanos(Some(-5), 0), 0);
    assert_eq!(epoch_nanos(None, 10_000_000_000_000_000), 10_000_000_000_000_000_000);
    assert_eq!(epoch_nanos(None, i64::MAX), u64::MAX);
    assert_eq!(epoch_nanos(None, -1), 0);
}
