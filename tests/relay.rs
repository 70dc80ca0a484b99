use state_relay::ingest::{ingest, take_packet, CategoryFilter, IngestOutcome, RECV_BUFFER_LEN};
use state_relay::session::{Session, SessionAction, SessionEvent, SessionState};
use state_relay::slot::{LatestValueSlot, Update};

fn receive(packet: &[u8]) -> ([u8; RECV_BUFFER_LEN], usize) {
    let mut buf = [0u8; RECV_BUFFER_LEN];
    let n = packet.len().min(RECV_BUFFER_LEN);
    buf[..n].copy_from_slice(&packet[..n]);
    (buf, n)
}

#[test]
fn test_producer_handler() {
    let mut slot = LatestValueSlot::new();
    let test_message = "Hello, World!";
    let (buf, len) = receive(test_message.as_bytes());
    let outcome = ingest(&mut slot, &buf, len, &CategoryFilter::any());
    assert_eq!(outcome, IngestOutcome::Published);
    let received = slot.observe(0).unwrap();
    assert_eq!(received.value, test_message);
}

#[test]
fn new_slot_is_empty_at_version_zero() {
    let slot = LatestValueSlot::new();
    assert_eq!(slot.version(), 0);
    assert_eq!(slot.value(), "");
    assert_eq!(slot.observe(0), None);
}

#[test]
fn publish_replaces_value_and_bumps_version() {
    let mut slot = LatestValueSlot::new();
    slot.publish("a".to_string());
    assert_eq!(slot.version(), 1);
    slot.publish("b".to_string());
    assert_eq!(slot.version(), 2);
    assert_eq!(slot.value(), "b");
    assert_eq!(slot.observe(2), None);
    assert_eq!(slot.observe(5), None);
}

#[test]
fn coalescing_delivers_only_the_last_value() {
    let mut slot = LatestValueSlot::new();
    slot.publish("first".to_string());
    let seen = slot.observe(0).unwrap();
    assert_eq!(seen.version, 1);
    slot.publish("second".to_string());
    slot.publish("third".to_string());
    slot.publish("fourth".to_string());
    assert_eq!(
        slot.observe(seen.version),
        Some(Update { value: "fourth".to_string(), version: 4 })
    );
}

#[test]
fn late_joiner_receives_current_value_at_once() {
    let mut slot = LatestValueSlot::new();
    slot.publish("x".to_string());
    slot.publish("y".to_string());
    let mut late = Session::new();
    assert_eq!(late.cursor(), 0);
    let action = late.on_event(&slot, SessionEvent::HandshakeSucceeded);
    assert_eq!(action, SessionAction::Send("y".to_string()));
    assert_eq!(late.state(), SessionState::Sending);
    assert_eq!(late.cursor(), 2);
}

#[test]
fn early_joiner_waits_for_first_publish() {
    let slot = LatestValueSlot::new();
    let mut s = Session::new();
    assert_eq!(s.on_event(&slot, SessionEvent::HandshakeSucceeded), SessionAction::Wait);
    assert_eq!(s.state(), SessionState::Waiting);
    assert_eq!(s.on_event(&slot, SessionEvent::Notified), SessionAction::Wait);
    assert_eq!(s.cursor(), 0);
}

#[test]
fn session_versions_strictly_increase() {
    let mut slot = LatestValueSlot::new();
    let mut s = Session::new();
    let mut last = s.cursor();
    s.on_event(&slot, SessionEvent::HandshakeSucceeded);
    for i in 0..5u64 {
        slot.publish(format!("v{}", i));
        if i % 2 == 0 {
            slot.publish(format!("w{}", i));
        }
        let action = s.on_event(&slot, SessionEvent::Notified);
        assert!(matches!(action, SessionAction::Send(_)));
        assert!(s.cursor() > last);
        last = s.cursor();
        assert_eq!(s.on_event(&slot, SessionEvent::SendSucceeded), SessionAction::Wait);
        // A spurious wake-up with nothing new sends nothing.
        assert_eq!(s.on_event(&slot, SessionEvent::Notified), SessionAction::Wait);
        assert_eq!(s.cursor(), last);
    }
}

#[test]
fn failing_session_does_not_affect_another() {
    let mut slot = LatestValueSlot::new();
    let mut a = Session::new();
    let mut b = Session::new();
    a.on_event(&slot, SessionEvent::HandshakeSucceeded);
    b.on_event(&slot, SessionEvent::HandshakeSucceeded);
    slot.publish("one".to_string());
    assert_eq!(a.on_event(&slot, SessionEvent::Notified), SessionAction::Send("one".to_string()));
    assert_eq!(a.on_event(&slot, SessionEvent::SendFailed), SessionAction::Release);
    assert_eq!(a.state(), SessionState::Closed);
    // b was slow: it resumes only after two more publishes.
    slot.publish("two".to_string());
    slot.publish("three".to_string());
    assert_eq!(b.on_event(&slot, SessionEvent::Notified), SessionAction::Send("three".to_string()));
    assert_eq!(slot.version(), 3);
    // The closed session ignores everything and keeps its cursor.
    assert_eq!(a.on_event(&slot, SessionEvent::Notified), SessionAction::Ignore);
    assert_eq!(a.cursor(), 1);
}

#[test]
fn handshake_failure_closes_session() {
    let slot = LatestValueSlot::new();
    let mut s = Session::new();
    assert_eq!(s.on_event(&slot, SessionEvent::HandshakeFailed), SessionAction::Release);
    assert_eq!(s.state(), SessionState::Closed);
}

#[test]
fn producer_shutdown_closes_waiting_session() {
    let slot = LatestValueSlot::new();
    let mut s = Session::new();
    s.on_event(&slot, SessionEvent::HandshakeSucceeded);
    assert_eq!(s.on_event(&slot, SessionEvent::ProducerGone), SessionAction::Release);
    assert_eq!(s.state(), SessionState::Closed);
}

#[test]
fn out_of_place_event_is_ignored() {
    let slot = LatestValueSlot::new();
    let mut s = Session::new();
    assert_eq!(s.on_event(&slot, SessionEvent::SendSucceeded), SessionAction::Ignore);
    assert_eq!(s.state(), SessionState::Handshaking);
}

#[test]
fn filtered_out_record_leaves_slot_unchanged() {
    let mut slot = LatestValueSlot::new();
    let filter = CategoryFilter::only(b"ENT|".to_vec());
    let (buf, len) = receive(b"ENT|tank-1");
    assert_eq!(ingest(&mut slot, &buf, len, &filter), IngestOutcome::Published);
    assert_eq!(slot.version(), 1);
    let (buf, len) = receive(b"FIRE|shell");
    assert_eq!(ingest(&mut slot, &buf, len, &filter), IngestOutcome::FilteredOut);
    assert_eq!(slot.version(), 1);
    assert_eq!(slot.value(), "ENT|tank-1");
    let (buf, len) = receive(b"EN");
    assert_eq!(ingest(&mut slot, &buf, len, &filter), IngestOutcome::FilteredOut);
    assert_eq!(slot.version(), 1);
}

#[test]
fn filter_accepts_by_leading_bytes() {
    let filter = CategoryFilter::only(b"ab".to_vec());
    assert!(filter.accepts(b"abc"));
    assert!(filter.accepts(b"ab"));
    assert!(!filter.accepts(b"a"));
    assert!(!filter.accepts(b"ba"));
    assert!(CategoryFilter::any().accepts(b""));
}

#[test]
fn invalid_utf8_is_dropped() {
    let mut slot = LatestValueSlot::new();
    let (buf, len) = receive(&[0x66, 0xff, 0x67]);
    assert_eq!(ingest(&mut slot, &buf, len, &CategoryFilter::any()), IngestOutcome::DecodeFailed);
    assert_eq!(slot.version(), 0);
    assert_eq!(slot.value(), "");
}

#[test]
fn multibyte_text_is_decoded() {
    let mut slot = LatestValueSlot::new();
    let text = "héllo ✈";
    let (buf, len) = receive(text.as_bytes());
    assert_eq!(ingest(&mut slot, &buf, len, &CategoryFilter::any()), IngestOutcome::Published);
    assert_eq!(slot.value(), text);
    assert_eq!(slot.value().chars().count(), 7);
}

#[test]
fn oversized_packet_is_truncated_and_dropped() {
    let mut slot = LatestValueSlot::new();
    slot.publish("before".to_string());
    // 1023 ASCII bytes, then a two-byte character split by the buffer's end.
    let mut packet = vec![b'a'; RECV_BUFFER_LEN - 1];
    for _ in 0..500 {
        packet.extend_from_slice("é".as_bytes());
    }
    assert!(packet.len() > RECV_BUFFER_LEN);
    let (buf, len) = receive(&packet);
    assert_eq!(len, RECV_BUFFER_LEN);
    assert_eq!(ingest(&mut slot, &buf, len, &CategoryFilter::any()), IngestOutcome::DecodeFailed);
    // A reported length past the buffer is capped at the buffer.
    assert_eq!(
        ingest(&mut slot, &buf, packet.len(), &CategoryFilter::any()),
        IngestOutcome::DecodeFailed
    );
    assert_eq!(slot.version(), 1);
    assert_eq!(slot.value(), "before");
}

#[test]
fn take_packet_caps_at_buffer() {
    let buf = [1u8, 2, 3];
    assert_eq!(take_packet(&buf, 2), vec![1, 2]);
    assert_eq!(take_packet(&buf, 9), vec![1, 2, 3]);
    assert_eq!(take_packet(&buf, 0), Vec::<u8>::new());
}

#[test]
fn end_to_end_two_clients() {
    let mut slot = LatestValueSlot::new();
    let filter = CategoryFilter::any();
    let mut first = Session::new();
    assert_eq!(first.on_event(&slot, SessionEvent::HandshakeSucceeded), SessionAction::Wait);
    let (buf, len) = receive(b"label:alpha");
    assert_eq!(ingest(&mut slot, &buf, len, &filter), IngestOutcome::Published);
    assert_eq!(
        first.on_event(&slot, SessionEvent::Notified),
        SessionAction::Send("label:alpha".to_string())
    );
    assert_eq!(first.on_event(&slot, SessionEvent::SendSucceeded), SessionAction::Wait);
    assert_eq!(first.on_event(&slot, SessionEvent::Notified), SessionAction::Wait);
    let mut second = Session::new();
    assert_eq!(
        second.on_event(&slot, SessionEvent::HandshakeSucceeded),
        SessionAction::Send("label:alpha".to_string())
    );
}
