use signal_relay::envelope::{Envelope, Frame};
use signal_relay::error::RelayError;
use signal_relay::heartbeat::{heartbeat, heartbeat_at};
use signal_relay::limits::{
    CLEANUP_INTERVAL_SECS, CLIENT_TIMEOUT_MS, HEARTBEAT_INTERVAL_SECS, MAX_CLIENTS,
    MAX_MESSAGE_SIZE,
};
use signal_relay::queue::OutboundQueue;
use signal_relay::reaper::{cleanup_disconnected_clients, timed_out};
use signal_relay::record::ConnectionRecord;
use signal_relay::registry::Registry;
use signal_relay::rejection::handle_rejection;
use signal_relay::router::Routing;
use signal_relay::session::{exceeds_limit, Disposition, Inbound, Session, SessionState};
use tokio::sync::mpsc::UnboundedReceiver;

type Writer = UnboundedReceiver<Frame>;

fn join(registry: &mut Registry, id: &str, now: u64) -> Writer {
    let (queue, writer) = OutboundQueue::channel();
    registry.register(id.to_string(), ConnectionRecord::new(queue, now)).unwrap();
    writer
}

fn drain(writer: &mut Writer) -> Vec<Frame> {
    let mut frames = Vec::new();
    while let Ok(frame) = writer.try_recv() {
        frames.push(frame);
    }
    frames
}

fn open_session(registry: &mut Registry, id: &str, now: u64) -> (Session, Writer) {
    let mut session = Session::new(id.to_string());
    assert_eq!(session.state(), SessionState::Connecting);
    let (queue, mut writer) = OutboundQueue::channel();
    session.open(registry, queue, now, 1700000000).unwrap();
    assert_eq!(session.state(), SessionState::Open);
    assert_eq!(drain(&mut writer).len(), 1);
    (session, writer)
}

fn padded_offer(size: usize) -> String {
    let head = "{\"type\":\"offer\",\"timestamp\":1,\"data\":\"";
    let tail = "\"}";
    let text = format!("{}{}{}", head, "x".repeat(size - head.len() - tail.len()), tail);
    assert_eq!(text.len(), size);
    text
}

#[test]
fn limits_have_their_documented_values() {
    assert_eq!(MAX_MESSAGE_SIZE, 64 * 1024);
    assert_eq!(MAX_CLIENTS, 10000);
    assert_eq!(CLIENT_TIMEOUT_MS, 90 * 1000);
    assert_eq!(HEARTBEAT_INTERVAL_SECS, 30);
    assert_eq!(CLEANUP_INTERVAL_SECS, 60);
}

#[test]
fn queue_hands_frames_to_its_writer_in_order() {
    let (mut queue, mut writer) = OutboundQueue::channel();
    assert!(writer.try_recv().is_err());
    assert_eq!(queue.enqueue(Frame::Binary(vec![1])), Ok(()));
    assert_eq!(queue.enqueue(Frame::Binary(vec![2])), Ok(()));
    assert_eq!(writer.try_recv().ok(), Some(Frame::Binary(vec![1])));
    assert_eq!(queue.enqueue(Frame::Binary(vec![3])), Ok(()));
    assert_eq!(drain(&mut writer), vec![Frame::Binary(vec![2]), Frame::Binary(vec![3])]);
}

#[test]
fn queue_without_writer_takes_nothing() {
    let (mut queue, writer) = OutboundQueue::channel();
    drop(writer);
    assert_eq!(queue.enqueue(Frame::Binary(vec![2])), Err(RelayError::DeliveryFailure));
    let (mut closed, mut writer) = OutboundQueue::channel();
    closed.enqueue(Frame::Binary(vec![1])).unwrap();
    writer.close();
    assert_eq!(closed.enqueue(Frame::Binary(vec![2])), Err(RelayError::DeliveryFailure));
    assert_eq!(drain(&mut writer), vec![Frame::Binary(vec![1])]);
}

#[test]
fn open_offers_the_welcome_first() {
    let mut registry = Registry::new(2);
    let mut session = Session::new("abc".to_string());
    let (queue, mut writer) = OutboundQueue::channel();
    assert_eq!(session.open(&mut registry, queue, 77, 1700000123), Ok(()));
    let summary = registry.summary("abc").unwrap();
    assert_eq!(summary.last_liveness, 77);
    assert_eq!(summary.identity, None);
    let expected = Envelope {
        msg_type: "welcome".to_string(),
        data: Some("{\"client_id\":\"abc\",\"server_time\":1700000123}".to_string()),
        timestamp: 1700000123,
        sender_id: None,
    };
    assert_eq!(Envelope::welcome("abc", 1700000123), expected);
    assert_eq!(drain(&mut writer), vec![Frame::Text(expected)]);
}

#[test]
fn open_registers_a_connection_whose_writer_is_gone() {
    let mut registry = Registry::new(2);
    let mut session = Session::new("abc".to_string());
    let (queue, writer) = OutboundQueue::channel();
    drop(writer);
    assert_eq!(session.open(&mut registry, queue, 1, 2), Ok(()));
    assert_eq!(session.state(), SessionState::Open);
    assert!(registry.contains("abc"));
}

#[test]
fn welcome_payload_escapes_the_id() {
    let welcome = Envelope::welcome("a\"b\\c", 5);
    assert_eq!(welcome.data.unwrap(), "{\"client_id\":\"a\\\"b\\\\c\",\"server_time\":5}");
}

#[test]
fn open_on_a_full_registry_closes_the_session() {
    let mut registry = Registry::new(1);
    let _first = open_session(&mut registry, "a", 0);
    let mut second = Session::new("b".to_string());
    let (queue, mut writer) = OutboundQueue::channel();
    assert_eq!(second.open(&mut registry, queue, 0, 1), Err(RelayError::CapacityExceeded));
    assert_eq!(second.state(), SessionState::Closed);
    assert_eq!(registry.len(), 1);
    assert!(!registry.contains("b"));
    assert!(drain(&mut writer).is_empty());
}

#[test]
fn open_twice_changes_nothing() {
    let mut registry = Registry::new(5);
    let (mut session, mut writer) = open_session(&mut registry, "a", 0);
    let (queue, mut other) = OutboundQueue::channel();
    assert_eq!(session.open(&mut registry, queue, 9, 9), Ok(()));
    assert_eq!(session.state(), SessionState::Open);
    assert_eq!(registry.summary("a").unwrap().last_liveness, 0);
    assert!(drain(&mut writer).is_empty());
    assert!(drain(&mut other).is_empty());
    assert_eq!(registry.len(), 1);
}

#[test]
fn zero_capacity_admits_nobody() {
    let mut registry = Registry::new(0);
    assert_eq!(registry.capacity(), 0);
    assert!(Session::connect(&mut registry, 0).is_err());
    let (queue, _writer) = OutboundQueue::channel();
    assert_eq!(
        registry.register("a".to_string(), ConnectionRecord::new(queue, 0)),
        Err(RelayError::CapacityExceeded)
    );
    assert_eq!(registry.len(), 0);
}

#[test]
fn oversize_text_is_dropped_and_the_sender_stays_open() {
    let mut registry = Registry::new(5);
    let (mut a, mut to_a) = open_session(&mut registry, "a", 0);
    let (_b, mut to_b) = open_session(&mut registry, "b", 0);
    let over = padded_offer(MAX_MESSAGE_SIZE + 1);
    let dropped = a.handle_frame_at(&mut registry, Inbound::Text(over), 1, 1);
    assert_eq!(dropped, Disposition::Dropped(RelayError::OversizeFrame));
    assert!(drain(&mut to_b).is_empty());
    assert!(drain(&mut to_a).is_empty());
    assert_eq!(a.state(), SessionState::Open);
    assert!(registry.contains("a"));
    let at_ceiling = padded_offer(MAX_MESSAGE_SIZE);
    let passed = a.handle_frame_at(&mut registry, Inbound::Text(at_ceiling), 2, 2);
    assert_eq!(passed, Disposition::Routed(Routing::Broadcast { sent_count: 1 }));
    let relayed = drain(&mut to_b);
    assert_eq!(relayed.len(), 1);
    match &relayed[0] {
        Frame::Text(msg) => {
            assert_eq!(msg.msg_type, "offer");
            assert_eq!(msg.timestamp, 1);
            assert_eq!(msg.data.as_ref().map(|data| data.len()), Some(MAX_MESSAGE_SIZE - 38));
        },
        other => panic!("not an envelope: {:?}", other),
    }
}

#[test]
fn text_size_counts_bytes_not_characters() {
    let mut registry = Registry::new(5);
    let (mut a, _to_a) = open_session(&mut registry, "a", 0);
    let (_b, mut to_b) = open_session(&mut registry, "b", 0);
    let head = "{\"type\":\"offer\",\"timestamp\":1,\"data\":\"";
    let text = format!("{}{}\"}}", head, "é".repeat(MAX_MESSAGE_SIZE / 2));
    assert!(text.chars().count() < MAX_MESSAGE_SIZE);
    assert!(text.len() > MAX_MESSAGE_SIZE);
    assert_eq!(
        a.handle_frame_at(&mut registry, Inbound::Text(text), 1, 1),
        Disposition::Dropped(RelayError::OversizeFrame)
    );
    assert!(drain(&mut to_b).is_empty());
}

#[test]
fn malformed_text_is_dropped_and_the_sender_stays_open() {
    let mut registry = Registry::new(5);
    let (mut a, _to_a) = open_session(&mut registry, "a", 0);
    let (_b, mut to_b) = open_session(&mut registry, "b", 0);
    for text in ["", "not json", "[]", "{\"type\":\"offer\"}", "{\"timestamp\":1}"] {
        let dropped = a.handle_frame_at(&mut registry, Inbound::Text(text.to_string()), 1, 1);
        assert_eq!(dropped, Disposition::Dropped(RelayError::ParseError), "{}", text);
        assert!(drain(&mut to_b).is_empty());
        assert_eq!(a.state(), SessionState::Open);
    }
    let valid = "{\"type\":\"offer\",\"timestamp\":1}".to_string();
    assert_eq!(
        a.handle_frame_at(&mut registry, Inbound::Text(valid), 1, 1),
        Disposition::Routed(Routing::Broadcast { sent_count: 1 })
    );
    assert_eq!(drain(&mut to_b).len(), 1);
}

#[test]
fn binary_is_relayed_up_to_the_ceiling() {
    let mut registry = Registry::new(5);
    let (mut a, mut to_a) = open_session(&mut registry, "a", 0);
    let (_b, mut to_b) = open_session(&mut registry, "b", 0);
    let at_ceiling = vec![7u8; MAX_MESSAGE_SIZE];
    let over = vec![7u8; MAX_MESSAGE_SIZE + 1];
    assert!(!exceeds_limit(at_ceiling.len()));
    assert!(exceeds_limit(over.len()));
    assert_eq!(
        a.handle_frame_at(&mut registry, Inbound::Binary(over), 1, 1),
        Disposition::Dropped(RelayError::OversizeFrame)
    );
    assert!(drain(&mut to_b).is_empty());
    assert_eq!(
        a.handle_frame_at(&mut registry, Inbound::Binary(at_ceiling.clone()), 1, 1),
        Disposition::RelayedBinary { sent_count: 1 }
    );
    assert_eq!(drain(&mut to_b), vec![Frame::Binary(at_ceiling)]);
    assert!(drain(&mut to_a).is_empty());
}

#[test]
fn pong_frame_refreshes_liveness() {
    let mut registry = Registry::new(5);
    let (mut a, mut to_a) = open_session(&mut registry, "a", 10);
    let _b = open_session(&mut registry, "b", 10);
    assert_eq!(
        a.handle_frame_at(&mut registry, Inbound::Pong, 5000, 1),
        Disposition::LivenessRecorded
    );
    assert_eq!(registry.summary("a").unwrap().last_liveness, 5000);
    assert_eq!(registry.summary("b").unwrap().last_liveness, 10);
    assert!(drain(&mut to_a).is_empty());
}

#[test]
fn other_frames_are_ignored() {
    let mut registry = Registry::new(5);
    let (mut a, _to_a) = open_session(&mut registry, "a", 10);
    assert_eq!(a.handle_frame_at(&mut registry, Inbound::Other, 1, 1), Disposition::Ignored);
    assert_eq!(a.state(), SessionState::Open);
    assert_eq!(registry.summary("a").unwrap().last_liveness, 10);
}

#[test]
fn close_frame_and_transport_error_end_the_session() {
    let endings = [
        (Inbound::Close, Disposition::Closed),
        (Inbound::TransportError, Disposition::Failed(RelayError::TransportError)),
    ];
    for (frame, expected) in endings {
        let mut registry = Registry::new(5);
        let (mut a, to_a) = open_session(&mut registry, "a", 0);
        let _b = open_session(&mut registry, "b", 0);
        assert_eq!(a.handle_frame_at(&mut registry, frame, 1, 1), expected);
        assert_eq!(a.state(), SessionState::Closed);
        assert!(!registry.contains("a"));
        assert!(registry.contains("b"));
        assert!(to_a.is_closed());
    }
}

#[test]
fn a_record_is_removed_once() {
    let mut registry = Registry::new(5);
    let (mut a, _to_a) = open_session(&mut registry, "a", 0);
    assert!(a.close(&mut registry).is_some());
    assert_eq!(a.state(), SessionState::Closed);
    let _again = join(&mut registry, "a", 0);
    assert!(a.close(&mut registry).is_none());
    assert!(registry.contains("a"));
    assert_eq!(a.handle_frame_at(&mut registry, Inbound::Close, 1, 1), Disposition::Ignored);
    assert!(registry.contains("a"));
}

#[test]
fn closing_a_session_that_never_opened_removes_nothing() {
    let mut registry = Registry::new(5);
    let _a = join(&mut registry, "a", 0);
    let mut stranger = Session::new("a".to_string());
    assert!(stranger.close(&mut registry).is_none());
    assert_eq!(stranger.state(), SessionState::Closed);
    assert!(registry.contains("a"));
}

#[test]
fn heartbeat_reaches_every_connection() {
    let mut registry = Registry::new(5);
    let mut a = join(&mut registry, "a", 0);
    let b = join(&mut registry, "b", 0);
    let mut c = join(&mut registry, "c", 0);
    drop(b);
    assert_eq!(heartbeat_at(&mut registry, 1700000001), 2);
    let ping = Envelope {
        msg_type: "ping".to_string(),
        data: None,
        timestamp: 1700000001,
        sender_id: None,
    };
    assert_eq!(Envelope::ping(1700000001), ping);
    assert_eq!(drain(&mut a), vec![Frame::Text(ping.clone())]);
    assert_eq!(drain(&mut c), vec![Frame::Text(ping)]);
    assert_eq!(registry.summary("a").unwrap().last_liveness, 0);
    assert_eq!(registry.len(), 3);
}

#[test]
fn heartbeat_stamps_the_probe_with_the_wall_clock() {
    let mut registry = Registry::new(5);
    let mut a = join(&mut registry, "a", 0);
    assert_eq!(heartbeat(&mut registry), 1);
    match a.try_recv() {
        Ok(Frame::Text(probe)) => {
            assert_eq!(probe.msg_type, "ping");
            assert_eq!(probe.data, None);
            assert_eq!(probe.sender_id, None);
            assert!(probe.timestamp > 1600000000);
        },
        other => panic!("no probe: {:?}", other),
    }
}

#[test]
fn timeout_is_strict() {
    assert!(!timed_out(1000, 1000 + CLIENT_TIMEOUT_MS));
    assert!(timed_out(1000, 1000 + CLIENT_TIMEOUT_MS + 1));
    assert!(!timed_out(1000, 0));
    assert!(!timed_out(u64::MAX, 0));
    assert!(timed_out(0, u64::MAX));
}

#[test]
fn reaper_evicts_only_the_expired() {
    let mut registry = Registry::new(10);
    let old = join(&mut registry, "old", 0);
    let _edge = join(&mut registry, "edge", 10);
    let _fresh = join(&mut registry, "fresh", 50000);
    let _ahead = join(&mut registry, "ahead", 200000);
    let removed = cleanup_disconnected_clients(&mut registry, 10 + CLIENT_TIMEOUT_MS);
    assert_eq!(removed, vec!["old".to_string()]);
    assert!(old.is_closed());
    assert_eq!(registry.len(), 3);
    assert!(registry.contains("edge") && registry.contains("fresh") && registry.contains("ahead"));
    let mut removed = cleanup_disconnected_clients(&mut registry, 50000 + CLIENT_TIMEOUT_MS + 1);
    removed.sort();
    assert_eq!(removed, vec!["edge".to_string(), "fresh".to_string()]);
    assert_eq!(registry.len(), 1);
    assert!(cleanup_disconnected_clients(&mut registry, 0).is_empty());
    assert!(registry.contains("ahead"));
}

#[test]
fn silent_connection_is_gone_one_scan_after_its_deadline() {
    let period = CLEANUP_INTERVAL_SECS * 1000;
    let mut registry = Registry::new(10);
    let (mut quiet, _to_quiet) = open_session(&mut registry, "quiet", 0);
    let (mut lively, _to_lively) = open_session(&mut registry, "lively", 0);
    let mut now = 0;
    let mut evicted_at = None;
    while evicted_at.is_none() {
        now += period;
        lively.handle_frame_at(&mut registry, Inbound::Pong, now, 1);
        if cleanup_disconnected_clients(&mut registry, now).contains(&"quiet".to_string()) {
            evicted_at = Some(now);
        }
    }
    let at = evicted_at.unwrap();
    assert!(at > CLIENT_TIMEOUT_MS && at <= CLIENT_TIMEOUT_MS + period);
    assert!(!registry.contains("quiet"));
    assert!(registry.contains("lively"));
    assert!(quiet.close(&mut registry).is_none());
}

#[test]
fn registry_reports_what_it_does_not_know() {
    let mut registry = Registry::new(5);
    let mut a = join(&mut registry, "a", 0);
    assert!(registry.deliver("a", Frame::Binary(vec![1])));
    assert_eq!(drain(&mut a), vec![Frame::Binary(vec![1])]);
    assert!(!registry.deliver("ghost", Frame::Binary(vec![3])));
    assert!(!registry.acknowledge("ghost", 1));
    assert!(!registry.bind_identity("ghost", 1));
    assert_eq!(registry.summary("ghost"), None);
    assert!(registry.unregister("ghost").is_none());
    assert_eq!(registry.len(), 1);
    drop(a);
    assert!(!registry.deliver("a", Frame::Binary(vec![2])));
    assert!(registry.acknowledge("a", 9));
    assert!(registry.bind_identity("a", 4));
    let summary = registry.summary("a").unwrap();
    assert_eq!((summary.last_liveness, summary.identity), (9, Some(4)));
}

#[test]
fn registering_an_id_again_replaces_its_record() {
    let mut registry = Registry::new(5);
    let first = join(&mut registry, "a", 0);
    let _b = join(&mut registry, "b", 0);
    registry.bind_identity("a", 7);
    let mut second = join(&mut registry, "a", 33);
    assert!(first.is_closed());
    assert_eq!(registry.len(), 2);
    let summary = registry.summary("a").unwrap();
    assert_eq!(summary.identity, None);
    assert_eq!(summary.last_liveness, 33);
    let mut ids = registry.ids();
    ids.sort();
    assert_eq!(ids, vec!["a".to_string(), "b".to_string()]);
    assert!(registry.deliver("a", Frame::Binary(vec![5])));
    assert_eq!(drain(&mut second), vec![Frame::Binary(vec![5])]);
    let removed = registry.unregister("a").unwrap();
    assert_eq!(removed.last_liveness, 33);
    assert!(registry.unregister("a").is_none());
}

#[test]
fn refusals_carry_their_status() {
    let not_found = handle_rejection(true, false);
    assert_eq!((not_found.status, not_found.message.as_str()), (404, "Not Found"));
    let both = handle_rejection(true, true);
    assert_eq!((both.status, both.message.as_str()), (404, "Not Found"));
    let full = handle_rejection(false, true);
    assert_eq!((full.status, full.message.as_str()), (503, "Too Many Clients"));
    let other = handle_rejection(false, false);
    assert_eq!((other.status, other.message.as_str()), (500, "Internal Server Error"));
}

#[test]
fn open_under_a_taken_id_is_refused_and_the_holder_keeps_its_record() {
    let mut registry = Registry::new(5);
    let (holder, mut to_holder) = open_session(&mut registry, "a", 3);
    registry.bind_identity("a", 9);
    let mut intruder = Session::new("a".to_string());
    let (queue, mut to_intruder) = OutboundQueue::channel();
    assert_eq!(intruder.open(&mut registry, queue, 50, 60), Err(RelayError::IdTaken));
    assert_eq!(intruder.state(), SessionState::Closed);
    assert_eq!(holder.state(), SessionState::Open);
    assert_eq!(registry.len(), 1);
    let summary = registry.summary("a").unwrap();
    assert_eq!((summary.last_liveness, summary.identity), (3, Some(9)));
    assert!(drain(&mut to_intruder).is_empty());
    assert!(to_intruder.is_closed());
    assert!(!to_holder.is_closed());
    assert!(registry.deliver("a", Frame::Binary(vec![1])));
    assert_eq!(drain(&mut to_holder), vec![Frame::Binary(vec![1])]);
    assert!(intruder.close(&mut registry).is_none());
    assert!(registry.contains("a"));
}

#[test]
fn a_full_registry_refuses_before_it_looks_at_the_id() {
    let mut registry = Registry::new(1);
    let _holder = open_session(&mut registry, "a", 0);
    let mut same = Session::new("a".to_string());
    let (queue, _writer) = OutboundQueue::channel();
    assert_eq!(same.open(&mut registry, queue, 0, 0), Err(RelayError::CapacityExceeded));
}

#[test]
fn each_connect_makes_the_registry_one_larger() {
    let mut registry = Registry::new(50);
    let mut ids = Vec::new();
    for n in 0..50 {
        assert_eq!(registry.len(), n);
        let (session, _writer) = Session::connect(&mut registry, 0).unwrap();
        assert!(!ids.contains(&session.id().to_string()));
        assert!(registry.contains(session.id()));
        ids.push(session.id().to_string());
    }
    assert_eq!(registry.len(), 50);
    assert_eq!(Session::connect(&mut registry, 0).err(), Some(RelayError::CapacityExceeded));
}

#[test]
fn the_first_free_draw_is_taken() {
    let mut registry = Registry::new(5);
    let _a = join(&mut registry, "a", 0);
    let _b = join(&mut registry, "b", 0);
    let draws: Vec<String> = ["a", "b", "c", "a", "d"].iter().map(|id| id.to_string()).collect();
    assert_eq!(registry.first_free(&draws), Some("c".to_string()));
    assert_eq!(registry.first_free(&draws[..2].to_vec()), None);
    assert_eq!(registry.first_free(&Vec::new()), None);
    let (session, mut writer) = Session::connect_with(&mut registry, &draws, 7, 8).unwrap();
    assert_eq!(session.id(), "c");
    assert_eq!(session.state(), SessionState::Open);
    assert_eq!(registry.len(), 3);
    assert_eq!(drain(&mut writer), vec![Frame::Text(Envelope::welcome("c", 8))]);
    let (next, _writer) = Session::connect_with(&mut registry, &draws, 7, 8).unwrap();
    assert_eq!(next.id(), "d");
}

#[test]
fn draws_that_are_all_taken_are_refused() {
    let mut registry = Registry::new(5);
    let _a = join(&mut registry, "a", 0);
    let taken = vec!["a".to_string(), "a".to_string()];
    assert_eq!(
        Session::connect_with(&mut registry, &taken, 0, 0).err(),
        Some(RelayError::IdTaken)
    );
    assert_eq!(
        Session::connect_with(&mut registry, &Vec::new(), 0, 0).err(),
        Some(RelayError::IdTaken)
    );
    assert_eq!(registry.len(), 1);
    let mut full = Registry::new(1);
    let _b = join(&mut full, "b", 0);
    let free = vec!["c".to_string()];
    assert_eq!(
        Session::connect_with(&mut full, &free, 0, 0).err(),
        Some(RelayError::CapacityExceeded)
    );
}

#[test]
fn an_empty_registry_refuses_nobody() {
    for _ in 0..20 {
        let mut registry = Registry::new(1);
        assert!(Session::connect(&mut registry, 0).is_ok());
    }
}
