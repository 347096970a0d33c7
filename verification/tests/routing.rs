use signal_relay::broadcaster::{broadcast_binary, broadcast_message};
use signal_relay::envelope::{Envelope, Frame};
use signal_relay::queue::OutboundQueue;
use signal_relay::record::ConnectionRecord;
use signal_relay::registry::Registry;
use signal_relay::router::{handle_p2p_message, read_identity, Routing};
use tokio::sync::mpsc::UnboundedReceiver;

type Writer = UnboundedReceiver<Frame>;

fn join(registry: &mut Registry, id: &str) -> Writer {
    let (queue, writer) = OutboundQueue::channel();
    registry.register(id.to_string(), ConnectionRecord::new(queue, 0)).unwrap();
    writer
}

fn envelope(msg_type: &str, data: Option<&str>) -> Envelope {
    Envelope {
        msg_type: msg_type.to_string(),
        data: data.map(|text| text.to_string()),
        timestamp: 1700000000,
        sender_id: None,
    }
}

fn drain(writer: &mut Writer) -> Vec<Frame> {
    let mut frames = Vec::new();
    while let Ok(frame) = writer.try_recv() {
        frames.push(frame);
    }
    frames
}

#[test]
fn ping_is_answered_with_one_pong_to_the_sender_alone() {
    let mut registry = Registry::new(100);
    let mut a = join(&mut registry, "a");
    let mut b = join(&mut registry, "b");
    let mut c = join(&mut registry, "c");
    let routing = handle_p2p_message(&mut registry, "a", envelope("ping", None), 1234);
    assert_eq!(routing, Routing::Replied { queued: true });
    let expected = Envelope {
        msg_type: "pong".to_string(),
        data: None,
        timestamp: 1234,
        sender_id: None,
    };
    assert_eq!(Envelope::pong(1234), expected);
    assert_eq!(drain(&mut a), vec![Frame::Text(expected)]);
    assert!(drain(&mut b).is_empty());
    assert!(drain(&mut c).is_empty());
}

#[test]
fn ping_of_an_unregistered_sender_reaches_nobody() {
    let mut registry = Registry::new(100);
    let mut b = join(&mut registry, "b");
    let routing = handle_p2p_message(&mut registry, "ghost", envelope("ping", None), 1);
    assert_eq!(routing, Routing::Replied { queued: false });
    assert!(drain(&mut b).is_empty());
    assert_eq!(registry.len(), 1);
}

#[test]
fn ping_of_a_sender_without_writer_is_not_queued() {
    let mut registry = Registry::new(100);
    let a = join(&mut registry, "a");
    let mut b = join(&mut registry, "b");
    drop(a);
    let routing = handle_p2p_message(&mut registry, "a", envelope("ping", None), 1);
    assert_eq!(routing, Routing::Replied { queued: false });
    assert!(drain(&mut b).is_empty());
    assert!(registry.contains("a"));
}

#[test]
fn later_user_info_replaces_the_earlier_identity() {
    let mut registry = Registry::new(100);
    let mut a = join(&mut registry, "a");
    let mut b = join(&mut registry, "b");
    assert_eq!(registry.summary("a").unwrap().identity, None);
    let first = handle_p2p_message(
        &mut registry,
        "a",
        envelope("user_info", Some("{\"user_id\":7}")),
        1,
    );
    assert_eq!(first, Routing::Identified { identity: Some(7) });
    assert_eq!(registry.summary("a").unwrap().identity, Some(7));
    let second = handle_p2p_message(
        &mut registry,
        "a",
        envelope("user_info", Some("{\"user_id\":42,\"name\":\"x\"}")),
        2,
    );
    assert_eq!(second, Routing::Identified { identity: Some(42) });
    assert_eq!(registry.summary("a").unwrap().identity, Some(42));
    assert_eq!(registry.summary("b").unwrap().identity, None);
    assert!(drain(&mut a).is_empty());
    assert!(drain(&mut b).is_empty());
}

#[test]
fn user_info_without_a_numeric_user_id_binds_nothing() {
    let payloads = [
        None,
        Some("{}"),
        Some("{\"user_id\":\"7\"}"),
        Some("{\"user_id\":-1}"),
        Some("{\"user_id\":1.5}"),
        Some("{\"user_id\":null}"),
        Some("[7]"),
        Some("not json"),
        Some("{\"other\":7}"),
    ];
    for payload in payloads {
        let mut registry = Registry::new(100);
        let _a = join(&mut registry, "a");
        let msg = envelope("user_info", payload);
        assert_eq!(read_identity(&msg), None, "{:?}", payload);
        let routing = handle_p2p_message(&mut registry, "a", msg, 1);
        assert_eq!(routing, Routing::Identified { identity: None });
        assert_eq!(registry.summary("a").unwrap().identity, None);
    }
}

#[test]
fn user_id_is_cut_to_thirty_two_bits() {
    let named = |text: &str| read_identity(&envelope("user_info", Some(text)));
    assert_eq!(named("{\"user_id\":0}"), Some(0));
    assert_eq!(named("{\"user_id\":4294967295}"), Some(4294967295));
    assert_eq!(named("{\"user_id\":4294967296}"), Some(0));
    assert_eq!(named("{\"user_id\":4294967303}"), Some(7));
    assert_eq!(named("{\"user_id\":18446744073709551615}"), Some(4294967295));
    assert_eq!(named("{\"user_id\":18446744073709551616}"), None);
}

#[test]
fn user_info_of_an_unregistered_sender_binds_nothing() {
    let mut registry = Registry::new(100);
    let _b = join(&mut registry, "b");
    let routing = handle_p2p_message(
        &mut registry,
        "ghost",
        envelope("user_info", Some("{\"user_id\":7}")),
        1,
    );
    assert_eq!(routing, Routing::Identified { identity: None });
    assert_eq!(registry.summary("b").unwrap().identity, None);
    assert!(!registry.contains("ghost"));
}

#[test]
fn unknown_types_are_broadcast_unchanged() {
    for msg_type in ["offer", "answer", "ice-candidate", "welcome", "pong", "", "PING"] {
        let mut registry = Registry::new(100);
        let mut a = join(&mut registry, "a");
        let mut b = join(&mut registry, "b");
        let mut c = join(&mut registry, "c");
        let msg = Envelope {
            msg_type: msg_type.to_string(),
            data: Some("{\"k\":[1,2,3]}".to_string()),
            timestamp: 99,
            sender_id: Some(17),
        };
        let routing = handle_p2p_message(&mut registry, "a", msg.clone(), 5);
        assert_eq!(routing, Routing::Broadcast { sent_count: 2 }, "{}", msg_type);
        assert_eq!(drain(&mut b), vec![Frame::Text(msg.clone())]);
        assert_eq!(drain(&mut c), vec![Frame::Text(msg)]);
        assert!(drain(&mut a).is_empty());
    }
}

#[test]
fn broadcast_passes_over_queues_without_writer_and_goes_on() {
    let mut registry = Registry::new(100);
    let mut a = join(&mut registry, "a");
    let mut b = join(&mut registry, "b");
    let c = join(&mut registry, "c");
    let mut d = join(&mut registry, "d");
    drop(c);
    let msg = envelope("offer", None);
    let sent = broadcast_message(&mut registry, "a", &msg);
    assert_eq!(sent, 2);
    assert_eq!(drain(&mut b), vec![Frame::Text(msg.clone())]);
    assert_eq!(drain(&mut d), vec![Frame::Text(msg)]);
    assert!(drain(&mut a).is_empty());
    assert_eq!(registry.len(), 4);
}

#[test]
fn broadcast_of_an_unregistered_sender_reaches_everyone() {
    let mut registry = Registry::new(100);
    let mut a = join(&mut registry, "a");
    let mut b = join(&mut registry, "b");
    let sent = broadcast_binary(&mut registry, "ghost", &[1, 2, 3]);
    assert_eq!(sent, 2);
    assert_eq!(drain(&mut a), vec![Frame::Binary(vec![1, 2, 3])]);
    assert_eq!(drain(&mut b), vec![Frame::Binary(vec![1, 2, 3])]);
}

#[test]
fn broadcast_in_an_empty_or_lonely_registry_reaches_nobody() {
    let mut empty = Registry::new(10);
    assert_eq!(broadcast_binary(&mut empty, "a", &[9]), 0);
    assert_eq!(empty.len(), 0);
    let mut lonely = Registry::new(10);
    let mut a = join(&mut lonely, "a");
    assert_eq!(broadcast_message(&mut lonely, "a", &envelope("offer", None)), 0);
    assert!(drain(&mut a).is_empty());
}

#[test]
fn each_recipient_receives_broadcasts_in_the_order_sent() {
    let mut registry = Registry::new(100);
    let mut a = join(&mut registry, "a");
    let mut b = join(&mut registry, "b");
    let mut c = join(&mut registry, "c");
    broadcast_binary(&mut registry, "a", &[1]);
    broadcast_binary(&mut registry, "c", &[2]);
    broadcast_binary(&mut registry, "a", &[3]);
    assert_eq!(
        drain(&mut b),
        vec![Frame::Binary(vec![1]), Frame::Binary(vec![2]), Frame::Binary(vec![3])]
    );
    assert_eq!(drain(&mut a), vec![Frame::Binary(vec![2])]);
    assert_eq!(drain(&mut c), vec![Frame::Binary(vec![1]), Frame::Binary(vec![3])]);
}

#[test]
fn a_broadcast_many_times_over_reaches_each_other_connection_once() {
    let mut registry = Registry::new(1000);
    let mut writers: Vec<(String, Writer)> = Vec::new();
    for n in 0..200 {
        let id = format!("peer-{}", n);
        let writer = join(&mut registry, &id);
        writers.push((id, writer));
    }
    assert_eq!(broadcast_binary(&mut registry, "peer-17", &[7, 7]), 199);
    for (id, writer) in writers.iter_mut() {
        let expected = if id == "peer-17" { vec![] } else { vec![Frame::Binary(vec![7, 7])] };
        assert_eq!(drain(writer), expected, "{}", id);
    }
}
