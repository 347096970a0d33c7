use signal_relay::admission::check_admission;
use signal_relay::envelope::{Envelope, Frame};
use signal_relay::error::RelayError;
use signal_relay::registry::Registry;
use signal_relay::router::Routing;
use signal_relay::session::{Disposition, Inbound, Session, SessionState};
use signal_relay::wire::encode_envelope;
use tokio::sync::mpsc::UnboundedReceiver;

type Writer = UnboundedReceiver<Frame>;

fn drain(writer: &mut Writer) -> Vec<Frame> {
    let mut frames = Vec::new();
    while let Ok(frame) = writer.try_recv() {
        frames.push(frame);
    }
    frames
}

fn welcome_of(writer: &mut Writer) -> Envelope {
    match writer.try_recv() {
        Ok(Frame::Text(envelope)) => envelope,
        other => panic!("no welcome: {:?}", other),
    }
}

#[test]
fn three_peers_offer_reaches_the_two_others() {
    let mut registry = Registry::new(10);
    let (mut a, mut to_a) = Session::connect(&mut registry, 0).unwrap();
    let (b, mut to_b) = Session::connect(&mut registry, 0).unwrap();
    let (c, mut to_c) = Session::connect(&mut registry, 0).unwrap();
    assert_eq!(registry.len(), 3);
    assert_ne!(a.id(), b.id());
    assert_ne!(a.id(), c.id());
    assert_ne!(b.id(), c.id());

    for (session, writer) in [(&a, &mut to_a), (&b, &mut to_b), (&c, &mut to_c)] {
        let welcome = welcome_of(writer);
        assert_eq!(welcome.msg_type, "welcome");
        assert_eq!(welcome.sender_id, None);
        assert_eq!(
            welcome.data,
            Some(format!(
                "{{\"client_id\":\"{}\",\"server_time\":{}}}",
                session.id(),
                welcome.timestamp
            ))
        );
        assert_eq!(session.id().len(), 36);
        assert!(drain(writer).is_empty());
    }

    let offer = Envelope {
        msg_type: "offer".to_string(),
        data: Some("{\"sdp\":\"...\"}".to_string()),
        timestamp: 1700000000,
        sender_id: None,
    };
    let sent = "{\"type\":\"offer\",\"data\":{\"sdp\":\"...\"},\"timestamp\":1700000000}";
    let disposition = a.handle_frame(&mut registry, Inbound::Text(sent.to_string()), 5);
    assert_eq!(disposition, Disposition::Routed(Routing::Broadcast { sent_count: 2 }));
    assert_eq!(drain(&mut to_b), vec![Frame::Text(offer.clone())]);
    assert_eq!(drain(&mut to_c), vec![Frame::Text(offer)]);
    assert_eq!(drain(&mut to_a), Vec::<Frame>::new());
    assert_eq!(a.state(), SessionState::Open);
}

#[test]
fn full_registry_refuses_the_next_upgrade() {
    let capacity = 4;
    let mut registry = Registry::new(capacity);
    let mut sessions = Vec::new();
    for _ in 0..capacity {
        sessions.push(Session::connect(&mut registry, 0).unwrap());
    }
    assert_eq!(registry.len(), capacity);
    assert_eq!(check_admission(&registry), Err(RelayError::CapacityExceeded));
    let refused = Session::connect(&mut registry, 0);
    assert_eq!(refused.err(), Some(RelayError::CapacityExceeded));
    assert_eq!(registry.len(), capacity);
    for (session, _) in &sessions {
        assert!(registry.contains(session.id()));
    }
}

#[test]
fn a_place_freed_by_a_close_is_given_out_again() {
    let mut registry = Registry::new(1);
    let (mut first, _to_first) = Session::connect(&mut registry, 0).unwrap();
    assert!(Session::connect(&mut registry, 0).is_err());
    let removed = first.close(&mut registry);
    assert!(removed.is_some());
    assert_eq!(registry.len(), 0);
    assert!(check_admission(&registry).is_ok());
    let (second, _to_second) = Session::connect(&mut registry, 1).unwrap();
    assert_eq!(registry.len(), 1);
    assert!(registry.contains(second.id()));
    assert!(!registry.contains(first.id()));
}

#[test]
fn text_ping_is_answered_to_its_sender_alone() {
    let mut registry = Registry::new(10);
    let (mut a, mut to_a) = Session::connect(&mut registry, 0).unwrap();
    let (_b, mut to_b) = Session::connect(&mut registry, 0).unwrap();
    welcome_of(&mut to_a);
    welcome_of(&mut to_b);

    let ping = "{\"type\":\"ping\",\"timestamp\":1700000000}".to_string();
    let disposition = a.handle_frame_at(&mut registry, Inbound::Text(ping), 5, 1700000042);
    assert_eq!(disposition, Disposition::Routed(Routing::Replied { queued: true }));
    assert_eq!(
        drain(&mut to_a),
        vec![Frame::Text(Envelope {
            msg_type: "pong".to_string(),
            data: None,
            timestamp: 1700000042,
            sender_id: None,
        })]
    );
    assert!(drain(&mut to_b).is_empty());
}

#[test]
fn text_ping_without_a_timestamp_is_malformed() {
    let mut registry = Registry::new(10);
    let (mut a, mut to_a) = Session::connect(&mut registry, 0).unwrap();
    welcome_of(&mut to_a);
    let bare = "{\"type\":\"ping\"}".to_string();
    assert_eq!(
        a.handle_frame(&mut registry, Inbound::Text(bare), 5),
        Disposition::Dropped(RelayError::ParseError)
    );
    assert!(drain(&mut to_a).is_empty());
    assert_eq!(a.state(), SessionState::Open);
}

#[test]
fn text_user_info_binds_the_latest_identity() {
    let mut registry = Registry::new(10);
    let (mut a, mut to_a) = Session::connect(&mut registry, 0).unwrap();
    let (b, mut to_b) = Session::connect(&mut registry, 0).unwrap();
    for user_id in [7u32, 42] {
        let text =
            format!("{{\"type\":\"user_info\",\"timestamp\":1,\"data\":{{\"user_id\":{}}}}}", user_id);
        assert_eq!(
            a.handle_frame(&mut registry, Inbound::Text(text), 5),
            Disposition::Routed(Routing::Identified { identity: Some(user_id) })
        );
        assert_eq!(registry.summary(a.id()).unwrap().identity, Some(user_id));
    }
    assert_eq!(registry.summary(b.id()).unwrap().identity, None);
    assert_eq!(drain(&mut to_a).len(), 1);
    assert_eq!(drain(&mut to_b).len(), 1);
}

#[test]
fn relayed_envelope_goes_out_as_it_came_in() {
    let mut registry = Registry::new(10);
    let (mut a, _to_a) = Session::connect(&mut registry, 0).unwrap();
    let (_b, mut to_b) = Session::connect(&mut registry, 0).unwrap();
    welcome_of(&mut to_b);
    let sent = "{\"type\":\"answer\",\"data\":{\"sdp\":\"v=0\"},\"timestamp\":12,\"sender_id\":3}";
    a.handle_frame(&mut registry, Inbound::Text(sent.to_string()), 5);
    match to_b.try_recv() {
        Ok(Frame::Text(envelope)) => assert_eq!(encode_envelope(&envelope), sent),
        other => panic!("nothing relayed: {:?}", other),
    }
}

#[test]
fn writer_ends_when_the_record_is_gone() {
    let mut registry = Registry::new(10);
    let (mut a, mut to_a) = Session::connect(&mut registry, 0).unwrap();
    welcome_of(&mut to_a);
    assert!(to_a.try_recv().is_err());
    assert!(!to_a.is_closed());
    drop(a.close(&mut registry));
    assert!(to_a.is_closed());
}
