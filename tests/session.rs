use rump::client::Client;
use rump::message::WampEvent;
use rump::options::{Details, Options};
use rump::session::{Dispatch, Session, SessionState};
use rump::transport::{Serializer, SerializerType};
use rump::{WampError, WampType};
use rustc_serialize::json::Json;
use std::collections::BTreeMap;

fn joined() -> Session {
    let mut s = Session::new();
    assert_eq!(s.join("realm1"), Ok(()));
    let hello = s.pop_outbound().unwrap();
    assert_eq!(hello.len(), 3);
    assert_eq!(hello[0], WampType::UInt(1));
    assert_eq!(hello[1], WampType::Text("realm1".to_string()));
    s
}

fn to_json(v: &WampType) -> Json {
    match v {
        WampType::UInt(n) => Json::U64(*n),
        WampType::Int(n) => Json::I64(*n),
        WampType::Bool(b) => Json::Boolean(*b),
        WampType::Text(t) => Json::String(t.clone()),
        WampType::List(items) => Json::Array(items.iter().map(to_json).collect()),
        WampType::Object(entries) => {
            let mut m = BTreeMap::new();
            for (k, v) in entries {
                m.insert(k.clone(), to_json(v));
            }
            Json::Object(m)
        }
        WampType::Null => Json::Object(BTreeMap::new()),
    }
}

fn subscribed(request_id: u64, subscription_id: u64) -> WampEvent {
    WampEvent::Subscribed { request_id, subscription_id }
}

fn event(subscription_id: u64) -> WampEvent {
    WampEvent::Event {
        subscription_id,
        publication_id: 77,
        details: WampType::Object(Vec::new()),
        args: vec![WampType::UInt(1)],
        kwargs: None,
    }
}

#[test]
fn operations_before_join_fail_with_not_connected() {
    let mut s = Session::new();
    assert_eq!(s.state(), SessionState::NotConnected);
    assert_eq!(s.publish("t", Vec::new(), WampType::Null), Err(WampError::NotConnected));
    assert_eq!(s.subscribe("t", 1), Err(WampError::NotConnected));
    assert!(matches!(s.dispatch(event(1)), Err(WampError::NotConnected)));
    assert!(s.pop_outbound().is_none());
}

#[test]
fn join_twice_is_a_misuse() {
    let mut s = joined();
    assert_eq!(s.state(), SessionState::Established);
    assert_eq!(s.join("realm1"), Err(WampError::AlreadyJoined));
    assert!(s.pop_outbound().is_none());
}

#[test]
fn hello_announces_every_role_without_features() {
    let mut s = Session::new();
    s.join("realm1").unwrap();
    let hello = s.pop_outbound().unwrap();
    let details = to_json(&hello[2]);
    let roles = details.find("roles").unwrap();
    for role in ["caller", "callee", "publisher", "subscriber"] {
        let features = roles.find(role).unwrap().find("features").unwrap().as_object().unwrap();
        assert!(!features.is_empty());
        assert!(features.values().all(|v| v.as_boolean() == Some(false)));
    }
    let callee = roles.find("callee").unwrap().find("features").unwrap();
    assert!(callee.find("shared_registration").is_some());
}

#[test]
fn request_ids_are_pairwise_distinct() {
    let mut s = joined();
    let mut ids = Vec::new();
    for i in 0..50u64 {
        if i % 2 == 0 {
            ids.push(s.subscribe("com.myapp.topic1", i).unwrap());
        } else {
            ids.push(s.publish("com.myapp.topic1", Vec::new(), WampType::Null).unwrap());
        }
    }
    for i in 0..ids.len() {
        assert!(ids[i] >= 1);
        for j in 0..i {
            assert_ne!(ids[i], ids[j]);
        }
    }
}

#[test]
fn subscribed_moves_the_request_into_the_index() {
    let mut s = joined();
    let r = s.subscribe("t", 10).unwrap();
    let sub = s.pop_outbound().unwrap();
    assert_eq!(sub.len(), 4);
    assert_eq!(sub[0], WampType::UInt(32));
    assert_eq!(sub[1], WampType::UInt(r));
    assert_eq!(sub[3], WampType::Text("t".to_string()));
    assert!(matches!(
        s.dispatch(subscribed(r, 555)),
        Ok(Dispatch::Subscribed { request_id, subscription_id: 555 }) if request_id == r
    ));
    match s.dispatch(event(555)) {
        Ok(Dispatch::Deliver { callbacks }) => assert_eq!(callbacks, vec![10]),
        other => panic!("unexpected {:?}", other),
    }
    // The request is no longer pending: a second confirmation is a violation.
    assert!(matches!(s.dispatch(subscribed(r, 555)), Err(WampError::ProtocolError)));
}

#[test]
fn subscribed_for_an_unknown_request_is_a_protocol_error() {
    let mut s = joined();
    let r = s.subscribe("t", 10).unwrap();
    assert!(matches!(s.dispatch(subscribed(r + 1000, 9)), Err(WampError::ProtocolError)));
    // The index is unchanged: no subscription 9 exists.
    assert!(matches!(s.dispatch(event(9)), Err(WampError::ProtocolError)));
    // The real request is still pending.
    assert!(matches!(s.dispatch(subscribed(r, 9)), Ok(Dispatch::Subscribed { .. })));
}

#[test]
fn event_for_an_unknown_subscription_is_a_protocol_error() {
    let mut s = joined();
    assert!(matches!(s.dispatch(event(12345)), Err(WampError::ProtocolError)));
    assert_eq!(s.state(), SessionState::Established);
}

#[test]
fn one_event_reaches_every_callback_of_its_topic_in_order() {
    let mut s = joined();
    let r1 = s.subscribe("com.myapp.topic1", 1).unwrap();
    let r2 = s.subscribe("com.myapp.topic1", 2).unwrap();
    let r3 = s.subscribe("other", 3).unwrap();
    assert!(s.dispatch(subscribed(r1, 40)).is_ok());
    assert!(s.dispatch(subscribed(r3, 41)).is_ok());
    assert!(s.dispatch(subscribed(r2, 40)).is_ok());
    match s.dispatch(event(40)) {
        Ok(Dispatch::Deliver { callbacks }) => assert_eq!(callbacks, vec![1, 2]),
        other => panic!("unexpected {:?}", other),
    }
    match s.dispatch(event(41)) {
        Ok(Dispatch::Deliver { callbacks }) => assert_eq!(callbacks, vec![3]),
        other => panic!("unexpected {:?}", other),
    }
}

#[test]
fn publish_frame_has_the_publish_shape() {
    let mut s = joined();
    let kwargs = WampType::Object(Vec::new());
    let id = s
        .publish("com.myapp.topic1", vec![WampType::UInt(42), WampType::Text("hi".to_string())], kwargs)
        .unwrap();
    let env = s.pop_outbound().unwrap();
    let frame = to_json(&WampType::List(env)).to_string();
    let parsed = Json::from_str(&frame).unwrap();
    let fields = parsed.as_array().unwrap();
    assert_eq!(fields.len(), 6);
    assert_eq!(fields[0].as_u64(), Some(16));
    assert_eq!(fields[1].as_u64(), Some(id));
    assert!(fields[2].as_object().unwrap().is_empty());
    assert_eq!(fields[3].as_string(), Some("com.myapp.topic1"));
    let args = fields[4].as_array().unwrap();
    assert_eq!(args[0].as_u64(), Some(42));
    assert_eq!(args[1].as_string(), Some("hi"));
    assert!(fields[5].as_object().unwrap().is_empty());
    assert!(frame.starts_with("[16,"));
}

#[test]
fn frames_leave_in_the_order_they_were_queued() {
    let mut s = joined();
    let a = s.publish("a", Vec::new(), WampType::Null).unwrap();
    let b = s.subscribe("b", 1).unwrap();
    assert_eq!(s.pop_outbound().unwrap()[1], WampType::UInt(a));
    assert_eq!(s.pop_outbound().unwrap()[1], WampType::UInt(b));
    assert!(s.pop_outbound().is_none());
}

#[test]
fn close_fails_every_pending_subscription() {
    let mut s = joined();
    let r1 = s.subscribe("a", 1).unwrap();
    let r2 = s.subscribe("b", 2).unwrap();
    let r3 = s.subscribe("c", 3).unwrap();
    assert!(s.dispatch(subscribed(r2, 8)).is_ok());
    let failed = s.close();
    assert_eq!(failed, vec![(r1, WampError::ConnectionClosed), (r3, WampError::ConnectionClosed)]);
    assert_eq!(s.state(), SessionState::Closed);
    assert_eq!(s.subscribe("d", 4), Err(WampError::NotConnected));
    assert_eq!(s.publish("d", Vec::new(), WampType::Null), Err(WampError::NotConnected));
    assert_eq!(s.join("realm1"), Err(WampError::NotConnected));
    assert!(s.close().is_empty());
}

#[test]
fn abort_from_the_router_closes_the_session() {
    let mut s = joined();
    let r = s.subscribe("a", 1).unwrap();
    let goodbye = WampEvent::Goodbye { details: WampType::Null, reason: "wamp.close.system_shutdown".to_string() };
    match s.dispatch(goodbye) {
        Ok(Dispatch::Closed { failed }) => assert_eq!(failed, vec![(r, WampError::ConnectionClosed)]),
        other => panic!("unexpected {:?}", other),
    }
    assert_eq!(s.state(), SessionState::Closed);
    assert!(matches!(s.dispatch(event(1)), Err(WampError::NotConnected)));
}

#[test]
fn welcome_needs_nothing_and_router_only_messages_are_violations() {
    let mut s = joined();
    let welcome = WampEvent::Welcome { session_id: 9, details: WampType::Null };
    assert!(matches!(s.dispatch(welcome), Ok(Dispatch::Nothing)));
    let hello = WampEvent::Hello { realm: "r".to_string(), details: WampType::Null };
    assert!(matches!(s.dispatch(hello), Err(WampError::ProtocolError)));
}

#[test]
fn serializer_and_client_settings() {
    let json = Serializer::json();
    assert_eq!(json.mode(), SerializerType::JSON);
    assert!(!json.is_binary());
    assert_eq!(json.protocol(), "wamp.2.json");
    assert_eq!(Serializer::new(SerializerType::JSON).protocol(), "wamp.2.json");
    let client = Client::new("ws://localhost:8080/ws", "realm1");
    assert_eq!(client.url(), "ws://localhost:8080/ws");
    assert_eq!(client.realm(), "realm1");
}

#[test]
fn options_and_details_encodings() {
    assert_eq!(Options::Empty.encode(), WampType::Object(Vec::new()));
    let details = to_json(&Details::new().encode());
    let publisher = details.find_path(&["roles", "publisher", "features"]).unwrap();
    assert_eq!(publisher.find("publisher_exclusion").and_then(|v| v.as_boolean()), Some(false));
}

#[test]
fn received_envelopes_are_decoded_then_dispatched() {
    let mut s = joined();
    let r = s.subscribe("t", 4).unwrap();
    let confirm = vec![WampType::UInt(33), WampType::UInt(r), WampType::UInt(70)];
    assert!(matches!(s.receive(confirm), Ok(Dispatch::Subscribed { subscription_id: 70, .. })));
    let short = vec![WampType::UInt(36), WampType::UInt(70)];
    assert!(matches!(s.receive(short), Err(WampError::ProtocolError)));
    let ev = vec![
        WampType::UInt(36),
        WampType::UInt(70),
        WampType::UInt(1),
        WampType::Object(Vec::new()),
        WampType::List(vec![WampType::UInt(42)]),
    ];
    match s.receive(ev) {
        Ok(Dispatch::Deliver { callbacks }) => assert_eq!(callbacks, vec![4]),
        other => panic!("unexpected {:?}", other),
    }
}
