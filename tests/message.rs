use rump::message::{MessageType, WampEvent};
use rump::{Payload, WampError, WampType};
use rustc_serialize::json::{self, Json};

#[test]
fn message_enum_value() {
    assert!(MessageType::HELLO.code() == 1);
    assert!(MessageType::SUBSCRIBE.code() == 32);
}

#[test]
fn message_payload_braces() {
    let simple_brace = "[hello, world]";
    assert!(Payload::capture_braces(simple_brace, ('[', ']')) == Some((0, simple_brace.len() - 1)));
    assert!(
        Payload::capture_braces("[[hello], [test, [thing]]], [other, [stuff]]", ('[', ']'))
            == Some((0, 25))
    );
}

#[test]
fn message_extract_payload() {
    let sample_message_nokwargs = "[36,1232131,64713717171,{},[42, \"yup\"]]";
    let sample_payload = Payload::from_str(sample_message_nokwargs);
    let (number, yup): (u32, String) =
        json::decode(sample_payload.unwrap().args_text()).unwrap();
    assert!(number == 42);
    assert!(yup == "yup".to_string());

    let message_kwargs_only = "[42, 12415261, 16171, {},[],{\"field\": 42, \"binary\": false, \"word\": \"hello world\"}]";
    let payload2 = Payload::from_str(message_kwargs_only);
    let kwargs = Json::from_str(payload2.unwrap().kwargs_text().unwrap()).unwrap();
    assert!(kwargs.find("field").and_then(|v| v.as_u64()) == Some(42));
    assert!(kwargs.find("binary").and_then(|v| v.as_boolean()) == Some(false));
    assert!(kwargs.find("word").and_then(|v| v.as_string()) == Some("hello world"));
}

#[test]
fn message_type_codes_round_trip() {
    for code in 0u64..80 {
        let kind = MessageType::from_code(code);
        if kind != MessageType::NONE {
            assert_eq!(kind.code() as u64, code);
        }
    }
    assert_eq!(MessageType::from_code(36), MessageType::EVENT);
    assert_eq!(MessageType::from(33u32), MessageType::SUBSCRIBED);
    assert_eq!(MessageType::from_code(9), MessageType::NONE);
    assert_eq!(MessageType::from_code(1 << 40), MessageType::NONE);
}

fn text(s: &str) -> WampType {
    WampType::Text(s.to_string())
}

#[test]
fn decode_of_encode_gives_each_message_back() {
    let subscribed = WampEvent::Subscribed { request_id: 7, subscription_id: 99 };
    let env = subscribed.encode();
    assert_eq!(env, vec![WampType::UInt(33), WampType::UInt(7), WampType::UInt(99)]);
    assert_eq!(
        WampEvent::decode(env),
        Ok(WampEvent::Subscribed { request_id: 7, subscription_id: 99 })
    );

    let publish = || WampEvent::Publish {
        request_id: 5,
        options: WampType::Object(Vec::new()),
        topic: "com.myapp.topic1".to_string(),
        args: vec![WampType::UInt(42), text("hi")],
        kwargs: WampType::Object(vec![("k".to_string(), WampType::Bool(true))]),
    };
    let env = publish().encode();
    assert_eq!(env.len(), 6);
    assert_eq!(env[0], WampType::UInt(16));
    assert_eq!(WampEvent::decode(env), Ok(publish()));

    let event = || WampEvent::Event {
        subscription_id: 3,
        publication_id: 4,
        details: WampType::Object(Vec::new()),
        args: vec![WampType::Int(-1)],
        kwargs: None,
    };
    let env = event().encode();
    assert_eq!(env.len(), 5);
    assert_eq!(WampEvent::decode(env), Ok(event()));

    let hello = || WampEvent::Hello { realm: "realm1".to_string(), details: WampType::Null };
    assert_eq!(WampEvent::decode(hello().encode()), Ok(hello()));
    let abort = || WampEvent::Abort { details: WampType::Null, reason: "wamp.error.no_such_realm".to_string() };
    assert_eq!(WampEvent::decode(abort().encode()), Ok(abort()));
    let subscribe = || WampEvent::Subscribe { request_id: 1, options: WampType::Null, topic: "t".to_string() };
    assert_eq!(WampEvent::decode(subscribe().encode()), Ok(subscribe()));
}

#[test]
fn event_with_kwargs_has_six_fields() {
    let event = || WampEvent::Event {
        subscription_id: 3,
        publication_id: 4,
        details: WampType::Null,
        args: Vec::new(),
        kwargs: Some(WampType::Object(vec![("a".to_string(), WampType::UInt(1))])),
    };
    let env = event().encode();
    assert_eq!(env.len(), 6);
    assert_eq!(WampEvent::decode(env), Ok(event()));
}

#[test]
fn wrong_field_count_is_a_protocol_error() {
    let too_long = vec![WampType::UInt(33), WampType::UInt(7), WampType::UInt(99), WampType::Null];
    assert_eq!(WampEvent::decode(too_long), Err(WampError::ProtocolError));
    let too_short = vec![WampType::UInt(36), WampType::UInt(1), WampType::UInt(2), WampType::Null];
    assert_eq!(WampEvent::decode(too_short), Err(WampError::ProtocolError));
    let event_seven = vec![
        WampType::UInt(36),
        WampType::UInt(1),
        WampType::UInt(2),
        WampType::Null,
        WampType::List(Vec::new()),
        WampType::Null,
        WampType::Null,
    ];
    assert_eq!(WampEvent::decode(event_seven), Err(WampError::ProtocolError));
}

#[test]
fn malformed_envelopes_are_protocol_errors() {
    assert_eq!(WampEvent::decode(Vec::new()), Err(WampError::ProtocolError));
    assert_eq!(WampEvent::decode(vec![text("33"), WampType::UInt(1), WampType::UInt(2)]), Err(WampError::ProtocolError));
    assert_eq!(WampEvent::decode(vec![WampType::UInt(9), WampType::UInt(1), WampType::UInt(2)]), Err(WampError::ProtocolError));
    assert_eq!(WampEvent::decode(vec![WampType::UInt(33), text("1"), WampType::UInt(2)]), Err(WampError::ProtocolError));
    assert_eq!(WampEvent::decode(vec![WampType::UInt(48), WampType::UInt(1), WampType::Null]), Err(WampError::ProtocolError));
}

#[test]
fn capture_braces_edge_cases() {
    assert_eq!(Payload::capture_braces("", ('[', ']')), None);
    assert_eq!(Payload::capture_braces("no brackets", ('[', ']')), None);
    assert_eq!(Payload::capture_braces("[[unbalanced]", ('[', ']')), None);
    assert_eq!(Payload::capture_braces("] x [a]", ('[', ']')), Some((4, 6)));
    assert_eq!(Payload::capture_braces("{\"é\": {}}", ('{', '}')), Some((0, 9)));
}

#[test]
fn payload_without_kwargs_reports_a_decode_error() {
    let payload = Payload::from_str("[36,1232131,64713717171,{},[42, \"yup\"]]").unwrap();
    assert!(payload.has_args());
    assert!(!payload.has_kwargs());
    assert_eq!(payload.args_text(), "[42, \"yup\"]");
    let (n, s): (u32, String) = json::decode(payload.args_text()).unwrap();
    assert_eq!((n, s.as_str()), (42, "yup"));
    assert_eq!(payload.kwargs_text(), Err(WampError::DecodeError));
}

#[test]
fn payload_with_kwargs_and_nesting() {
    let payload = Payload::from_str("[36,1,2,{\"a\":{}},[[1],[2]],{\"x\":{\"y\":[3]}}]").unwrap();
    assert_eq!(payload.args_text(), "[[1],[2]]");
    assert_eq!(payload.kwargs_text(), Ok("{\"x\":{\"y\":[3]}}"));
}

#[test]
fn payload_of_frame_without_arguments_is_a_protocol_error() {
    assert!(matches!(Payload::from_str("[36,1,2,{}]"), Err(WampError::ProtocolError)));
    assert!(matches!(Payload::from_str(""), Err(WampError::ProtocolError)));
}
