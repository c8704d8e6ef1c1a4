use chat_relay::envelope::{decode, DecodeError, Envelope, MessageKind};
use chat_relay::registry::Registry;
use chat_relay::session::{
    build_chat_payload, welcome_frame, Action, Ending, Event, Phase, Session, HUB_CAPACITY,
};

const WELCOME: &str =
    r#"{"messageType":"message","data":"{\"from\": \"System\", \"message\": \"Welcome to chat!\"}"}"#;

fn active(id: &str, registry: &mut Registry) -> Session {
    let (mut session, greeting) = Session::open(id.to_string());
    assert_eq!(greeting, Action::Send(WELCOME.to_string()));
    assert_eq!(session.step(registry, Event::WelcomeSent), Action::Idle);
    assert_eq!(session.phase(), Phase::Active);
    session
}

fn frame(text: &str) -> Event {
    Event::Frame(text.to_string())
}

/// Hands a published text to every session, as the hub does, and collects
/// what each of them has sent to its client.
fn fan_out(sessions: &mut Vec<Session>, registry: &mut Registry, text: &str) -> Vec<Option<String>> {
    let mut received = Vec::new();
    for session in sessions.iter_mut() {
        match session.step(registry, Event::Broadcast(text.to_string())) {
            Action::Send(text) => received.push(Some(text)),
            Action::Idle => received.push(None),
            Action::Publish(_) => panic!("a broadcast item is never published again"),
        }
    }
    received
}

fn published(action: Action) -> String {
    match action {
        Action::Publish(text) => text,
        other => panic!("expected a publish, got {:?}", other),
    }
}

#[test]
fn welcome_frame_is_a_message_from_system() {
    assert_eq!(welcome_frame(), WELCOME);
    let envelope = decode(&welcome_frame()).unwrap();
    assert_eq!(envelope.message_type, MessageKind::Message);
    assert_eq!(envelope.data_array, None);
    let payload: serde_json::Value = serde_json::from_str(&envelope.data.unwrap()).unwrap();
    assert_eq!(payload.get("from").and_then(|from| from.as_str()), Some("System"));
    assert_eq!(payload.get("message").and_then(|text| text.as_str()), Some("Welcome to chat!"));
}

#[test]
fn chat_payload_has_the_fixed_form() {
    assert_eq!(build_chat_payload("bob", "hi"), r#"{"from": "bob", "message": "hi"}"#);
    assert_eq!(build_chat_payload("", ""), r#"{"from": "", "message": ""}"#);
}

#[test]
fn chat_payload_escapes_both_texts() {
    assert_eq!(build_chat_payload("bob", "a\"b"), r#"{"from": "bob", "message": "a\"b"}"#);
    assert_eq!(
        build_chat_payload("b\\o\"b", "line\nbreak\ttab\u{1}"),
        r#"{"from": "b\\o\"b", "message": "line\nbreak\ttab\u0001"}"#
    );
}

#[test]
fn chat_payload_reads_back_as_json() {
    for (from, message) in [
        ("bob", "hi"),
        ("bob", "a\"b"),
        ("\"", "\\"),
        ("ann\n", "{\"from\": \"eve\"}"),
        ("é", "\u{0}\u{1f}\u{7f}"),
        ("", ""),
    ] {
        let payload: serde_json::Value =
            serde_json::from_str(&build_chat_payload(from, message)).unwrap();
        let mut expected = serde_json::Map::new();
        expected.insert("from".to_string(), serde_json::Value::String(from.to_string()));
        expected.insert("message".to_string(), serde_json::Value::String(message.to_string()));
        assert_eq!(payload, serde_json::Value::Object(expected));
    }
}

#[test]
fn message_with_a_quotation_mark_reads_back() {
    let mut registry = Registry::new();
    registry.register("c1", "bob");
    let mut session = active("c1", &mut registry);
    let mut published_texts = vec![];
    for event in [frame(r#"{"messageType":"message","data":"a\"b"}"#), Event::Disconnected] {
        if let Action::Publish(text) = session.step(&mut registry, event) {
            published_texts.push(text);
        }
    }
    assert_eq!(session.phase(), Phase::Closed(Ending::Clean));
    assert_eq!(published_texts.len(), 1);
    assert_eq!(
        published_texts[0],
        r#"{"messageType":"message","data":"{\"from\": \"bob\", \"message\": \"a\\\"b\"}"}"#
    );
    let envelope = decode(&published_texts[0]).unwrap();
    assert_eq!(envelope.message_type, MessageKind::Message);
    assert_eq!(envelope.data_array, None);
    let data = envelope.data.unwrap();
    assert_eq!(data, r#"{"from": "bob", "message": "a\"b"}"#);
    let payload: serde_json::Value = serde_json::from_str(&data).unwrap();
    let mut expected = serde_json::Map::new();
    expected.insert("from".to_string(), serde_json::Value::String("bob".to_string()));
    expected.insert("message".to_string(), serde_json::Value::String("a\"b".to_string()));
    assert_eq!(payload, serde_json::Value::Object(expected));
}

#[test]
fn sender_name_with_a_quotation_mark_reads_back() {
    let mut registry = Registry::new();
    let mut session = active("c1", &mut registry);
    session.step(&mut registry, frame(r#"{"messageType":"register","data":"the \"boss\""}"#));
    let text = published(session.step(&mut registry, frame(r#"{"messageType":"message","data":"hi"}"#)));
    let data = decode(&text).unwrap().data.unwrap();
    let payload: serde_json::Value = serde_json::from_str(&data).unwrap();
    assert_eq!(payload.get("from").and_then(|from| from.as_str()), Some("the \"boss\""));
    assert_eq!(payload.get("message").and_then(|said| said.as_str()), Some("hi"));
}

#[test]
fn open_session_is_connecting_and_greets() {
    let (session, greeting) = Session::open("id-1".to_string());
    assert_eq!(session.id(), "id-1");
    assert_eq!(session.phase(), Phase::Connecting);
    assert!(!session.is_closed());
    assert_eq!(greeting, Action::Send(WELCOME.to_string()));
}

#[test]
fn accept_mints_an_identity() {
    let (session, greeting) = Session::accept();
    assert_eq!(greeting, Action::Send(WELCOME.to_string()));
    let id = session.id().to_string();
    assert_eq!(id.len(), 36);
    for (i, c) in id.chars().enumerate() {
        if i == 8 || i == 13 || i == 18 || i == 23 {
            assert_eq!(c, '-');
        } else {
            assert!(c.is_ascii_digit() || ('a'..='f').contains(&c));
        }
    }
    assert_eq!(session.phase(), Phase::Connecting);
    assert_ne!(Session::accept().0.id(), id);
}

#[test]
fn nothing_reaches_the_client_before_the_welcome() {
    let mut registry = Registry::new();
    let (mut session, greeting) = Session::open("id-1".to_string());
    let mut sent = vec![];
    if let Action::Send(text) = greeting {
        sent.push(text);
    }
    assert_eq!(session.step(&mut registry, Event::Broadcast("early".to_string())), Action::Idle);
    assert_eq!(session.step(&mut registry, frame(r#"{"messageType":"message","data":"x"}"#)), Action::Idle);
    assert_eq!(session.step(&mut registry, frame(r#"{"messageType":"register","data":"x"}"#)), Action::Idle);
    assert_eq!(session.phase(), Phase::Connecting);
    assert_eq!(registry.len(), 0);
    assert_eq!(session.step(&mut registry, Event::WelcomeSent), Action::Idle);
    assert_eq!(session.phase(), Phase::Active);
    if let Action::Send(text) = session.step(&mut registry, Event::Broadcast("later".to_string())) {
        sent.push(text);
    }
    assert_eq!(sent, vec![WELCOME.to_string(), "later".to_string()]);
}

#[test]
fn failed_welcome_closes_the_session() {
    let mut registry = Registry::new();
    let (mut session, _) = Session::open("id-1".to_string());
    assert_eq!(session.step(&mut registry, Event::TransportFailed), Action::Idle);
    assert_eq!(session.phase(), Phase::Closed(Ending::Failed));
    assert_eq!(session.step(&mut registry, Event::WelcomeSent), Action::Idle);
    assert_eq!(session.phase(), Phase::Closed(Ending::Failed));
}

#[test]
fn registration_is_broadcast_to_everyone() {
    let mut registry = Registry::new();
    let mut sessions = vec![
        active("id-1", &mut registry),
        active("id-2", &mut registry),
        active("id-3", &mut registry),
    ];
    let action = sessions[0].step(&mut registry, frame(r#"{"messageType":"register","data":"alice"}"#));
    let text = published(action);
    assert_eq!(text, r#"{"messageType":"users","dataArray":["alice"]}"#);
    assert_eq!(registry.lookup("id-1"), "alice");
    let received = fan_out(&mut sessions, &mut registry, &text);
    assert_eq!(received.len(), 3);
    for item in received {
        let envelope = decode(&item.unwrap()).unwrap();
        assert_eq!(envelope.message_type, MessageKind::Users);
        assert!(envelope.data_array.unwrap().contains(&"alice".to_string()));
    }
}

#[test]
fn second_registration_lists_both_names() {
    let mut registry = Registry::new();
    let mut first = active("id-1", &mut registry);
    let mut second = active("id-2", &mut registry);
    first.step(&mut registry, frame(r#"{"messageType":"register","data":"alice"}"#));
    let text = published(second.step(&mut registry, frame(r#"{"messageType":"register","data":"bob"}"#)));
    assert_eq!(text, r#"{"messageType":"users","dataArray":["alice","bob"]}"#);
}

#[test]
fn register_without_a_name_takes_the_identity() {
    let mut registry = Registry::new();
    let mut session = active("id-7", &mut registry);
    let text = published(session.step(&mut registry, frame(r#"{"messageType":"register"}"#)));
    assert_eq!(text, r#"{"messageType":"users","dataArray":["id-7"]}"#);
    assert_eq!(registry.snapshot(), vec!["id-7".to_string()]);
}

#[test]
fn message_fans_out_to_everyone() {
    let mut registry = Registry::new();
    let mut sender = active("id-1", &mut registry);
    let mut others = vec![active("id-2", &mut registry), active("id-3", &mut registry)];
    sender.step(&mut registry, frame(r#"{"messageType":"register","data":"bob"}"#));
    let text = published(sender.step(&mut registry, frame(r#"{"messageType":"message","data":"hi"}"#)));
    assert_eq!(
        text,
        r#"{"messageType":"message","data":"{\"from\": \"bob\", \"message\": \"hi\"}"}"#
    );
    let mut received = fan_out(&mut others, &mut registry, &text);
    received.push(match sender.step(&mut registry, Event::Broadcast(text.clone())) {
        Action::Send(text) => Some(text),
        _ => None,
    });
    assert_eq!(received.len(), 3);
    for item in received {
        let envelope = decode(&item.unwrap()).unwrap();
        assert_eq!(envelope.message_type, MessageKind::Message);
        let data = envelope.data.unwrap();
        assert_eq!(data, r#"{"from": "bob", "message": "hi"}"#);
        let payload: serde_json::Value = serde_json::from_str(&data).unwrap();
        let mut expected = serde_json::Map::new();
        expected.insert("from".to_string(), serde_json::Value::String("bob".to_string()));
        expected.insert("message".to_string(), serde_json::Value::String("hi".to_string()));
        assert_eq!(payload, serde_json::Value::Object(expected));
    }
}

#[test]
fn unregistered_sender_goes_by_its_identity() {
    let mut registry = Registry::new();
    let mut session = active("3f2c", &mut registry);
    let text = published(session.step(&mut registry, frame(r#"{"messageType":"message","data":"hello"}"#)));
    let envelope = decode(&text).unwrap();
    assert_eq!(envelope.data.unwrap(), r#"{"from": "3f2c", "message": "hello"}"#);
    assert_eq!(registry.len(), 0);
}

#[test]
fn message_without_data_is_empty() {
    let mut registry = Registry::new();
    let mut session = active("id-1", &mut registry);
    let text = published(session.step(&mut registry, frame(r#"{"messageType":"message"}"#)));
    assert_eq!(
        text,
        r#"{"messageType":"message","data":"{\"from\": \"id-1\", \"message\": \"\"}"}"#
    );
}

#[test]
fn malformed_frames_are_passed_over() {
    let mut registry = Registry::new();
    let mut session = active("id-1", &mut registry);
    for text in [
        "not json",
        "",
        r#"{"messageType":"shout","data":"hi"}"#,
        r#"{"data":"hi"}"#,
        r#"{"messageType":"message","data":5}"#,
        "[]",
    ] {
        assert_eq!(session.step(&mut registry, frame(text)), Action::Idle);
        assert_eq!(session.phase(), Phase::Active);
        assert_eq!(registry.len(), 0);
    }
    assert_eq!(
        session.step(&mut registry, Event::Broadcast("still here".to_string())),
        Action::Send("still here".to_string())
    );
}

#[test]
fn users_from_a_client_is_passed_over() {
    let mut registry = Registry::new();
    let mut session = active("id-1", &mut registry);
    let action = session.step(&mut registry, frame(r#"{"messageType":"users","dataArray":["x"]}"#));
    assert_eq!(action, Action::Idle);
    assert_eq!(registry.len(), 0);
    assert_eq!(session.phase(), Phase::Active);
}

#[test]
fn frames_that_are_no_text_are_passed_over() {
    let mut registry = Registry::new();
    let mut session = active("id-1", &mut registry);
    assert_eq!(session.step(&mut registry, Event::OtherFrame), Action::Idle);
    assert_eq!(session.phase(), Phase::Active);
}

#[test]
fn broadcast_items_are_forwarded_as_they_are() {
    let mut registry = Registry::new();
    let mut session = active("id-1", &mut registry);
    for text in ["", "not json at all", r#"{"messageType":"users","dataArray":[]}"#] {
        assert_eq!(
            session.step(&mut registry, Event::Broadcast(text.to_string())),
            Action::Send(text.to_string())
        );
    }
}

#[test]
fn failure_stays_with_its_session() {
    let mut registry = Registry::new();
    let mut failing = active("id-a", &mut registry);
    let mut sender = active("id-b", &mut registry);
    let mut others = vec![active("id-c", &mut registry), active("id-d", &mut registry)];
    sender.step(&mut registry, frame(r#"{"messageType":"register","data":"bea"}"#));

    assert_eq!(failing.step(&mut registry, Event::TransportFailed), Action::Idle);
    assert_eq!(failing.phase(), Phase::Closed(Ending::Failed));
    assert!(failing.is_closed());
    assert_eq!(sender.phase(), Phase::Active);
    assert_eq!(registry.snapshot(), vec!["bea".to_string()]);

    let text = published(sender.step(&mut registry, frame(r#"{"messageType":"message","data":"on"}"#)));
    for item in fan_out(&mut others, &mut registry, &text) {
        let envelope = decode(&item.unwrap()).unwrap();
        assert_eq!(envelope.data.unwrap(), r#"{"from": "bea", "message": "on"}"#);
    }
    assert_eq!(failing.step(&mut registry, Event::Broadcast(text)), Action::Idle);
}

#[test]
fn disconnect_closes_cleanly() {
    let mut registry = Registry::new();
    let mut session = active("id-1", &mut registry);
    session.step(&mut registry, frame(r#"{"messageType":"register","data":"alice"}"#));
    assert_eq!(session.step(&mut registry, Event::Disconnected), Action::Idle);
    assert_eq!(session.phase(), Phase::Closed(Ending::Clean));
    assert_eq!(registry.lookup("id-1"), "alice");
}

#[test]
fn end_of_the_hub_closes_the_session() {
    let mut registry = Registry::new();
    let mut session = active("id-1", &mut registry);
    assert_eq!(session.step(&mut registry, Event::HubClosed), Action::Idle);
    assert_eq!(session.phase(), Phase::Closed(Ending::Failed));
}

#[test]
fn publishing_to_nobody_is_no_failure() {
    let mut registry = Registry::new();
    let mut session = active("id-1", &mut registry);
    published(session.step(&mut registry, frame(r#"{"messageType":"message","data":"hi"}"#)));
    assert_eq!(session.step(&mut registry, Event::NotPublished), Action::Idle);
    assert_eq!(session.phase(), Phase::Active);
}

#[test]
fn hub_keeps_a_hundred_items() {
    assert_eq!(HUB_CAPACITY, 100);
}

#[test]
fn lagging_session_goes_on() {
    let mut registry = Registry::new();
    let mut session = active("id-1", &mut registry);
    assert_eq!(session.step(&mut registry, Event::Lagged), Action::Idle);
    assert_eq!(session.phase(), Phase::Active);
    assert_eq!(
        session.step(&mut registry, Event::Broadcast("next".to_string())),
        Action::Send("next".to_string())
    );
}

#[test]
fn closed_session_handles_nothing() {
    let mut registry = Registry::new();
    let mut session = active("id-1", &mut registry);
    session.step(&mut registry, Event::Disconnected);
    for event in [
        Event::WelcomeSent,
        frame(r#"{"messageType":"register","data":"late"}"#),
        frame(r#"{"messageType":"message","data":"late"}"#),
        Event::OtherFrame,
        Event::Broadcast("late".to_string()),
        Event::TransportFailed,
        Event::Lagged,
        Event::HubClosed,
        Event::NotPublished,
        Event::Disconnected,
    ] {
        assert_eq!(session.step(&mut registry, event), Action::Idle);
        assert_eq!(session.phase(), Phase::Closed(Ending::Clean));
    }
    assert_eq!(registry.len(), 0);
}

#[test]
fn second_welcome_changes_nothing() {
    let mut registry = Registry::new();
    let mut session = active("id-1", &mut registry);
    assert_eq!(session.step(&mut registry, Event::WelcomeSent), Action::Idle);
    assert_eq!(session.phase(), Phase::Active);
}

#[test]
fn handle_takes_a_decoded_frame() {
    let mut registry = Registry::new();
    let (session, _) = Session::open("id-9".to_string());
    assert_eq!(session.handle(&mut registry, Err(DecodeError::Syntax)), Action::Idle);
    assert_eq!(session.handle(&mut registry, Err(DecodeError::UnknownKind)), Action::Idle);
    let register = Envelope {
        message_type: MessageKind::Register,
        data_array: Some(vec!["ignored".to_string()]),
        data: Some("nina".to_string()),
    };
    assert_eq!(
        session.handle(&mut registry, Ok(register)),
        Action::Publish(r#"{"messageType":"users","dataArray":["nina"]}"#.to_string())
    );
    let message = Envelope {
        message_type: MessageKind::Message,
        data_array: None,
        data: Some("a \"quoted\" word".to_string()),
    };
    assert_eq!(
        session.handle(&mut registry, Ok(message)),
        Action::Publish(
            r#"{"messageType":"message","data":"{\"from\": \"nina\", \"message\": \"a \\\"quoted\\\" word\"}"}"#
                .to_string()
        )
    );
    let users = Envelope { message_type: MessageKind::Users, data_array: None, data: None };
    assert_eq!(session.handle(&mut registry, Ok(users)), Action::Idle);
}
