use nexus_actor::message::MessageHandle;
use nexus_actor::message_envelope::{
    unwrap_envelope, unwrap_envelope_header, unwrap_envelope_message, unwrap_envelope_sender,
    wrap_envelope, MessageEnvelope, MessageHeaders, ReadonlyMessageHeaders,
    ReadonlyMessageHeadersHandle,
};
use nexus_actor::pid::Pid;

#[test]
fn headers_set_and_get() {
    let mut h = MessageHeaders::new();
    h.set("kind".to_string(), "greeting".to_string());
    h.set("lang".to_string(), "en".to_string());
    assert_eq!(h.get("kind"), Some("greeting".to_string()));
    assert_eq!(h.get("lang"), Some("en".to_string()));
    assert_eq!(h.get("missing"), None);
    assert_eq!(h.length(), 2);
}

#[test]
fn headers_set_overwrites_in_place() {
    let mut h = MessageHeaders::new();
    h.set("kind".to_string(), "a".to_string());
    h.set("kind".to_string(), "b".to_string());
    assert_eq!(h.get("kind"), Some("b".to_string()));
    assert_eq!(h.length(), 1);
    assert_eq!(h.keys(), vec!["kind".to_string()]);
}

#[test]
fn headers_to_map_lists_pairs_in_order() {
    let mut h = MessageHeaders::new();
    h.set("a".to_string(), "1".to_string());
    h.set("b".to_string(), "2".to_string());
    let m = h.to_map();
    assert_eq!(
        m,
        vec![("a".to_string(), "1".to_string()), ("b".to_string(), "2".to_string())]
    );
}

#[test]
fn headers_handle_reads_through() {
    let mut h = MessageHeaders::new();
    h.set("k".to_string(), "v".to_string());
    let handle = ReadonlyMessageHeadersHandle::new(h);
    assert_eq!(handle.get("k"), Some("v".to_string()));
    assert_eq!(handle.length(), 1);
    assert_eq!(handle.keys(), vec!["k".to_string()]);
}

#[test]
fn wrap_bare_message_makes_plain_envelope() {
    let env = wrap_envelope(MessageHandle::User(7));
    assert!(env.header.is_none());
    assert!(env.sender.is_none());
    assert_eq!(env.message.user_payload(), Some(7));
}

#[test]
fn wrap_is_idempotent_in_observed_fields() {
    let sender = Pid::local(3);
    let inner = MessageEnvelope::new(MessageHandle::User(9)).with_sender(sender.clone());
    let once = wrap_envelope(MessageHandle::Envelope(Box::new(inner)));
    let twice = wrap_envelope(MessageHandle::Envelope(Box::new(once.clone())));
    assert_eq!(twice.sender, Some(sender));
    assert!(twice.header.is_none());
    assert_eq!(twice.message.user_payload(), Some(9));
    assert_eq!(once.message.user_payload(), twice.message.user_payload());
}

#[test]
fn unwrap_splits_envelope_fields() {
    let mut h = MessageHeaders::new();
    h.set("k".to_string(), "v".to_string());
    let env = MessageEnvelope::new(MessageHandle::User(5))
        .with_header(h)
        .with_sender(Pid::local(1));
    let (header, payload, sender) = unwrap_envelope(MessageHandle::Envelope(Box::new(env)));
    assert_eq!(header.unwrap().get("k"), Some("v".to_string()));
    assert_eq!(payload.user_payload(), Some(5));
    assert_eq!(sender, Some(Pid::local(1)));
}

#[test]
fn unwrap_of_plain_message_passes_through() {
    assert!(unwrap_envelope_header(MessageHandle::User(1)).is_none());
    assert!(unwrap_envelope_sender(MessageHandle::User(1)).is_none());
    assert_eq!(unwrap_envelope_message(MessageHandle::User(1)).user_payload(), Some(1));
}

#[test]
fn envelope_set_header_creates_map() {
    let mut env = MessageEnvelope::new(MessageHandle::User(2));
    assert!(env.get_headers().is_none());
    env.set_header("a".to_string(), "b".to_string());
    assert_eq!(env.get_header_value("a"), Some("b".to_string()));
    assert_eq!(env.get_headers().unwrap().length(), 1);
}

#[test]
fn envelope_set_header_keeps_other_keys() {
    let mut env = MessageEnvelope::new(MessageHandle::User(2));
    env.set_header("a".to_string(), "1".to_string());
    env.set_header("b".to_string(), "2".to_string());
    env.set_header("b".to_string(), "3".to_string());
    assert_eq!(env.get_header_value("a"), Some("1".to_string()));
    assert_eq!(env.get_header_value("b"), Some("3".to_string()));
    assert_eq!(env.get_header_value("c"), None);
    assert_eq!(env.get_headers().unwrap().length(), 2);
}
