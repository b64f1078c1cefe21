use nexus_actor::event_stream::EventStream;

#[test]
fn test_event_stream_subscribe() {
    let mut es = EventStream::new();
    let s = es.subscribe();
    assert!(es.is_active(s));
    assert_eq!(es.length(), 1);
}

#[test]
fn test_event_stream_unsubscribe() {
    let mut es = EventStream::new();
    let s1 = es.subscribe();
    let s2 = es.subscribe();
    assert_eq!(es.length(), 2);

    es.unsubscribe(s2);
    assert_eq!(es.length(), 1);
    assert!(es.is_active(s1));
    assert!(!es.is_active(s2));
    assert_eq!(es.publish(0), vec![s1]);

    es.unsubscribe(s1);
    assert_eq!(es.length(), 0);
    assert_eq!(es.publish(0), Vec::<u64>::new());
}

#[test]
fn test_event_stream_publish() {
    let mut es = EventStream::new();
    let s = es.subscribe();
    assert_eq!(es.publish(1), vec![s]);
    assert_eq!(es.publish(100), vec![s]);
}

#[test]
fn publish_respects_min_level() {
    let mut es = EventStream::new();
    let all = es.subscribe();
    let warnings = es.subscribe_with_min_level(30);
    assert_eq!(es.publish(10), vec![all]);
    assert_eq!(es.publish(30), vec![all, warnings]);
    assert_eq!(es.publish(50), vec![all, warnings]);
}

#[test]
fn unsubscribe_keeps_other_subscriptions_registered() {
    let mut es = EventStream::new();
    let s1 = es.subscribe();
    let s2 = es.subscribe();
    let s3 = es.subscribe();
    es.unsubscribe(s1);
    assert!(!es.is_active(s1));
    assert!(es.is_active(s2));
    assert!(es.is_active(s3));
    assert_eq!(es.length(), 2);
    let mut fired = es.publish(0);
    fired.sort();
    assert_eq!(fired, vec![s2, s3]);
}

#[test]
fn clear_drops_everyone() {
    let mut es = EventStream::new();
    es.subscribe();
    es.subscribe();
    es.clear();
    assert_eq!(es.length(), 0);
    assert_eq!(es.publish(0), Vec::<u64>::new());
}
