use nexus_actor::props::{
    make_middleware_chain, ActorReceiverActor, Props, DEFAULT_THROUGHPUT,
};
use nexus_actor::strategy_one_for_one::{Directive, OneForOneStrategy};

#[test]
fn default_props_have_no_overrides() {
    let p = Props::new();
    assert_eq!(p.mailbox_throughput, DEFAULT_THROUGHPUT);
    assert!(p.mailbox_bound.is_none());
    assert!(p.producer.is_none());
    assert!(p.supervisor_strategy.is_none());
    assert!(p.receiver_middleware.is_empty());
    assert!(p.on_init.is_empty());
}

#[test]
fn options_apply_in_order() {
    let p = Props::from_actor_producer_with_opts(
        7,
        vec![
            Props::with_mailbox_producer(5, Some(16)),
            Props::with_supervisor_strategy(OneForOneStrategy::new(1, 500, Directive::Stop)),
            Props::with_receiver_middlewares(vec![100, 101]),
            Props::with_receiver_middlewares(vec![102]),
            Props::with_on_init(vec![900]),
        ],
    );
    assert_eq!(p.producer, Some(7));
    assert_eq!(p.mailbox_throughput, 5);
    assert_eq!(p.mailbox_bound, Some(16));
    assert_eq!(
        p.supervisor_strategy,
        Some(OneForOneStrategy::new(1, 500, Directive::Stop))
    );
    assert_eq!(p.receiver_middleware, vec![100, 101, 102]);
    assert_eq!(p.on_init, vec![900]);
}

#[test]
fn later_replacements_win() {
    let mut p = Props::new();
    p.configure(vec![
        Props::with_mailbox_producer(5, None),
        Props::with_mailbox_producer(9, Some(4)),
        Props::with_actor_producer(1),
        Props::with_actor_producer(2),
    ]);
    assert_eq!(p.mailbox_throughput, 9);
    assert_eq!(p.mailbox_bound, Some(4));
    assert_eq!(p.producer, Some(2));
}

#[test]
fn default_supervisor_strategy_allows_ten_restarts() {
    let p = Props::new();
    let s = p.get_supervisor_strategy();
    assert_eq!(s.max_retries, 10);
    assert_eq!(s.within_duration_millis, 10000);
    assert_eq!(s.decider, Directive::Restart);
}

#[test]
fn middleware_chain_keeps_registration_order() {
    assert_eq!(make_middleware_chain(&vec![]), None);
    assert_eq!(make_middleware_chain(&vec![3, 1, 2]), Some(vec![3, 1, 2]));
    let p = Props::from_actor_producer_with_opts(
        1,
        vec![
            Props::with_sender_middlewares(vec![5]),
            Props::with_sender_middlewares(vec![6, 7]),
        ],
    );
    assert_eq!(p.get_sender_middleware_chain(), Some(vec![5, 6, 7]));
    assert_eq!(p.get_receiver_middleware_chain(), None);
}

#[test]
fn receiver_actor_wraps_its_token() {
    let a = ActorReceiverActor::new(42);
    assert_eq!(a, ActorReceiverActor(42));
}
