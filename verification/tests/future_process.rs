use nexus_actor::future::{ActorFuture, ActorFutureError};
use nexus_actor::message::MessageHandle;
use nexus_actor::pid::Pid;

#[test]
fn complete_resolves_once() {
    let mut f = ActorFuture::new();
    assert!(f.is_empty());
    f.complete(MessageHandle::User(1));
    assert!(!f.is_empty());
    match f.result() {
        Some(Ok(m)) => assert_eq!(m.user_payload(), Some(1)),
        _ => panic!("expected a completed future"),
    }
}

#[test]
fn second_resolution_is_a_no_op() {
    let mut f = ActorFuture::new();
    f.complete(MessageHandle::User(1));
    f.fail(ActorFutureError::TimeoutError);
    f.complete(MessageHandle::User(2));
    match f.result() {
        Some(Ok(m)) => assert_eq!(m.user_payload(), Some(1)),
        _ => panic!("the first resolution must win"),
    }
}

#[test]
fn fail_then_complete_keeps_the_error() {
    let mut f = ActorFuture::new();
    f.fail(ActorFutureError::DeadLetterError);
    f.complete(MessageHandle::User(3));
    match f.result() {
        Some(Err(e)) => assert_eq!(e, ActorFutureError::DeadLetterError),
        _ => panic!("the failure must stick"),
    }
}

#[test]
fn pipes_receive_the_resolution_exactly_once() {
    let mut f = ActorFuture::new();
    f.pipe_to(Pid::local(10));
    f.pipe_to(Pid::local(11));
    let effects = f.complete(MessageHandle::User(42));
    assert_eq!(effects.sends.len(), 2);
    assert_eq!(effects.sends[0].0, Pid::local(10));
    assert_eq!(effects.sends[1].0, Pid::local(11));
    assert_eq!(effects.sends[0].1.user_payload(), Some(42));
    let again = f.complete(MessageHandle::User(43));
    assert_eq!(again.sends.len(), 0);
}

#[test]
fn late_pipe_is_notified_immediately() {
    let mut f = ActorFuture::new();
    f.complete(MessageHandle::User(5));
    let effects = f.pipe_to(Pid::local(9));
    assert_eq!(effects.sends.len(), 1);
    assert_eq!(effects.sends[0].0, Pid::local(9));
    assert_eq!(effects.sends[0].1.user_payload(), Some(5));
}

#[test]
fn failed_future_forwards_the_error_to_pipes() {
    let mut f = ActorFuture::new();
    f.pipe_to(Pid::local(4));
    let effects = f.handle_timeout();
    assert_eq!(effects.sends.len(), 1);
    assert!(matches!(
        effects.sends[0].1,
        MessageHandle::FutureFault(ActorFutureError::TimeoutError)
    ));
}

#[test]
fn continuations_run_on_resolution() {
    let mut f = ActorFuture::new();
    let queued = f.continue_with(71);
    assert_eq!(queued.callbacks.len(), 0);
    let effects = f.complete(MessageHandle::User(1));
    assert_eq!(effects.callbacks, vec![71]);
    let late = f.continue_with(72);
    assert_eq!(late.callbacks, vec![72]);
}

#[test]
fn dead_letter_response_fails_the_future() {
    let mut f = ActorFuture::new();
    f.send_user_message(MessageHandle::DeadLetterResponse { target: Pid::local(8) });
    match f.result() {
        Some(Err(e)) => assert_eq!(e, ActorFutureError::DeadLetterError),
        _ => panic!("a dead-letter response must fail the future"),
    }
}

#[test]
fn ordinary_reply_completes_the_future() {
    let mut f = ActorFuture::new();
    f.set_pid(Pid::local(6));
    assert_eq!(f.get_pid(), Some(Pid::local(6)));
    f.send_user_message(MessageHandle::User(12));
    match f.result() {
        Some(Ok(m)) => assert_eq!(m.user_payload(), Some(12)),
        _ => panic!("a reply must complete the future"),
    }
}
