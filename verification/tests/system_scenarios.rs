use nexus_actor::actor_context::{InvocationEvent, Lifecycle};
use nexus_actor::actor_system::{ActorSystem, SpawnError, SystemStep};
use nexus_actor::future::ActorFutureError;
use nexus_actor::message::{ActorError, MessageHandle};
use nexus_actor::pid::Pid;
use nexus_actor::props::Props;
use nexus_actor::strategy_one_for_one::{Directive, OneForOneStrategy};

const PING: u64 = 1;
const PONG: u64 = 2;

/// Drives the engine until it asks for a delivery or goes idle.
fn drive(system: &mut ActorSystem, now: u64) -> Option<(Pid, MessageHandle, Option<Pid>)> {
    for _ in 0..10_000 {
        match system.run_next(now) {
            SystemStep::Deliver { target, message, sender, .. } => {
                return Some((target, message, sender));
            }
            SystemStep::Working => continue,
            SystemStep::Idle => return None,
        }
    }
    panic!("the engine did not settle");
}

/// Drives the engine to quiescence, dropping deliveries on the floor.
fn drain(system: &mut ActorSystem, now: u64) {
    while drive(system, now).is_some() {}
}

#[test]
fn spawn_invokes_the_pre_start_hook_first() {
    let mut system = ActorSystem::new();
    let props = Props::new();
    let pid = system.spawn(&props, None, Ok(())).unwrap();
    drain(&mut system, 0);
    let cell = system.cell(&pid).unwrap();
    assert_eq!(cell.invocations[0], InvocationEvent::PreStart);
    assert_eq!(cell.invocations.len(), 1);
    assert_eq!(cell.state, Lifecycle::Alive);
}

#[test]
fn user_messages_arrive_in_send_order() {
    let mut system = ActorSystem::new();
    let pid = system.spawn(&Props::new(), None, Ok(())).unwrap();
    system.send(&pid, MessageHandle::User(10));
    system.send(&pid, MessageHandle::User(20));
    system.send(&pid, MessageHandle::User(30));
    let mut seen = Vec::new();
    while let Some((target, message, _)) = drive(&mut system, 0) {
        assert_eq!(target, pid);
        seen.push(message.user_payload().unwrap());
    }
    assert_eq!(seen, vec![10, 20, 30]);
}

#[test]
fn stop_runs_the_hooks_in_order_and_notifies_nobody_after_post_stop() {
    let mut system = ActorSystem::new();
    let pid = system.spawn(&Props::new(), None, Ok(())).unwrap();
    system.send(&pid, MessageHandle::User(1));
    drain(&mut system, 0);
    system.stop(&pid);
    drain(&mut system, 0);
    let cell = system.cell(&pid).unwrap();
    assert_eq!(cell.state, Lifecycle::Stopped);
    assert_eq!(
        cell.invocations,
        vec![
            InvocationEvent::PreStart,
            InvocationEvent::UserMessage,
            InvocationEvent::PreStop,
            InvocationEvent::PostStop,
        ]
    );
}

#[test]
fn parent_receives_terminated_for_its_child() {
    let mut system = ActorSystem::new();
    let parent = system.spawn(&Props::new(), None, Ok(())).unwrap();
    let child = system.spawn(&Props::new(), Some(&parent), Ok(())).unwrap();
    drain(&mut system, 0);
    system.stop(&child);
    let mut notified = false;
    while let Some((target, message, _)) = drive(&mut system, 0) {
        if target == parent {
            if let MessageHandle::Terminated { who, .. } = message {
                assert_eq!(who, child);
                notified = true;
            }
        }
    }
    assert!(notified, "the parent must receive a termination notice");
    let pc = system.cell(&parent).unwrap();
    assert_eq!(pc.children.len(), 0);
}

#[test]
fn receive_timeout_fires_repeatedly() {
    let mut system = ActorSystem::new();
    let pid = system.spawn(&Props::new(), None, Ok(())).unwrap();
    drain(&mut system, 0);
    system.set_receive_timeout(&pid, 100, 0);
    let mut timeouts = 0;
    for now in [100u64, 200, 300] {
        system.tick(now);
        while let Some((_, message, _)) = drive(&mut system, now) {
            if matches!(message, MessageHandle::ReceiveTimeout) {
                timeouts += 1;
            }
        }
    }
    assert_eq!(timeouts, 3);
}

#[test]
fn request_future_round_trip_yields_the_reply() {
    let mut system = ActorSystem::new();
    let target = system.spawn(&Props::new(), None, Ok(())).unwrap();
    drain(&mut system, 0);
    let fpid = system.request_future(&target, MessageHandle::User(PING), 1000, 0);
    let (who, message, sender) = drive(&mut system, 0).expect("the ping must arrive");
    assert_eq!(who, target);
    assert_eq!(message.user_payload(), Some(PING));
    let reply_to = sender.expect("the request must carry the future as sender");
    assert_eq!(reply_to, fpid);
    system.send(&reply_to, MessageHandle::User(PONG));
    drain(&mut system, 0);
    match system.future_result(&fpid) {
        Some(Ok(m)) => assert_eq!(m.user_payload(), Some(PONG)),
        _ => panic!("the future must hold the reply"),
    }
}

#[test]
fn request_future_times_out_without_a_reply() {
    let mut system = ActorSystem::new();
    let target = system.spawn(&Props::new(), None, Ok(())).unwrap();
    drain(&mut system, 0);
    let fpid = system.request_future(&target, MessageHandle::User(PING), 50, 0);
    drain(&mut system, 0);
    assert!(system.future_result(&fpid).is_none());
    system.tick(60);
    drain(&mut system, 60);
    match system.future_result(&fpid) {
        Some(Err(e)) => assert_eq!(e, ActorFutureError::TimeoutError),
        _ => panic!("the future must time out"),
    }
}

#[test]
fn restart_policy_restarts_twice_then_stops() {
    let mut system = ActorSystem::new();
    let parent = system.spawn(&Props::new(), None, Ok(())).unwrap();
    let mut child_props = Props::new();
    child_props.configure(vec![Props::with_supervisor_strategy(OneForOneStrategy::new(
        2,
        1000,
        Directive::Restart,
    ))]);
    let child = system.spawn(&child_props, Some(&parent), Ok(())).unwrap();
    drain(&mut system, 0);

    for (i, now) in [0u64, 10, 20].iter().enumerate() {
        system.send(&child, MessageHandle::User(i as u64));
        let (who, message, _) = drive(&mut system, *now).expect("the child must get traffic");
        assert_eq!(who, child);
        system.escalate_failure(&child, ActorError::ReceiveError, message, *now);
        drain(&mut system, *now);
    }

    let cc = system.cell(&child).unwrap();
    assert_eq!(cc.state, Lifecycle::Stopped);
    let restarts = cc
        .invocations
        .iter()
        .filter(|e| **e == InvocationEvent::PreRestart)
        .count();
    assert_eq!(restarts, 2, "two restarts before the stop");
    let pc = system.cell(&parent).unwrap();
    assert_eq!(pc.children.len(), 0, "the stopped child leaves the parent");
}

#[test]
fn sends_to_a_removed_process_become_dead_letters() {
    let mut system = ActorSystem::new();
    let pid = system.spawn(&Props::new(), None, Ok(())).unwrap();
    drain(&mut system, 0);
    system.remove(&pid);
    system.send(&pid, MessageHandle::User(7));
    assert_eq!(system.dead_letters.len(), 1);
    assert_eq!(system.dead_letters[0].pid, pid);
    let fpid = system.request_future(&pid, MessageHandle::User(PING), 1000, 0);
    drain(&mut system, 0);
    match system.future_result(&fpid) {
        Some(Err(e)) => assert_eq!(e, ActorFutureError::DeadLetterError),
        _ => panic!("a request to a removed pid must fail as a dead letter"),
    }
    assert_eq!(system.dead_letters.len(), 2);
}

#[test]
fn spawn_named_rejects_a_taken_name() {
    let mut system = ActorSystem::new();
    let first = system
        .spawn_named(&Props::new(), "worker".to_string(), None, Ok(()))
        .unwrap();
    match system.spawn_named(&Props::new(), "worker".to_string(), None, Ok(())) {
        Err(SpawnError::ErrNameExists(p)) => assert_eq!(p, first),
        _ => panic!("the second spawn under one name must fail"),
    }
    assert!(system
        .spawn_named(&Props::new(), "other".to_string(), None, Ok(()))
        .is_ok());
}

#[test]
fn failed_pre_start_aborts_the_spawn() {
    let mut system = ActorSystem::new();
    match system.spawn(&Props::new(), None, Err(ActorError::InitError)) {
        Err(SpawnError::ErrPreStart(e)) => assert_eq!(e, ActorError::InitError),
        _ => panic!("a failed pre-start hook must abort the spawn"),
    }
    let ghostly = Pid::local(0);
    system.send(&ghostly, MessageHandle::User(1));
    assert_eq!(system.dead_letters.len(), 1);
}

#[test]
fn poison_pill_stops_the_actor_after_earlier_traffic() {
    let mut system = ActorSystem::new();
    let pid = system.spawn(&Props::new(), None, Ok(())).unwrap();
    system.send(&pid, MessageHandle::User(1));
    system.poison(&pid);
    let mut payloads = Vec::new();
    while let Some((_, message, _)) = drive(&mut system, 0) {
        payloads.push(message.user_payload());
    }
    assert_eq!(payloads, vec![Some(1)]);
    assert_eq!(system.cell(&pid).unwrap().state, Lifecycle::Stopped);
}

#[test]
fn stop_future_resolves_with_the_termination_notice() {
    let mut system = ActorSystem::new();
    let pid = system.spawn(&Props::new(), None, Ok(())).unwrap();
    drain(&mut system, 0);
    let fpid = system.stop_future(&pid, 1000, 0);
    drain(&mut system, 0);
    match system.future_result(&fpid) {
        Some(Ok(MessageHandle::Terminated { who, .. })) => assert_eq!(who, pid),
        _ => panic!("the stop future must resolve with the termination notice"),
    }
    assert_eq!(system.cell(&pid).unwrap().state, Lifecycle::Stopped);
}

#[test]
fn spawn_queues_the_init_hooks_in_order() {
    let mut system = ActorSystem::new();
    let mut props = Props::new();
    props.configure(vec![Props::with_on_init(vec![31, 32])]);
    system.spawn(&props, None, Ok(())).unwrap();
    assert_eq!(system.take_callbacks(), vec![31, 32]);
    assert_eq!(system.take_callbacks(), Vec::<u64>::new());
}

#[test]
fn continuation_tokens_surface_on_resolution() {
    let mut system = ActorSystem::new();
    let target = system.spawn(&Props::new(), None, Ok(())).unwrap();
    drain(&mut system, 0);
    let fpid = system.request_future(&target, MessageHandle::User(PING), 1000, 0);
    system.continue_with(&fpid, 55);
    assert_eq!(system.take_callbacks(), Vec::<u64>::new());
    let (_, _, sender) = drive(&mut system, 0).expect("the ping must arrive");
    system.send(&sender.unwrap(), MessageHandle::User(PONG));
    drain(&mut system, 0);
    assert_eq!(system.take_callbacks(), vec![55]);
}

#[test]
fn guardian_strategy_governs_parentless_actors() {
    let mut system = ActorSystem::new();
    let mut props = Props::new();
    props.configure(vec![Props::with_guardian(OneForOneStrategy::new(
        0,
        1000,
        Directive::Restart,
    ))]);
    let root = system.spawn(&props, None, Ok(())).unwrap();
    system.send(&root, MessageHandle::User(1));
    let (_, message, _) = drive(&mut system, 0).expect("the root must get traffic");
    system.escalate_failure(&root, ActorError::ReceiveError, message, 0);
    drain(&mut system, 0);
    assert_eq!(
        system.cell(&root).unwrap().state,
        Lifecycle::Stopped,
        "a zero-retry guardian stops the failing root"
    );
}

#[test]
fn watch_is_idempotent() {
    let mut system = ActorSystem::new();
    let watched = system.spawn(&Props::new(), None, Ok(())).unwrap();
    let watcher = system.spawn(&Props::new(), None, Ok(())).unwrap();
    drain(&mut system, 0);
    system.post_system_to(
        &watched,
        nexus_actor::message::SystemMessage::Watch { watcher: watcher.clone() },
    );
    system.post_system_to(
        &watched,
        nexus_actor::message::SystemMessage::Watch { watcher: watcher.clone() },
    );
    drain(&mut system, 0);
    assert_eq!(system.cell(&watched).unwrap().watchers, vec![watcher]);
}

#[test]
fn watcher_of_a_stopped_actor_is_notified_immediately() {
    let mut system = ActorSystem::new();
    let watched = system.spawn(&Props::new(), None, Ok(())).unwrap();
    let watcher = system.spawn(&Props::new(), None, Ok(())).unwrap();
    drain(&mut system, 0);
    system.stop(&watched);
    drain(&mut system, 0);
    system.post_system_to(
        &watched,
        nexus_actor::message::SystemMessage::Watch { watcher: watcher.clone() },
    );
    let (target, message, _) = drive(&mut system, 0).expect("the watcher must hear back");
    assert_eq!(target, watcher);
    assert!(matches!(message, MessageHandle::Terminated { .. }));
}
