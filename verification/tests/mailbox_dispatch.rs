use nexus_actor::mailbox::{bounded_mailbox, unbounded_mailbox, Mailbox, MailboxStatus};
use nexus_actor::message::{MessageHandle, SystemMessage};

#[test]
fn user_messages_come_out_in_posting_order() {
    let mut mb = unbounded_mailbox(10);
    mb.post_user_message(MessageHandle::User(1));
    mb.post_user_message(MessageHandle::User(2));
    mb.post_user_message(MessageHandle::User(3));
    mb.begin_turn();
    assert_eq!(mb.pop_user().unwrap().user_payload(), Some(1));
    assert_eq!(mb.pop_user().unwrap().user_payload(), Some(2));
    assert_eq!(mb.pop_user().unwrap().user_payload(), Some(3));
    assert!(mb.pop_user().is_none());
}

#[test]
fn system_messages_drain_before_user_messages() {
    let mut mb = unbounded_mailbox(10);
    mb.post_user_message(MessageHandle::User(1));
    mb.post_system_message(SystemMessage::Suspend);
    mb.post_system_message(SystemMessage::Resume);
    mb.begin_turn();
    assert!(matches!(mb.pop_system(), Some(SystemMessage::Suspend)));
    assert!(matches!(mb.pop_system(), Some(SystemMessage::Resume)));
    assert!(mb.pop_system().is_none());
    assert_eq!(mb.pop_user().unwrap().user_payload(), Some(1));
}

#[test]
fn first_post_schedules_later_posts_do_not() {
    let mut mb = unbounded_mailbox(10);
    let first = mb.post_user_message(MessageHandle::User(1));
    assert!(first.accepted && first.schedule);
    let second = mb.post_user_message(MessageHandle::User(2));
    assert!(second.accepted && !second.schedule);
    assert_eq!(mb.user_message_count(), 2);
}

#[test]
fn bounded_mailbox_drops_on_overflow() {
    let mut mb = bounded_mailbox(10, 2);
    assert!(mb.post_user_message(MessageHandle::User(1)).accepted);
    assert!(mb.post_user_message(MessageHandle::User(2)).accepted);
    let third = mb.post_user_message(MessageHandle::User(3));
    assert!(!third.accepted);
    assert_eq!(mb.user_message_count(), 2);
    mb.begin_turn();
    assert_eq!(mb.pop_user().unwrap().user_payload(), Some(1));
    assert_eq!(mb.pop_user().unwrap().user_payload(), Some(2));
    assert!(mb.pop_user().is_none());
}

#[test]
fn end_turn_reschedules_when_traffic_waits() {
    let mut mb = unbounded_mailbox(10);
    mb.post_user_message(MessageHandle::User(1));
    mb.post_user_message(MessageHandle::User(2));
    mb.begin_turn();
    let _ = mb.pop_user();
    let reschedule = mb.end_turn();
    assert!(reschedule);
    assert_eq!(mb.status, MailboxStatus::Scheduled);
    mb.begin_turn();
    let _ = mb.pop_user();
    let again = mb.end_turn();
    assert!(!again);
    assert_eq!(mb.status, MailboxStatus::Idle);
}

#[test]
fn suspension_blocks_rescheduling_for_user_traffic() {
    let mut mb = unbounded_mailbox(10);
    mb.post_user_message(MessageHandle::User(1));
    mb.begin_turn();
    mb.suspend();
    assert!(mb.is_suspended());
    let reschedule = mb.end_turn();
    assert!(!reschedule);
    mb.resume();
    assert!(!mb.is_suspended());
}

#[test]
fn start_schedules_an_idle_mailbox_once() {
    let mut mb = unbounded_mailbox(5);
    assert!(mb.start());
    assert!(!mb.start());
    assert_eq!(mb.status, MailboxStatus::Scheduled);
}
