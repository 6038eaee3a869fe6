use wosim::actor::{receive, Acquire, ActorLoop, ControlFlow, PollState, Received, RecvError};

#[test]
fn control_flow_stop() {
    assert!(ControlFlow::Stop.is_stop());
    assert!(!ControlFlow::Continue.is_stop());
}

#[test]
fn actor_loop_finishes_only_when_closed_and_idle() {
    let mut a = ActorLoop::new();
    a.begin_poll(true);
    assert!(a.wants_message());
    a.message_started(false);
    assert_eq!(a.finish_poll(), PollState::Pending);
    a.mailbox_closed();
    assert!(!a.wants_message());
    assert_eq!(a.finish_poll(), PollState::Pending);
    a.begin_poll(true);
    assert_eq!(a.finish_poll(), PollState::Ready);
}

#[test]
fn promise_receive_outcomes() {
    match receive(Acquire::Granted, &Some(5u32)) {
        Received::Ready(Ok(v)) => assert_eq!(v, 5),
        _ => panic!("value expected"),
    }
    match receive::<u32>(Acquire::Closed, &None) {
        Received::Ready(Err(e)) => assert_eq!(e, RecvError),
        _ => panic!("error expected"),
    }
    assert!(matches!(receive::<u32>(Acquire::Pending, &None), Received::Pending));
    assert_eq!(RecvError.message(), "channel closed");
}
