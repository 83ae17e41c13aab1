use std::collections::VecDeque;

use uikit_event_loop::callback_state::{CallbackAction, CallbackState};

#[test]
fn no_queued_events_continue_without_pending_work() {
    let mut state = CallbackState::new();
    let mut pending = VecDeque::<i32>::new();

    assert_eq!(state.take_action(&mut pending), CallbackAction::Continue);
    assert!(pending.is_empty());
}

#[test]
fn queued_events_append_in_fifo_order_across_batches() {
    let mut state = CallbackState::new();
    let mut pending = VecDeque::from([1, 2]);

    state.queue(vec![3, 4]);
    assert_eq!(state.take_action(&mut pending), CallbackAction::Continue);
    assert_eq!(pending, VecDeque::from([1, 2, 3, 4]));

    state.queue(vec![5, 6]);
    assert_eq!(state.take_action(&mut pending), CallbackAction::Continue);
    assert_eq!(pending, VecDeque::from([1, 2, 3, 4, 5, 6]));
}

#[test]
fn termination_replaces_ordinary_queued_events() {
    let mut state = CallbackState::new();
    let mut pending = VecDeque::from([0]);
    state.queue(vec![1, 2]);

    assert!(state.request_termination(vec![3, 4]));
    state.queue(vec![5, 6]);

    assert!(state.is_terminating());
    assert_eq!(state.take_action(&mut pending), CallbackAction::Terminate(vec![3, 4]));
    assert!(pending.is_empty());
}

#[test]
fn repeated_termination_keeps_the_first_request() {
    let mut state = CallbackState::new();
    let mut pending = VecDeque::new();

    assert!(state.request_termination(vec![1]));
    assert!(!state.request_termination(vec![2]));
    assert_eq!(state.take_action(&mut pending), CallbackAction::Terminate(vec![1]));
    assert!(state.is_terminating());
    assert!(!state.request_termination(vec![2]));
    state.queue(vec![3]);
    assert_eq!(state.take_action(&mut pending), CallbackAction::Terminate(Vec::new()));
    assert!(pending.is_empty());
}

#[test]
fn a_new_state_is_not_terminating() {
    let state: CallbackState<i32> = CallbackState::new();
    assert!(!state.is_terminating());
}
