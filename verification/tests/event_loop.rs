use uikit_event_loop::app_state::{
    queue_gl_or_metal_redraw, set_key_window, will_launch, AppState, AppStateImpl, ControlFlow,
    TerminationTransition, UserCallbackTransitionResult,
};
use uikit_event_loop::event::{
    Event, EventWrapper, HandlePendingUserEvents, Notice, PhysicalSize, ScaleFactorChanged,
    StartCause, WindowEvent, WindowId,
};
use uikit_event_loop::event_loop::{
    did_become_active, did_finish_launching, handle_events_cleared, handle_events_cleared_at,
    handle_main_events_cleared, handle_nonuser_event, handle_nonuser_events,
    handle_wakeup_transition, handle_wakeup_transition_at, send_occluded_event_for_all_windows,
    terminated, will_resign_active, Step, Task,
};
use uikit_event_loop::time::{Clock, Instant};
use uikit_event_loop::waker::{FireDate, TimerSetting};

type App = AppState<u8, i32>;

const HANDLER: u8 = 42;

#[derive(Debug, PartialEq)]
enum Deed {
    Delivered(Event<i32>),
    Resized(WindowId),
    SetUp(WindowId),
    Shown(WindowId),
}

fn at(nanos: i128) -> Instant {
    Instant { nanos }
}

fn window(raw: u64) -> WindowId {
    WindowId { raw }
}

fn wrap(event: Event<i32>) -> EventWrapper<i32> {
    EventWrapper::StaticEvent(event)
}

fn plain(payload: i32) -> EventWrapper<i32> {
    wrap(Event::Other(payload))
}

fn delivered(payload: i32) -> Deed {
    Deed::Delivered(Event::Other(payload))
}

fn of_window(raw: u64, event: WindowEvent<i32>) -> Deed {
    Deed::Delivered(Event::WindowEvent { window_id: window(raw), event })
}

fn user_event() -> Deed {
    Deed::Delivered(Event::UserEvent(HandlePendingUserEvents))
}

/// Performs a task to its end. `nested` is called while a step is performed.
fn perform_with(
    app: &mut App,
    task: Option<Task<u8, i32>>,
    mut nested: impl FnMut(&mut App, &Deed),
) -> Vec<Deed> {
    let mut deeds = Vec::new();
    let mut task = match task {
        Some(task) => task,
        None => return deeds,
    };
    loop {
        assert!(task.is_ready(app));
        let (next, deed) = match task.advance(app) {
            Step::Deliver { mut task, event, .. } => {
                assert_eq!(task.handler(), Some(&mut 42));
                (task, Deed::Delivered(event))
            },
            Step::ResizeView { task, change } => (task, Deed::Resized(change.window)),
            Step::SetUpWindow { task, window } => (task, Deed::SetUp(window)),
            Step::ShowWindow { task, window } => (task, Deed::Shown(window)),
            Step::Done => return deeds,
        };
        nested(app, &deed);
        deeds.push(deed);
        task = next;
    }
}

fn perform(app: &mut App, task: Option<Task<u8, i32>>) -> Vec<Deed> {
    perform_with(app, task, |_, _| {})
}

/// A loop that processes events, and has delivered its first one.
fn launched() -> App {
    let mut app = App::new();
    will_launch(&mut app, HANDLER);
    let task = did_finish_launching(&mut app);
    assert_eq!(
        perform(&mut app, task),
        vec![Deed::Delivered(Event::NewEvents(StartCause::Init))]
    );
    app
}

/// A loop that waits since the given time.
fn waiting(control_flow: ControlFlow, start: Instant) -> App {
    let mut app = launched();
    app.set_control_flow(control_flow);
    let task = handle_main_events_cleared(&mut app);
    let _ = perform(&mut app, task);
    handle_events_cleared_at(&mut app, start);
    app
}

#[test]
fn a_new_loop_has_not_launched() {
    let mut app = App::new();
    assert!(!app.has_launched());
    assert!(!app.has_terminated());
    assert!(!app.is_terminating());
    assert_eq!(app.control_flow(), ControlFlow::Wait);
    assert_eq!(app.control_flow(), ControlFlow::default());
    assert_eq!(app.timer_setting(), TimerSetting::Never);
    assert_eq!(app.take_fire_date_at(at(0)), None);
    // Observers of the run loop find nothing to do.
    assert!(handle_wakeup_transition_at(&mut app, at(0)).is_none());
    assert!(handle_main_events_cleared(&mut app).is_none());
    handle_events_cleared_at(&mut app, at(0));
    assert!(!app.has_launched());
}

#[test]
fn a_launch_sets_up_windows_then_delivers_what_was_kept() {
    let mut app = App::new();
    assert_eq!(set_key_window(&mut app, window(1)), None);
    assert_eq!(set_key_window(&mut app, window(2)), None);
    assert!(handle_nonuser_events(&mut app, vec![plain(1), plain(2)]).is_none());
    will_launch(&mut app, HANDLER);
    assert!(!app.has_launched());
    assert!(handle_nonuser_event(&mut app, plain(3)).is_none());
    let task = did_finish_launching(&mut app);
    let deeds = perform_with(&mut app, task, |app, deed| {
        if *deed == Deed::SetUp(window(2)) {
            assert!(handle_nonuser_event(app, plain(4)).is_none());
        }
    });
    assert_eq!(
        deeds,
        vec![
            Deed::SetUp(window(1)),
            Deed::SetUp(window(2)),
            Deed::Delivered(Event::NewEvents(StartCause::Init)),
            delivered(1),
            delivered(2),
            delivered(3),
            delivered(4),
        ]
    );
    assert!(app.has_launched());
    assert!(matches!(app.state(), AppStateImpl::ProcessingEvents { handler: HANDLER }));
}

#[test]
fn a_launch_stops_when_the_application_terminates_meanwhile() {
    let mut app = App::new();
    let _ = set_key_window(&mut app, window(1));
    let _ = set_key_window(&mut app, window(2));
    will_launch(&mut app, HANDLER);
    let task = did_finish_launching(&mut app);
    let mut last_words = Vec::new();
    let deeds = perform_with(&mut app, task, |app, _| {
        let task = terminated(app, vec![Some(window(1)), None]);
        last_words = perform(app, task);
    });
    assert_eq!(deeds, vec![Deed::SetUp(window(1))]);
    assert_eq!(
        last_words,
        vec![of_window(1, WindowEvent::Destroyed), Deed::Delivered(Event::LoopExiting)]
    );
    assert!(app.has_terminated());
}

#[test]
fn windows_are_shown_at_once_after_the_launch() {
    let mut app = launched();
    assert!(app.accepts_windows());
    assert_eq!(set_key_window(&mut app, window(5)), Some(window(5)));
}

#[test]
fn windows_are_refused_while_launching_waiting_and_terminating() {
    let mut app = App::new();
    assert!(app.accepts_windows());
    will_launch(&mut app, HANDLER);
    assert!(!app.accepts_windows());
    let app = waiting(ControlFlow::Wait, at(1));
    assert!(!app.accepts_windows());
    assert!(!app.accepts_events());
    let app = waiting(ControlFlow::Poll, at(1));
    assert!(!app.accepts_windows());
    let mut app = launched();
    let task = terminated(&mut app, vec![]);
    let _ = perform(&mut app, task);
    assert!(!app.accepts_windows());
}

#[test]
fn nested_events_are_delivered_after_the_pending_ones() {
    let mut app = launched();
    let task = handle_nonuser_events(&mut app, vec![plain(1), plain(2)]);
    assert!(app.control_flow_observers_suppressed());
    let deeds = perform_with(&mut app, task, |app, deed| {
        if *deed == delivered(1) {
            assert!(handle_nonuser_events(app, vec![plain(3), plain(4)]).is_none());
            assert!(handle_nonuser_event(app, plain(5)).is_none());
            assert!(handle_main_events_cleared(app).is_none());
            assert!(handle_wakeup_transition_at(app, at(9)).is_none());
            handle_events_cleared_at(app, at(9));
        }
        if *deed == delivered(4) {
            assert!(handle_nonuser_event(app, plain(6)).is_none());
        }
    });
    let expected: Vec<Deed> = (1..7).map(delivered).collect();
    assert_eq!(deeds, expected);
    assert!(matches!(app.state(), AppStateImpl::ProcessingEvents { handler: HANDLER }));
}

#[test]
fn no_events_leave_everything_as_it_was() {
    let mut app = launched();
    let task = handle_nonuser_events(&mut app, vec![]);
    assert!(task.is_some());
    assert_eq!(perform(&mut app, task), vec![]);
    assert!(matches!(app.state(), AppStateImpl::ProcessingEvents { handler: HANDLER }));
}

#[test]
fn a_change_of_scale_resizes_the_view_before_the_next_event() {
    let mut app = launched();
    let change = ScaleFactorChanged {
        window: window(8),
        suggested_size: PhysicalSize { width: 10, height: 20 },
        scale_factor_bits: 3.0f64.to_bits(),
    };
    let events = vec![EventWrapper::ScaleFactorChanged(change), plain(2)];
    let task = handle_nonuser_events(&mut app, events);
    let scale_event = || {
        of_window(
            8,
            WindowEvent::ScaleFactorChanged {
                scale_factor_bits: 3.0f64.to_bits(),
                suggested_size: PhysicalSize { width: 10, height: 20 },
            },
        )
    };
    let deeds = perform_with(&mut app, task, |app, deed| {
        if *deed == Deed::Resized(window(8)) {
            assert!(handle_nonuser_event(app, plain(3)).is_none());
        }
    });
    assert_eq!(
        deeds,
        vec![scale_event(), Deed::Resized(window(8)), delivered(2), delivered(3)]
    );
    // A handler that terminates the application finds its view left alone.
    let task = handle_nonuser_event(&mut app, EventWrapper::ScaleFactorChanged(change));
    let deeds = perform_with(&mut app, task, |app, deed| {
        if *deed == scale_event() {
            assert!(terminated(app, vec![]).is_none());
        }
    });
    assert_eq!(deeds, vec![scale_event(), Deed::Delivered(Event::LoopExiting)]);
}

#[test]
fn the_user_is_told_again_after_each_batch() {
    let mut app = launched();
    let task = handle_main_events_cleared(&mut app);
    let mut told = 0;
    let deeds = perform_with(&mut app, task, |app, deed| {
        if *deed == user_event() {
            told += 1;
            if told == 1 {
                assert!(handle_nonuser_events(app, vec![plain(1), plain(2)]).is_none());
            }
            if told == 2 {
                assert!(handle_nonuser_event(app, plain(4)).is_none());
            }
        }
        if *deed == delivered(1) {
            // Too late for the batch under way.
            assert!(handle_nonuser_event(app, plain(3)).is_none());
        }
    });
    assert_eq!(
        deeds,
        vec![
            user_event(),
            delivered(1),
            delivered(2),
            user_event(),
            delivered(3),
            delivered(4),
            user_event(),
            Deed::Delivered(Event::AboutToWait),
        ]
    );
}

#[test]
fn an_iteration_redraws_each_window_once() {
    let mut app = launched();
    assert!(queue_gl_or_metal_redraw(&mut app, window(3)));
    assert!(queue_gl_or_metal_redraw(&mut app, window(4)));
    assert!(queue_gl_or_metal_redraw(&mut app, window(3)));
    let task = handle_main_events_cleared(&mut app);
    let deeds = perform(&mut app, task);
    assert_eq!(deeds.len(), 4);
    assert_eq!(deeds[0], user_event());
    assert!(deeds[1..3].contains(&of_window(3, WindowEvent::RedrawRequested)));
    assert!(deeds[1..3].contains(&of_window(4, WindowEvent::RedrawRequested)));
    assert_eq!(deeds[3], Deed::Delivered(Event::AboutToWait));
    assert!(matches!(app.state(), AppStateImpl::ProcessingRedraws { handler: HANDLER }));
    // Nothing is left to redraw.
    handle_events_cleared_at(&mut app, at(1));
    let task = handle_wakeup_transition_at(&mut app, at(2));
    let _ = perform(&mut app, task);
    let task = handle_main_events_cleared(&mut app);
    assert_eq!(
        perform(&mut app, task),
        vec![user_event(), Deed::Delivered(Event::AboutToWait)]
    );
}

#[test]
fn unusual_events_after_the_main_events_are_noticed() {
    let mut app = launched();
    let task = handle_main_events_cleared(&mut app);
    let _ = perform(&mut app, task);
    match handle_nonuser_event(&mut app, plain(1)) {
        Some(task) => match task.advance(&mut app) {
            Step::Deliver { notice, .. } => assert_eq!(notice, Notice::UnexpectedAfterMainEvents),
            other => panic!("{:?}", other),
        },
        None => panic!("no task"),
    }
}

#[test]
fn termination_during_a_callback_waits_for_it_to_return() {
    let mut app = launched();
    let task = handle_nonuser_events(&mut app, vec![plain(1), plain(2)]);
    let deeds = perform_with(&mut app, task, |app, deed| {
        if *deed == delivered(1) {
            assert!(queue_gl_or_metal_redraw(app, window(6)));
            assert!(handle_nonuser_event(app, plain(3)).is_none());
            assert!(terminated(app, vec![None, Some(window(6))]).is_none());
            assert!(app.is_terminating());
            assert!(!app.has_terminated());
            // All of this comes too late.
            assert!(terminated(app, vec![Some(window(9))]).is_none());
            assert!(handle_nonuser_event(app, plain(4)).is_none());
            assert!(!queue_gl_or_metal_redraw(app, window(7)));
            assert_eq!(app.timer_setting(), TimerSetting::Never);
        }
    });
    assert_eq!(
        deeds,
        vec![
            delivered(1),
            of_window(6, WindowEvent::Destroyed),
            Deed::Delivered(Event::LoopExiting),
        ]
    );
    assert!(app.has_terminated());
    assert!(matches!(app.state(), AppStateImpl::Terminated));
}

#[test]
fn termination_ends_an_iteration() {
    let mut app = launched();
    assert!(queue_gl_or_metal_redraw(&mut app, window(6)));
    let task = handle_main_events_cleared(&mut app);
    let deeds = perform_with(&mut app, task, |app, deed| {
        if *deed == user_event() {
            assert!(terminated(app, vec![]).is_none());
        }
    });
    assert_eq!(deeds, vec![user_event(), Deed::Delivered(Event::LoopExiting)]);
    // Nothing happens any more.
    assert!(handle_main_events_cleared(&mut app).is_none());
    handle_events_cleared_at(&mut app, at(5));
    assert!(handle_wakeup_transition_at(&mut app, at(5)).is_none());
    assert!(did_finish_launching(&mut app).is_none());
    assert!(did_become_active(&mut app).is_none());
    assert_eq!(app.timer_setting(), TimerSetting::Never);
    assert!(terminated(&mut app, vec![Some(window(1))]).is_none());
    assert!(app.has_terminated());
}

#[test]
fn termination_reaches_a_loop_that_waits() {
    for control_flow in [ControlFlow::Wait, ControlFlow::Poll, ControlFlow::WaitUntil(at(7))] {
        let mut app = waiting(control_flow, at(1));
        let task = terminated(&mut app, vec![Some(window(2))]);
        assert_eq!(
            perform(&mut app, task),
            vec![of_window(2, WindowEvent::Destroyed), Deed::Delivered(Event::LoopExiting)]
        );
    }
}

#[test]
fn waking_up_tells_the_cause() {
    let mut app = waiting(ControlFlow::Poll, at(1));
    assert!(app.expects_wakeup());
    let task = handle_wakeup_transition_at(&mut app, at(2));
    assert_eq!(
        perform(&mut app, task),
        vec![Deed::Delivered(Event::NewEvents(StartCause::Poll))]
    );

    let mut app = waiting(ControlFlow::Wait, at(1));
    let task = handle_wakeup_transition_at(&mut app, at(2));
    let cause = StartCause::WaitCancelled { start: at(1), requested_resume: None };
    assert_eq!(perform(&mut app, task), vec![Deed::Delivered(Event::NewEvents(cause))]);

    let mut app = waiting(ControlFlow::WaitUntil(at(5)), at(1));
    let task = handle_wakeup_transition_at(&mut app, at(4));
    let cause = StartCause::WaitCancelled { start: at(1), requested_resume: Some(at(5)) };
    assert_eq!(perform(&mut app, task), vec![Deed::Delivered(Event::NewEvents(cause))]);

    let mut app = waiting(ControlFlow::WaitUntil(at(5)), at(1));
    let task = handle_wakeup_transition_at(&mut app, at(5));
    let cause = StartCause::ResumeTimeReached { start: at(1), requested_resume: at(5) };
    assert_eq!(perform(&mut app, task), vec![Deed::Delivered(Event::NewEvents(cause))]);
    assert!(matches!(app.state(), AppStateImpl::ProcessingEvents { handler: HANDLER }));
}

#[test]
fn a_changed_control_flow_makes_a_wakeup_unexpected() {
    let mut app = waiting(ControlFlow::Poll, at(1));
    app.set_control_flow(ControlFlow::Wait);
    assert!(!app.expects_wakeup());
}

#[test]
fn the_clock_tells_when_waiting_began() {
    let clock = Clock::start();
    while clock.now().nanos == 0 {}
    let before = clock.now();
    let mut app = launched();
    app.set_control_flow(ControlFlow::WaitUntil(at(1)));
    let task = handle_main_events_cleared(&mut app);
    let _ = perform(&mut app, task);
    handle_events_cleared(&mut app, &clock);
    let start = match app.state() {
        AppStateImpl::Waiting { start, .. } => *start,
        other => panic!("{:?}", other),
    };
    assert!(before.reached(start));
    let task = handle_wakeup_transition(&mut app, &clock);
    let cause = StartCause::ResumeTimeReached { start, requested_resume: at(1) };
    assert_eq!(perform(&mut app, task), vec![Deed::Delivered(Event::NewEvents(cause))]);
}

#[test]
fn the_timer_follows_activity_redraws_and_control_flow() {
    let mut app = waiting(ControlFlow::Poll, at(1));
    assert_eq!(app.timer_setting(), TimerSetting::Never);
    app.set_application_active(true);
    assert_eq!(app.timer_setting(), TimerSetting::Immediately);
    app.set_application_active(false);
    assert_eq!(app.timer_setting(), TimerSetting::Never);

    let mut app = waiting(ControlFlow::WaitUntil(at(2_000_000_005)), at(1));
    app.set_application_active(true);
    assert_eq!(app.timer_setting(), TimerSetting::At(at(2_000_000_005)));
    match app.take_fire_date_at(at(5)) {
        Some(FireDate::After(delay)) => assert_eq!((delay.secs, delay.subsec_nanos), (2, 0)),
        other => panic!("{:?}", other),
    }
    assert!(queue_gl_or_metal_redraw(&mut app, window(1)));
    assert_eq!(app.timer_setting(), TimerSetting::Immediately);

    let mut app = waiting(ControlFlow::Wait, at(1));
    app.set_application_active(true);
    assert_eq!(app.timer_setting(), TimerSetting::Never);
    let clock = Clock::start();
    assert_eq!(app.take_fire_date(&clock), Some(FireDate::Never));
    assert_eq!(app.take_fire_date(&clock), None);
}

#[test]
fn activity_is_told_to_the_application() {
    let mut app = launched();
    app.set_control_flow(ControlFlow::Poll);
    let task = did_become_active(&mut app);
    assert_eq!(app.timer_setting(), TimerSetting::Immediately);
    assert_eq!(perform(&mut app, task), vec![Deed::Delivered(Event::Resumed)]);
    let task = will_resign_active(&mut app);
    assert_eq!(app.timer_setting(), TimerSetting::Never);
    assert_eq!(perform(&mut app, task), vec![Deed::Delivered(Event::Suspended)]);
}

#[test]
fn own_windows_are_told_of_their_occlusion() {
    let mut app = launched();
    let listed = vec![None, Some(window(1)), Some(window(2))];
    let task = send_occluded_event_for_all_windows(&mut app, listed, true);
    assert_eq!(
        perform(&mut app, task),
        vec![
            of_window(1, WindowEvent::Occluded(true)),
            of_window(2, WindowEvent::Occluded(true)),
        ]
    );
}

#[test]
fn transitions_hand_the_handler_over() {
    let mut app = App::new();
    assert!(matches!(
        app.try_user_callback_transition(),
        UserCallbackTransitionResult::ReentrancyPrevented
    ));
    app.will_launch_transition(HANDLER);
    app.queue_callback_events(vec![plain(1)]);
    let (windows, events) = app.did_finish_launching_transition();
    assert_eq!(windows, vec![]);
    assert_eq!(events, vec![plain(1)]);
    match app.try_user_callback_transition() {
        UserCallbackTransitionResult::Success { handler, processing_redraws } => {
            assert_eq!((handler, processing_redraws), (HANDLER, false));
            app.restore_callback_handler(handler, true);
        },
        other => panic!("{:?}", other),
    }
    assert!(matches!(app.state(), AppStateImpl::ProcessingRedraws { handler: HANDLER }));
    match app.terminated_transition(vec![plain(2)]) {
        TerminationTransition::Immediate { handler, events } => {
            assert_eq!(handler, HANDLER);
            assert_eq!(events, vec![plain(2)]);
        },
        other => panic!("{:?}", other),
    }
    assert!(matches!(
        app.terminated_transition(vec![]),
        TerminationTransition::AlreadyTerminated
    ));
}

#[test]
fn the_clock_that_is_handed_over_is_read() {
    let origin = std::time::Instant::now();
    let clock = Clock::started_at(origin);
    while clock.now().nanos < 2 {}
    // This one has not come to its start, and reads less than zero.
    let behind = Clock::started_at(origin + std::time::Duration::from_secs(3600));

    let mut app = waiting(ControlFlow::WaitUntil(at(1)), at(0));
    let task = handle_wakeup_transition(&mut app, &behind);
    let cause = StartCause::WaitCancelled { start: at(0), requested_resume: Some(at(1)) };
    assert_eq!(perform(&mut app, task), vec![Deed::Delivered(Event::NewEvents(cause))]);

    let mut app = waiting(ControlFlow::WaitUntil(at(1)), at(0));
    let event = app.wakeup_transition(&clock);
    let cause = StartCause::ResumeTimeReached { start: at(0), requested_resume: at(1) };
    assert_eq!(event, Some(wrap(Event::NewEvents(cause))));

    app.set_application_active(true);
    match app.take_fire_date(&behind) {
        Some(FireDate::After(delay)) => assert!(3000 < delay.secs && delay.secs <= 3600),
        other => panic!("{:?}", other),
    }
    app.set_application_active(true);
    assert_eq!(app.take_fire_date(&clock), Some(FireDate::Now));

    let mut app = launched();
    let task = handle_main_events_cleared(&mut app);
    let _ = perform(&mut app, task);
    handle_events_cleared(&mut app, &behind);
    match app.state() {
        AppStateImpl::Waiting { start, .. } => assert!(start.reached(at(-1))),
        other => panic!("{:?}", other),
    }

    let mut app = launched();
    let task = handle_main_events_cleared(&mut app);
    let _ = perform(&mut app, task);
    app.events_cleared_transition(&clock);
    match app.state() {
        AppStateImpl::Waiting { start, .. } => assert!(at(2).reached(*start)),
        other => panic!("{:?}", other),
    }
}

#[test]
fn what_comes_in_during_an_iteration_is_dealt_with_in_it() {
    let mut app = launched();
    let task = handle_main_events_cleared(&mut app);
    let redraw = || of_window(3, WindowEvent::RedrawRequested);
    let deeds = perform_with(&mut app, task, |app, deed| {
        if *deed == user_event() && app.timer_setting() == TimerSetting::Never {
            app.set_application_active(true);
            assert!(queue_gl_or_metal_redraw(app, window(3)));
        }
        if *deed == redraw() {
            // This one is for the next iteration.
            assert!(queue_gl_or_metal_redraw(app, window(4)));
            assert!(handle_nonuser_event(app, plain(1)).is_none());
        }
        if *deed == Deed::Delivered(Event::AboutToWait) {
            assert!(handle_nonuser_event(app, plain(2)).is_none());
        }
    });
    assert_eq!(
        deeds,
        vec![
            user_event(),
            redraw(),
            delivered(1),
            Deed::Delivered(Event::AboutToWait),
            delivered(2),
        ]
    );
    handle_events_cleared_at(&mut app, at(1));
    assert_eq!(app.timer_setting(), TimerSetting::Immediately);
}

#[test]
fn the_loop_exits_once() {
    let mut app = launched();
    let mut told = Vec::new();
    let task = handle_nonuser_event(&mut app, plain(1));
    told.append(&mut perform_with(&mut app, task, |app, deed| {
        // Asked for in every callback, and again while the last events are delivered.
        let first = *deed == delivered(1);
        assert_eq!(app.is_terminating(), !first);
        assert!(terminated(app, vec![Some(window(2))]).is_none());
        assert!(terminated(app, vec![Some(window(9))]).is_none());
        assert!(handle_nonuser_event(app, plain(2)).is_none());
    }));
    let task = terminated(&mut app, vec![Some(window(2))]);
    told.append(&mut perform(&mut app, task));
    let task = handle_nonuser_event(&mut app, plain(3));
    told.append(&mut perform(&mut app, task));
    assert_eq!(
        told,
        vec![
            delivered(1),
            of_window(2, WindowEvent::Destroyed),
            Deed::Delivered(Event::LoopExiting),
        ]
    );
}

#[test]
fn a_time_before_the_start_of_the_clock_is_reported_as_it_was_asked_for() {
    let origin = std::time::Instant::now();
    let clock = Clock::started_at(origin + std::time::Duration::from_secs(2));
    let earlier = clock.instant_of(origin);
    assert_eq!(earlier, at(-2_000_000_000));
    let mut app = waiting(ControlFlow::WaitUntil(earlier), at(0));
    let task = handle_wakeup_transition_at(&mut app, at(1));
    let cause = StartCause::ResumeTimeReached { start: at(0), requested_resume: earlier };
    assert_eq!(perform(&mut app, task), vec![Deed::Delivered(Event::NewEvents(cause))]);
}

#[test]
fn the_handler_comes_back_as_the_calls_have_left_it() {
    let mut app: AppState<u8, i32> = AppState::new();
    will_launch(&mut app, 1);
    let mut next = did_finish_launching(&mut app);
    while let Some(task) = next {
        next = match task.advance(&mut app) {
            Step::Deliver { mut task, .. } => {
                if let Some(handler) = task.handler() {
                    *handler += 1;
                }
                Some(task)
            },
            Step::ResizeView { task, .. } => Some(task),
            Step::SetUpWindow { task, .. } => Some(task),
            Step::ShowWindow { task, .. } => Some(task),
            Step::Done => None,
        };
    }
    assert!(matches!(app.state(), AppStateImpl::ProcessingEvents { handler: 2 }));
}
