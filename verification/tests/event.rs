use uikit_event_loop::event::{
    destroyed_events, keep_own_windows, occluded_events, redraw_events, Event, EventWrapper,
    Notice, PhysicalSize, ScaleFactorChanged, WindowEvent, WindowId,
};

fn window(raw: u64) -> WindowId {
    WindowId { raw }
}

fn of_window(raw: u64, event: WindowEvent<i32>) -> EventWrapper<i32> {
    EventWrapper::StaticEvent(Event::WindowEvent { window_id: window(raw), event })
}

#[test]
fn redraws_and_waiting_are_expected_after_main_events() {
    let redraw: Event<i32> =
        Event::WindowEvent { window_id: window(1), event: WindowEvent::RedrawRequested };
    assert!(redraw.is_redraw());
    assert!(redraw.is_expected_after_main_events());
    let waiting: Event<i32> = Event::AboutToWait;
    assert!(!waiting.is_redraw());
    assert!(waiting.is_expected_after_main_events());
    let other: Event<i32> =
        Event::WindowEvent { window_id: window(1), event: WindowEvent::Other(5) };
    assert!(!other.is_redraw());
    assert!(!other.is_expected_after_main_events());
}

#[test]
fn foreign_windows_get_no_events() {
    let listed = vec![Some(window(4)), None, Some(window(2)), None];
    let own = keep_own_windows(listed);
    assert_eq!(own, vec![window(4), window(2)]);
    assert_eq!(
        occluded_events(own.clone(), true),
        vec![
            of_window(4, WindowEvent::Occluded(true)),
            of_window(2, WindowEvent::Occluded(true)),
        ]
    );
    assert_eq!(
        destroyed_events(own.clone()),
        vec![of_window(4, WindowEvent::Destroyed), of_window(2, WindowEvent::Destroyed)]
    );
    assert_eq!(
        redraw_events(own),
        vec![
            of_window(4, WindowEvent::RedrawRequested),
            of_window(2, WindowEvent::RedrawRequested),
        ]
    );
}

#[test]
fn unusual_deliveries_are_noticed() {
    let (_, notice, _) =
        of_window(1, WindowEvent::RedrawRequested).unwrap_for_handler(false);
    assert_eq!(notice, Notice::RedrawDuringMainEvents);
    let (_, notice, _) = of_window(1, WindowEvent::RedrawRequested).unwrap_for_handler(true);
    assert_eq!(notice, Notice::Usual);
    let (_, notice, _) = of_window(1, WindowEvent::Destroyed).unwrap_for_handler(true);
    assert_eq!(notice, Notice::UnexpectedAfterMainEvents);
    let (_, notice, _) = of_window(1, WindowEvent::Destroyed).unwrap_for_handler(false);
    assert_eq!(notice, Notice::Usual);
}

#[test]
fn a_change_of_scale_is_delivered_as_a_window_event() {
    let suggested_size = PhysicalSize { width: 640, height: 480 };
    let scale_factor_bits = 2.5f64.to_bits();
    let change = ScaleFactorChanged { window: window(3), suggested_size, scale_factor_bits };
    let wrapper: EventWrapper<i32> = EventWrapper::ScaleFactorChanged(change);
    assert_eq!(
        wrapper.unwrap_for_handler(true),
        (
            Event::WindowEvent {
                window_id: window(3),
                event: WindowEvent::ScaleFactorChanged { scale_factor_bits, suggested_size },
            },
            Notice::Usual,
            Some(change),
        )
    );
}
