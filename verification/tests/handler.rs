use uikit_event_loop::event::Event;
use uikit_event_loop::handler::EventLoopHandler;

#[test]
fn the_handler_gets_the_event_and_the_event_loop() {
    let mut seen: Vec<(Event<i32>, u8)> = Vec::new();
    let mut handler = EventLoopHandler {
        handler: |event: Event<i32>, event_loop: &u8| seen.push((event, *event_loop)),
        event_loop: 7u8,
    };
    handler.handle_event(Event::Resumed);
    handler.handle_event(Event::Other(3));
    assert_eq!(seen, vec![(Event::Resumed, 7), (Event::Other(3), 7)]);
}
