//! The events that the loop delivers to the application.

use vstd::prelude::*;

use crate::time::Instant;

verus! {

/// Identifies a window of the application.
#[derive(Debug, Clone, Copy, PartialEq, Eq, Structural)]
pub struct WindowId {
    pub raw: u64,
}

/// A size in device pixels.
#[derive(Debug, Clone, Copy, PartialEq, Eq, Structural)]
pub struct PhysicalSize {
    pub width: u32,
    pub height: u32,
}

/// Tells the handler to fetch the user events that wait in its own channel.
#[derive(Debug, Clone, Copy, PartialEq, Eq, Structural)]
pub struct HandlePendingUserEvents;

/// Why an iteration of the loop begins.
#[derive(Debug, Clone, Copy, PartialEq, Eq, Structural)]
pub enum StartCause {
    /// The loop has just been launched.
    Init,
    /// The loop does not wait between iterations.
    Poll,
    /// Something happened before the requested time, if one was requested.
    WaitCancelled { start: Instant, requested_resume: Option<Instant> },
    /// The requested time has come.
    ResumeTimeReached { start: Instant, requested_resume: Instant },
}

/// Something that concerns one window. `P` is what the loop only carries.
#[derive(Debug, PartialEq, Eq)]
pub enum WindowEvent<P> {
    RedrawRequested,
    Occluded(bool),
    Destroyed,
    /// The scale factor changed; the handler may replace the suggested size.
    /// The factor is given by the bits of its IEEE 754 double.
    ScaleFactorChanged { scale_factor_bits: u64, suggested_size: PhysicalSize },
    Other(P),
}

/// An event as the application's handler gets it. `P` is what the loop only carries.
#[derive(Debug, PartialEq, Eq)]
pub enum Event<P> {
    NewEvents(StartCause),
    WindowEvent { window_id: WindowId, event: WindowEvent<P> },
    UserEvent(HandlePendingUserEvents),
    Suspended,
    Resumed,
    AboutToWait,
    LoopExiting,
    Other(P),
}

/// A window moved to a screen of another scale.
///
/// The scale factor is given by the bits of its IEEE 754 double.
#[derive(Debug, Clone, Copy, PartialEq, Eq, Structural)]
pub struct ScaleFactorChanged {
    pub window: WindowId,
    pub suggested_size: PhysicalSize,
    pub scale_factor_bits: u64,
}

/// An event on its way to the handler.
#[derive(Debug, PartialEq, Eq)]
pub enum EventWrapper<P> {
    /// Delivered as it is.
    StaticEvent(Event<P>),
    /// Delivered as a window event, after which the window's view is resized.
    ScaleFactorChanged(ScaleFactorChanged),
}

/// What is unusual about an event, given when it is delivered.
#[derive(Debug, Clone, Copy, PartialEq, Eq, Structural)]
pub enum Notice {
    Usual,
    /// A redraw request while the main events are processed.
    RedrawDuringMainEvents,
    /// Something else than a redraw request after the main events.
    UnexpectedAfterMainEvents,
}

impl<P> Event<P> {
    pub open spec fn redraw(self) -> bool {
        self matches Event::WindowEvent { event: WindowEvent::RedrawRequested, .. }
    }

    pub open spec fn expected_after_main_events(self) -> bool {
        self.redraw() || self is AboutToWait
    }

    /// Whether this asks a window to redraw.
    pub fn is_redraw(&self) -> (redraw: bool)
        ensures
            redraw == self.redraw(),
    {
        matches!(self, Event::WindowEvent { event: WindowEvent::RedrawRequested, .. })
    }

    /// Whether this is delivered after the main events as a matter of course.
    pub fn is_expected_after_main_events(&self) -> (expected: bool)
        ensures
            expected == self.expected_after_main_events(),
    {
        self.is_redraw() || matches!(self, Event::AboutToWait)
    }
}

impl ScaleFactorChanged {
    /// The window event that tells the application of the change.
    pub open spec fn as_event<P>(self) -> Event<P> {
        Event::WindowEvent {
            window_id: self.window,
            event: WindowEvent::ScaleFactorChanged {
                scale_factor_bits: self.scale_factor_bits,
                suggested_size: self.suggested_size,
            },
        }
    }
}

impl<P> EventWrapper<P> {
    /// The event that the handler gets.
    pub open spec fn delivered(self) -> Event<P> {
        match self {
            EventWrapper::StaticEvent(event) => event,
            EventWrapper::ScaleFactorChanged(change) => change.as_event(),
        }
    }

    /// The change of scale that is settled once the handler has returned.
    pub open spec fn scale_change(self) -> Option<ScaleFactorChanged> {
        match self {
            EventWrapper::StaticEvent(_) => None,
            EventWrapper::ScaleFactorChanged(change) => Some(change),
        }
    }

    /// What is unusual about delivering this while the loop processes redraws,
    /// or does not.
    pub open spec fn notice(self, processing_redraws: bool) -> Notice {
        match self {
            EventWrapper::StaticEvent(event) => if !processing_redraws && event.redraw() {
                Notice::RedrawDuringMainEvents
            } else if processing_redraws && !event.expected_after_main_events() {
                Notice::UnexpectedAfterMainEvents
            } else {
                Notice::Usual
            },
            EventWrapper::ScaleFactorChanged(_) => Notice::Usual,
        }
    }

    /// Unwraps the event for the handler, with what is unusual about it and
    /// the change of scale to settle afterwards.
    pub fn unwrap_for_handler(self, processing_redraws: bool) -> (unwrapped: (
        Event<P>,
        Notice,
        Option<ScaleFactorChanged>,
    ))
        ensures
            unwrapped.0 == self.delivered(),
            self matches EventWrapper::StaticEvent(event) ==> unwrapped.0 == event,
            unwrapped.1 == self.notice(processing_redraws),
            unwrapped.2 == self.scale_change(),
    {
        match self {
            EventWrapper::StaticEvent(event) => {
                let notice = if !processing_redraws && event.is_redraw() {
                    Notice::RedrawDuringMainEvents
                } else if processing_redraws && !event.is_expected_after_main_events() {
                    Notice::UnexpectedAfterMainEvents
                } else {
                    Notice::Usual
                };
                (event, notice, None)
            },
            EventWrapper::ScaleFactorChanged(change) => {
                let event = Event::WindowEvent {
                    window_id: change.window,
                    event: WindowEvent::ScaleFactorChanged {
                        scale_factor_bits: change.scale_factor_bits,
                        suggested_size: change.suggested_size,
                    },
                };
                (event, Notice::Usual, Some(change))
            },
        }
    }
}

/// The windows among those the platform lists that belong to this loop: a
/// foreign window is listed as `None`.
pub open spec fn own_windows(listed: Seq<Option<WindowId>>) -> Seq<WindowId>
    decreases listed.len(),
{
    if listed.len() == 0 {
        Seq::empty()
    } else {
        let before = own_windows(listed.drop_last());
        match listed.last() {
            Some(window) => before.push(window),
            None => before,
        }
    }
}

/// One `event` for each of `windows`, in their order.
pub open spec fn each_window<P>(windows: Seq<WindowId>, event: WindowEvent<P>) -> Seq<
    EventWrapper<P>,
> {
    Seq::new(
        windows.len(),
        |i: int| EventWrapper::StaticEvent(Event::WindowEvent { window_id: windows[i], event }),
    )
}

/// Keeps the windows that belong to this loop.
pub fn keep_own_windows(listed: Vec<Option<WindowId>>) -> (windows: Vec<WindowId>)
    ensures
        windows@ == own_windows(listed@),
{
    let mut windows: Vec<WindowId> = Vec::new();
    for i in 0..listed.len()
        invariant
            windows@ == own_windows(listed@.take(i as int)),
    {
        proof {
            assert(listed@.take(i + 1).drop_last() =~= listed@.take(i as int));
        }
        if let Some(window) = listed[i] {
            windows.push(window);
        }
    }
    proof {
        assert(listed@.take(listed@.len() as int) =~= listed@);
    }
    windows
}

/// Tells each window whether it is occluded.
pub fn occluded_events<P>(windows: Vec<WindowId>, occluded: bool) -> (events: Vec<EventWrapper<P>>)
    ensures
        events@ == each_window(windows@, WindowEvent::<P>::Occluded(occluded)),
        events@.len() == windows@.len(),
        forall|i: int|
            0 <= i < windows@.len() ==> #[trigger] events@[i] == EventWrapper::StaticEvent(
                Event::WindowEvent { window_id: windows@[i], event: WindowEvent::<P>::Occluded(occluded) },
            ),
{
    let mut events: Vec<EventWrapper<P>> = Vec::new();
    for i in 0..windows.len()
        invariant
            events@ == each_window(windows@, WindowEvent::<P>::Occluded(occluded)).take(i as int),
    {
        events.push(
            EventWrapper::StaticEvent(
                Event::WindowEvent {
                    window_id: windows[i],
                    event: WindowEvent::Occluded(occluded),
                },
            ),
        );
    }
    events
}

/// Tells each window that it is destroyed.
pub fn destroyed_events<P>(windows: Vec<WindowId>) -> (events: Vec<EventWrapper<P>>)
    ensures
        events@ == each_window(windows@, WindowEvent::<P>::Destroyed),
        events@.len() == windows@.len(),
        forall|i: int|
            0 <= i < windows@.len() ==> #[trigger] events@[i] == EventWrapper::StaticEvent(
                Event::WindowEvent { window_id: windows@[i], event: WindowEvent::<P>::Destroyed },
            ),
{
    let mut events: Vec<EventWrapper<P>> = Vec::new();
    for i in 0..windows.len()
        invariant
            events@ == each_window(windows@, WindowEvent::<P>::Destroyed).take(i as int),
    {
        events.push(
            EventWrapper::StaticEvent(
                Event::WindowEvent { window_id: windows[i], event: WindowEvent::Destroyed },
            ),
        );
    }
    events
}

/// Asks each window to redraw.
pub fn redraw_events<P>(windows: Vec<WindowId>) -> (events: Vec<EventWrapper<P>>)
    ensures
        events@ == each_window(windows@, WindowEvent::<P>::RedrawRequested),
        events@.len() == windows@.len(),
        forall|i: int|
            0 <= i < windows@.len() ==> #[trigger] events@[i] == EventWrapper::StaticEvent(
                Event::WindowEvent { window_id: windows@[i], event: WindowEvent::<P>::RedrawRequested },
            ),
{
    let mut events: Vec<EventWrapper<P>> = Vec::new();
    for i in 0..windows.len()
        invariant
            events@ == each_window(windows@, WindowEvent::<P>::RedrawRequested).take(i as int),
    {
        events.push(
            EventWrapper::StaticEvent(
                Event::WindowEvent { window_id: windows[i], event: WindowEvent::RedrawRequested },
            ),
        );
    }
    events
}

} // verus!
