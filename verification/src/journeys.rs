//! What becomes of what is handed to the loop, from end to end.

use vstd::prelude::*;

use crate::app_state::ControlFlow;
use crate::dispatch::DispatchModel;
use crate::event::{
    Event, EventWrapper, HandlePendingUserEvents, ScaleFactorChanged, StartCause, WindowEvent,
    WindowId,
};
use crate::event_loop::{TaskModel, ThenModel};
use crate::model::{AppModel, StateModel};
use crate::notification::{Incoming, Notification};
use crate::runs::Deed;
use crate::time::Instant;

verus! {

/// Nothing comes in.
pub open spec fn nothing<H, P>() -> Incoming<H, P> {
    Seq::empty()
}

proof fn nothing_comes_in<H, P>(
    app: AppModel<H, P>,
    steps: nat,
    handler: H,
    deeds: Seq<Deed<P>>,
)
    ensures
        crate::notification::during(nothing::<H, P>(), steps) == Seq::<Notification<H, P>>::empty(),
        crate::notification::past(nothing::<H, P>(), steps) == nothing::<H, P>(),
        crate::notification::undisrupted(nothing::<H, P>()),
        crate::notification::arriving(nothing::<H, P>()) == 0,
        crate::notification::brought(Seq::<Notification<H, P>>::empty()) == Seq::<
            EventWrapper<P>,
        >::empty(),
        crate::notification::changed(app, Seq::<Notification<H, P>>::empty()) == app,
        crate::runs::handler_after(handler, deeds, nothing::<H, P>()) == handler,
    decreases steps, deeds.len(),
{
    if steps > 0 {
        nothing_comes_in(app, (steps - 1) as nat, handler, deeds);
        assert(Seq::<Notification<H, P>>::empty() + Seq::<Notification<H, P>>::empty() =~= Seq::<
            Notification<H, P>,
        >::empty());
    } else if deeds.len() > 0 {
        nothing_comes_in(app, 0, handler, deeds.drop_first());
    }
}

// ---------------------------------------------------------------------------
// What deliveries come to
// ---------------------------------------------------------------------------

/// Delivering events one batch after the other is delivering them all.
pub proof fn deliveries_add_up<P>(first: Seq<EventWrapper<P>>, second: Seq<EventWrapper<P>>)
    ensures
        crate::runs::delivery(first + second) == crate::runs::delivery(first)
            + crate::runs::delivery(second),
    decreases first.len(),
{
    if first.len() == 0 {
        assert(first + second =~= second);
        assert(crate::runs::delivery(first) + crate::runs::delivery(second)
            =~= crate::runs::delivery(second));
    } else {
        assert((first + second).drop_first() =~= first.drop_first() + second);
        deliveries_add_up(first.drop_first(), second);
        assert(crate::runs::delivery(first + second) =~= crate::runs::delivery(first)
            + crate::runs::delivery(second));
    }
}

/// Delivering events calls the handler with each of them, as it is, in their
/// order, and does nothing else.
pub proof fn events_are_delivered_as_they_are<P>(
    events: Seq<Event<P>>,
    wrapped: Seq<EventWrapper<P>>,
)
    requires
        wrapped.len() == events.len(),
        forall|i: int|
            0 <= i < events.len() ==> #[trigger] wrapped[i] == EventWrapper::StaticEvent(events[i]),
    ensures
        crate::runs::delivery(wrapped).len() == events.len(),
        forall|i: int|
            0 <= i < events.len() ==> #[trigger] crate::runs::delivery(wrapped)[i]
                == Deed::Delivered(events[i]),
    decreases events.len(),
{
    if events.len() > 0 {
        let rest = wrapped.drop_first();
        assert forall|i: int| 0 <= i < rest.len() implies #[trigger] rest[i]
            == EventWrapper::StaticEvent(events.drop_first()[i]) by {
            assert(rest[i] == wrapped[i + 1]);
        }
        events_are_delivered_as_they_are(events.drop_first(), rest);
        let deeds = crate::runs::delivery(wrapped);
        assert(wrapped[0] == EventWrapper::StaticEvent(events[0]));
        assert(deeds =~= seq![Deed::Delivered(events[0])] + crate::runs::delivery(rest));
        assert forall|i: int| 0 <= i < events.len() implies #[trigger] deeds[i] == Deed::Delivered(
            events[i],
        ) by {
            if i > 0 {
                assert(deeds[i] == crate::runs::delivery(rest)[i - 1]);
                assert(events[i] == events.drop_first()[i - 1]);
            }
        }
    }
}

/// Delivering a change of scale calls the handler with the window event that
/// tells of it, and then has the window's view resized.
pub proof fn changes_of_scale_are_delivered_and_settled<P>(change: ScaleFactorChanged)
    ensures
        crate::runs::delivery(seq![EventWrapper::<P>::ScaleFactorChanged(change)]) == seq![
            Deed::Delivered(
                Event::<P>::WindowEvent {
                    window_id: change.window,
                    event: WindowEvent::ScaleFactorChanged {
                        scale_factor_bits: change.scale_factor_bits,
                        suggested_size: change.suggested_size,
                    },
                },
            ),
            Deed::Resized(change),
        ],
{
    let wrapped = seq![EventWrapper::<P>::ScaleFactorChanged(change)];
    assert(wrapped.drop_first() =~= Seq::<EventWrapper<P>>::empty());
    assert(crate::runs::delivery(wrapped.drop_first()) =~= Seq::<Deed<P>>::empty());
}

/// Delivering the last events calls the handler with each of them, in their
/// order, and at last with the event that the loop exits.
pub proof fn last_events_are_followed_by_the_exit<P>(
    events: Seq<Event<P>>,
    wrapped: Seq<EventWrapper<P>>,
)
    requires
        wrapped.len() == events.len(),
        forall|i: int|
            0 <= i < events.len() ==> #[trigger] wrapped[i] == EventWrapper::StaticEvent(events[i]),
    ensures
        crate::runs::last_delivery(wrapped).len() == events.len() + 1,
        crate::runs::last_delivery(wrapped).last() == Deed::Delivered(Event::<P>::LoopExiting),
        forall|i: int|
            0 <= i < events.len() ==> #[trigger] crate::runs::last_delivery(wrapped)[i]
                == Deed::Delivered(events[i]),
    decreases events.len(),
{
    if events.len() > 0 {
        let rest = wrapped.drop_first();
        assert forall|i: int| 0 <= i < rest.len() implies #[trigger] rest[i]
            == EventWrapper::StaticEvent(events.drop_first()[i]) by {
            assert(rest[i] == wrapped[i + 1]);
        }
        last_events_are_followed_by_the_exit(events.drop_first(), rest);
        let deeds = crate::runs::last_delivery(wrapped);
        assert(wrapped[0] == EventWrapper::StaticEvent(events[0]));
        assert(deeds =~= seq![Deed::Delivered(events[0])] + crate::runs::last_delivery(rest));
        assert forall|i: int| 0 <= i < events.len() implies #[trigger] deeds[i] == Deed::Delivered(
            events[i],
        ) by {
            if i > 0 {
                assert(deeds[i] == crate::runs::last_delivery(rest)[i - 1]);
                assert(events[i] == events.drop_first()[i - 1]);
            }
        }
    }
}

/// What notifications bring are the events handed in and the tidings of
/// activity, in the order in which they come.
pub proof fn notifications_bring_their_events<H, P>(
    first: Seq<Notification<H, P>>,
    second: Seq<Notification<H, P>>,
    events: Seq<EventWrapper<P>>,
)
    ensures
        crate::notification::brought(first + second) == crate::notification::brought(first)
            + crate::notification::brought(second),
        Notification::<H, P>::Events(events).brings() == events,
        Notification::<H, P>::BecameActive.brings() == seq![
            EventWrapper::StaticEvent(Event::<P>::Resumed),
        ],
        Notification::<H, P>::WillResignActive.brings() == seq![
            EventWrapper::StaticEvent(Event::<P>::Suspended),
        ],
{
    crate::notification::brought_in_turn(first, second);
}

// ---------------------------------------------------------------------------
// From end to end, when nothing else comes in
// ---------------------------------------------------------------------------

/// Arriving events are delivered, and the loop is as it was. Gives the number
/// of steps.
proof fn arrivals_come_to_their_end<H, P>(
    app: AppModel<H, P>,
    events: Seq<EventWrapper<P>>,
    order: Seq<WindowId>,
) -> (steps: nat)
    requires
        app.ready_for_callback(),
    ensures
        crate::runs::task_ends(
            app.handling(events).0->0,
            app.handling(events).1,
            order,
            nothing(),
            steps,
            crate::runs::delivery(events),
            app,
        ),
{
    let handler = app.state.held_handler()->0;
    nothing_comes_in(app, 0, handler, Seq::empty());
    let own_steps = crate::runs::arrivals_are_delivered(events, app, nothing());
    let dispatch = app.events_arrived(events).0->0;
    let deeds = crate::runs::dispatch_run(
        dispatch,
        app.callback_started(),
        nothing(),
        own_steps,
    ).0;
    nothing_comes_in(app, deeds.len(), handler, deeds);
    assert(events + Seq::<EventWrapper<P>>::empty() =~= events);
    let steps = crate::runs::dispatch_within_task(
        dispatch,
        ThenModel::Nothing,
        app.callback_started(),
        order,
        nothing(),
        own_steps,
        0,
    );
    assert(deeds + Seq::<Deed<P>>::empty() =~= deeds);
    steps
}

/// Events that are handed in between two callbacks reach the handler, each as
/// it is and in their order, and nothing else is done; then the loop is as it
/// was. Gives the number of steps.
pub proof fn events_that_are_handed_in_reach_the_handler<H, P>(
    app: AppModel<H, P>,
    events: Seq<Event<P>>,
    wrapped: Seq<EventWrapper<P>>,
    order: Seq<WindowId>,
) -> (steps: nat)
    requires
        app.state is ProcessingEvents || app.state is ProcessingRedraws,
        wrapped.len() == events.len(),
        forall|i: int|
            0 <= i < events.len() ==> #[trigger] wrapped[i] == EventWrapper::StaticEvent(events[i]),
    ensures
        ({
            let (task, begun) = app.handling(wrapped);
            let (deeds, left, after) = crate::runs::task_run(
                task->0,
                begun,
                order,
                nothing(),
                steps,
            );
            &&& task is Some
            &&& left is None
            &&& after == app
            &&& deeds.len() == events.len()
            &&& forall|i: int|
                0 <= i < events.len() ==> #[trigger] deeds[i] == Deed::Delivered(events[i])
        }),
{
    events_are_delivered_as_they_are(events, wrapped);
    arrivals_come_to_their_end(app, wrapped, order)
}

/// Each own window among those listed is told whether it is occluded, as the
/// caller says, in the order of the list; nothing else is done. Gives the
/// number of steps.
pub proof fn windows_are_told_of_their_occlusion<H, P>(
    app: AppModel<H, P>,
    listed: Seq<Option<WindowId>>,
    occluded: bool,
    order: Seq<WindowId>,
) -> (steps: nat)
    requires
        app.state is ProcessingEvents || app.state is ProcessingRedraws,
    ensures
        ({
            let windows = crate::event::own_windows(listed);
            let (task, begun) = app.handling(
                crate::event::each_window(windows, WindowEvent::Occluded(occluded)),
            );
            let (deeds, left, after) = crate::runs::task_run(
                task->0,
                begun,
                order,
                nothing(),
                steps,
            );
            &&& left is None
            &&& after == app
            &&& deeds.len() == windows.len()
            &&& forall|i: int|
                0 <= i < windows.len() ==> #[trigger] deeds[i] == Deed::Delivered(
                    Event::<P>::WindowEvent {
                        window_id: windows[i],
                        event: WindowEvent::Occluded(occluded),
                    },
                )
        }),
{
    let windows = crate::event::own_windows(listed);
    let event = WindowEvent::<P>::Occluded(occluded);
    let events = Seq::new(
        windows.len(),
        |i: int| Event::<P>::WindowEvent { window_id: windows[i], event },
    );
    events_that_are_handed_in_reach_the_handler(
        app,
        events,
        crate::event::each_window(windows, event),
        order,
    )
}

/// A change of scale that is handed in reaches the handler as an event of its
/// window, and the window's view is resized next; then the loop is as it was.
/// Gives the number of steps.
pub proof fn changes_of_scale_that_are_handed_in_are_settled<H, P>(
    app: AppModel<H, P>,
    change: ScaleFactorChanged,
    order: Seq<WindowId>,
) -> (steps: nat)
    requires
        app.state is ProcessingEvents || app.state is ProcessingRedraws,
    ensures
        ({
            let (task, begun) = app.handling(seq![EventWrapper::ScaleFactorChanged(change)]);
            let (deeds, left, after) = crate::runs::task_run(
                task->0,
                begun,
                order,
                nothing(),
                steps,
            );
            &&& left is None
            &&& after == app
            &&& deeds.len() == 2
            &&& deeds[0] == Deed::Delivered(
                Event::<P>::WindowEvent {
                    window_id: change.window,
                    event: WindowEvent::ScaleFactorChanged {
                        scale_factor_bits: change.scale_factor_bits,
                        suggested_size: change.suggested_size,
                    },
                },
            )
            &&& deeds[1] == Deed::<P>::Resized(change)
        }),
{
    changes_of_scale_are_delivered_and_settled::<P>(change);
    arrivals_come_to_their_end(app, seq![EventWrapper::ScaleFactorChanged(change)], order)
}

/// A loop that wakes up tells its handler why, and nothing else: that the
/// requested time has come exactly if it has. Then it processes events. Gives
/// the number of steps.
pub proof fn the_handler_is_told_why_the_loop_woke<H, P>(
    app: AppModel<H, P>,
    handler: H,
    start: Instant,
    requested_resume: Instant,
    now: Instant,
    order: Seq<WindowId>,
) -> (steps: nat)
    requires
        app.state == (StateModel::<H, P>::Waiting { waiting_handler: handler, start }),
        app.control_flow == ControlFlow::WaitUntil(requested_resume),
    ensures
        ({
            let (task, begun) = app.woken(now);
            let (deeds, left, after) = crate::runs::task_run(
                task->0,
                begun,
                order,
                nothing(),
                steps,
            );
            &&& task is Some
            &&& left is None
            &&& deeds.len() == 1
            &&& requested_resume.nanos <= now.nanos ==> deeds[0] == Deed::Delivered(
                Event::<P>::NewEvents(StartCause::ResumeTimeReached { start, requested_resume }),
            )
            &&& requested_resume.nanos > now.nanos ==> deeds[0] == Deed::Delivered(
                Event::<P>::NewEvents(
                    StartCause::WaitCancelled { start, requested_resume: Some(requested_resume) },
                ),
            )
            &&& after.state == (StateModel::<H, P>::ProcessingEvents { handler })
            &&& after.queued_gpu_redraws == app.queued_gpu_redraws
            &&& after.waker == app.waker
            &&& after.control_flow == app.control_flow
            &&& after.application_active == app.application_active
        }),
{
    let event = Event::<P>::NewEvents(app.wakeup_cause(now)->0);
    events_that_are_handed_in_reach_the_handler(
        app.processing_events(),
        seq![event],
        seq![EventWrapper::StaticEvent(event)],
        order,
    )
}

/// What an iteration does: the handler is told of its user events, each window
/// in the order is asked to redraw, and the application is told that the loop
/// is about to wait. Then the loop has all requests dealt with, and nothing
/// else about it has changed. Gives the number of steps.
pub proof fn iterations_redraw_the_windows<H, P>(
    app: AppModel<H, P>,
    handler: H,
    order: Seq<WindowId>,
) -> (steps: nat)
    requires
        app.state == (StateModel::<H, P>::ProcessingEvents { handler }),
        crate::event_loop::walks(order, app.queued_gpu_redraws),
    ensures
        ({
            let (task, begun) = app.main_events_over();
            let (deeds, left, after) = crate::runs::task_run(
                task->0,
                begun,
                order,
                nothing(),
                steps,
            );
            &&& task is Some
            &&& left is None
            &&& deeds.len() == order.len() + 2
            &&& deeds[0] == Deed::Delivered(Event::<P>::UserEvent(HandlePendingUserEvents))
            &&& forall|i: int|
                0 <= i < order.len() ==> deeds[i + 1] == Deed::Delivered(
                    Event::<P>::WindowEvent {
                        window_id: #[trigger] order[i],
                        event: WindowEvent::RedrawRequested,
                    },
                )
            &&& deeds.last() == Deed::Delivered(Event::<P>::AboutToWait)
            &&& after.state == (StateModel::<H, P>::ProcessingRedraws { handler })
            &&& forall|raw: u64| !(#[trigger] after.queued_gpu_redraws.contains(raw))
            &&& after.waker == app.waker
            &&& after.control_flow == app.control_flow
            &&& after.application_active == app.application_active
        }),
{
    let none = Seq::<EventWrapper<P>>::empty();
    let user = crate::runs::user_delivery::<H, P>(
        Seq::empty(),
        Seq::empty(),
        Seq::empty(),
        nothing(),
    );
    let told = Deed::Delivered(Event::<P>::UserEvent(HandlePendingUserEvents));
    nothing_comes_in(app, user.len(), handler, user);
    let begun = Seq::<Deed<P>>::empty() + crate::runs::delivery(none) + crate::runs::told();
    nothing_comes_in(app, begun.len(), handler, begun);
    assert(none + none =~= none);
    assert(user =~= seq![told]);
    let (steps, redraws, last) = crate::runs::an_iteration_comes_to_its_end(app, order, nothing());
    let cleared = app.main_events_cleared();
    nothing_comes_in(cleared, redraws.len(), handler, redraws);
    nothing_comes_in(cleared, last.len(), handler, user + (redraws + last));
    let requests = crate::event::each_window(order, WindowEvent::<P>::RedrawRequested);
    let events = Seq::new(
        order.len(),
        |i: int|
            Event::<P>::WindowEvent { window_id: order[i], event: WindowEvent::RedrawRequested },
    );
    events_are_delivered_as_they_are(events, requests);
    assert(requests + none =~= requests);
    let about_to_wait = seq![EventWrapper::<P>::StaticEvent(Event::AboutToWait)];
    events_are_delivered_as_they_are(seq![Event::<P>::AboutToWait], about_to_wait);
    assert(about_to_wait + none =~= about_to_wait);
    let deeds = user + (redraws + last);
    assert(deeds.last() == last[0]);
    assert forall|i: int| 0 <= i < order.len() implies deeds[i + 1] == Deed::Delivered(
        Event::<P>::WindowEvent {
            window_id: #[trigger] order[i],
            event: WindowEvent::RedrawRequested,
        },
    ) by {
        assert(deeds[i + 1] == redraws[i]);
        assert(redraws[i] == Deed::Delivered(events[i]));
    }
    let no_more = Seq::<Notification<H, P>>::empty();
    assert(no_more + no_more =~= no_more);
    steps
}

/// A window that asks for its next frame while the redraws are processed gets
/// it in the next iteration, however the loop waits in between: the request
/// outlives the wait and the wake-up, and the window is then asked to redraw.
/// Gives the number of steps of the wake-up and of the iteration.
pub proof fn animations_go_on<H, P>(
    app: AppModel<H, P>,
    handler: H,
    window: WindowId,
    start: Instant,
    now: Instant,
    order: Seq<WindowId>,
) -> (steps: (nat, nat))
    requires
        app.state == (StateModel::<H, P>::ProcessingRedraws { handler }),
        crate::event_loop::walks(order, app.redraw_queued(window).queued_gpu_redraws),
    ensures
        ({
            let waiting = app.redraw_queued(window).all_events_over(start);
            let (wakeup, woken) = waiting.woken(now);
            let (_, wakeup_left, processing) = crate::runs::task_run(
                wakeup->0,
                woken,
                order,
                nothing(),
                steps.0,
            );
            let (task, begun) = processing.main_events_over();
            let (deeds, left, after) = crate::runs::task_run(
                task->0,
                begun,
                order,
                nothing(),
                steps.1,
            );
            &&& wakeup_left is None
            &&& left is None
            &&& exists|i: int|
                0 <= i < deeds.len() && #[trigger] deeds[i] == Deed::Delivered(
                    Event::<P>::WindowEvent {
                        window_id: window,
                        event: WindowEvent::RedrawRequested,
                    },
                )
        }),
{
    let asked = app.redraw_queued(window);
    let waiting = asked.all_events_over(start);
    let processing = waiting.processing_events();
    let event = Event::<P>::NewEvents(waiting.wakeup_cause(now)->0);
    let wakeup_steps = events_that_are_handed_in_reach_the_handler(
        processing,
        seq![event],
        seq![EventWrapper::StaticEvent(event)],
        order,
    );
    let steps = iterations_redraw_the_windows(processing, handler, order);
    let (task, begun) = processing.main_events_over();
    let deeds = crate::runs::task_run(task->0, begun, order, nothing(), steps).0;
    assert(asked.queued_gpu_redraws.contains(window.raw));
    crate::deliveries::orders_have_each_window_once(order, asked.queued_gpu_redraws, window.raw);
    let i = choose|i: int| 0 <= i < order.len() && (#[trigger] order[i]).raw == window.raw;
    assert(order[i] == window);
    assert(deeds[i + 1] == Deed::Delivered(
        Event::<P>::WindowEvent { window_id: window, event: WindowEvent::RedrawRequested },
    ));
    (wakeup_steps, steps)
}

/// A loop to which these windows were made, one after the other.
pub open spec fn windows_made<H, P>(app: AppModel<H, P>, windows: Seq<WindowId>) -> AppModel<H, P>
    decreases windows.len(),
{
    if windows.len() == 0 {
        app
    } else {
        windows_made(app, windows.drop_last()).window_kept(windows.last())
    }
}

proof fn made_windows_are_kept<H, P>(windows: Seq<WindowId>)
    ensures
        ({
            let app = windows_made(AppModel::<H, P>::initial(), windows);
            &&& app.state is NotLaunched
            &&& app.state->NotLaunched_queued_windows == windows
            &&& app.state->NotLaunched_queued_events.len() == 0
        }),
    decreases windows.len(),
{
    if windows.len() > 0 {
        made_windows_are_kept::<H, P>(windows.drop_last());
        assert(windows.drop_last().push(windows.last()) =~= windows);
    } else {
        assert(AppModel::<H, P>::initial().state->NotLaunched_queued_windows =~= windows);
    }
}

/// From a new loop to its first event: exactly the windows that were made
/// before the launch are set up, in the order in which they were made; then
/// the handler that the loop was handed is told that the loop starts, and after
/// that it gets the events that came in before, each as it is and in their
/// order. Nothing else is done. Gives the number of steps.
pub proof fn launches_set_up_the_windows_that_were_made<H, P>(
    windows: Seq<WindowId>,
    events: Seq<Event<P>>,
    wrapped: Seq<EventWrapper<P>>,
    handler: H,
    order: Seq<WindowId>,
) -> (steps: nat)
    requires
        wrapped.len() == events.len(),
        forall|i: int|
            0 <= i < events.len() ==> #[trigger] wrapped[i] == EventWrapper::StaticEvent(events[i]),
    ensures
        ({
            let made = windows_made(AppModel::<H, P>::initial(), windows);
            let (task, begun) = made.handling(wrapped).1.launching(handler).launch_finished();
            let (deeds, left, after) = crate::runs::task_run(
                task->0,
                begun,
                order,
                nothing(),
                steps,
            );
            &&& left is None
            &&& deeds.len() == windows.len() + 1 + events.len()
            &&& forall|i: int|
                0 <= i < windows.len() ==> deeds[i] == Deed::<P>::SetUp(#[trigger] windows[i])
            &&& deeds[windows.len() as int] == Deed::Delivered(
                Event::<P>::NewEvents(StartCause::Init),
            )
            &&& forall|i: int|
                0 <= i < events.len() ==> deeds[windows.len() + 1 + i] == Deed::Delivered(
                    #[trigger] events[i],
                )
            &&& after.state == (StateModel::<H, P>::ProcessingEvents { handler })
        }),
{
    made_windows_are_kept::<H, P>(windows);
    let made = windows_made(AppModel::<H, P>::initial(), windows);
    let told = made.handling(wrapped).1;
    assert(told.state->NotLaunched_queued_events =~= wrapped);
    let app = told.launching(handler);
    let (task, begun) = app.launch_finished();
    nothing_comes_in(begun, 0, handler, Seq::empty());
    let steps = crate::runs::a_launch_comes_to_its_end(app, order, nothing());
    let deeds = crate::runs::task_run(task->0, begun, order, nothing(), steps).0;
    nothing_comes_in(begun, deeds.len(), handler, deeds);
    let init = EventWrapper::<P>::StaticEvent(Event::NewEvents(StartCause::Init));
    let all = seq![Event::<P>::NewEvents(StartCause::Init)] + events;
    let all_wrapped = seq![init] + wrapped + Seq::<EventWrapper<P>>::empty();
    assert forall|i: int| 0 <= i < all.len() implies #[trigger] all_wrapped[i]
        == EventWrapper::StaticEvent(all[i]) by {
        if i > 0 {
            assert(all_wrapped[i] == wrapped[i - 1]);
        }
    }
    events_are_delivered_as_they_are(all, all_wrapped);
    let set_up = crate::runs::setting_up::<P>(windows);
    let delivered = crate::runs::delivery(all_wrapped);
    assert(deeds == set_up + delivered);
    assert(delivered[0] == Deed::Delivered(all[0]));
    assert forall|i: int| 0 <= i < events.len() implies deeds[windows.len() + 1 + i]
        == Deed::Delivered(#[trigger] events[i]) by {
        assert(delivered[i + 1] == Deed::Delivered(all[i + 1]));
    }
    steps
}

/// A termination between two callbacks: each own window among those listed is
/// told of its end, in the order of the list, and at last the handler is told
/// that the loop exits. Nothing else is done, and the loop has ended. Gives
/// the number of steps.
pub proof fn terminations_tell_windows_and_exit<H, P>(
    app: AppModel<H, P>,
    listed: Seq<Option<WindowId>>,
    order: Seq<WindowId>,
) -> (steps: nat)
    requires
        app.state is Launching || app.state is ProcessingEvents || app.state is ProcessingRedraws
            || app.state is Waiting || app.state is PollFinished,
    ensures
        ({
            let windows = crate::event::own_windows(listed);
            let (task, begun) = app.application_terminated(listed);
            let (deeds, left, after) = crate::runs::task_run(
                task->0,
                begun,
                order,
                nothing(),
                steps,
            );
            &&& task is Some
            &&& left is None
            &&& after.state is Terminated
            &&& deeds.len() == windows.len() + 1
            &&& forall|i: int|
                0 <= i < windows.len() ==> deeds[i] == Deed::Delivered(
                    Event::<P>::WindowEvent {
                        window_id: #[trigger] windows[i],
                        event: WindowEvent::Destroyed,
                    },
                )
            &&& deeds.last() == Deed::Delivered(Event::<P>::LoopExiting)
        }),
{
    let windows = crate::event::own_windows(listed);
    let events = Seq::new(
        windows.len(),
        |i: int| Event::<P>::WindowEvent { window_id: windows[i], event: WindowEvent::Destroyed },
    );
    let wrapped = crate::event::each_window(windows, WindowEvent::<P>::Destroyed);
    last_events_are_followed_by_the_exit(events, wrapped);
    let ended = app.shut_down();
    let deeds = crate::runs::last_delivery(wrapped);
    nothing_comes_in(ended, deeds.len(), app.state.held_handler()->0, deeds);
    assert forall|i: int| 0 <= i < windows.len() implies deeds[i] == Deed::Delivered(
        Event::<P>::WindowEvent {
            window_id: #[trigger] windows[i],
            event: WindowEvent::Destroyed,
        },
    ) by {
        assert(deeds[i] == Deed::Delivered(events[i]));
    }
    crate::runs::a_termination_comes_to_its_end(app, listed, order, nothing())
}

} // verus!
