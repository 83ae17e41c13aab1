//! What each operation does to each part of what it is given.

use vstd::prelude::*;

use crate::app_state::{AppStateImpl, ControlFlow};
use crate::callback_state::{CallbackModel, CallbackState};
use crate::dispatch::{Progress, ProgressModel};
use crate::event::{
    Event, EventWrapper, Notice, PhysicalSize, ScaleFactorChanged, StartCause, WindowEvent,
    WindowId,
};
use crate::event_loop::{Step, StepModel, Task, TaskModel, Then, ThenModel};
use crate::model::{AppModel, StateModel};
use crate::os_capabilities::{OSCapabilities, OperatingSystemVersion};
use crate::time::{Clock, Delay, Instant};
use crate::waker::{FireDate, TimerSetting, WakerModel};

verus! {

// ---------------------------------------------------------------------------
// Events
// ---------------------------------------------------------------------------

/// The handler gets each event as it was handed in; of an event, nothing is
/// left to settle.
pub proof fn events_reach_the_handler_as_they_are<P>(event: Event<P>)
    ensures
        EventWrapper::StaticEvent(event).delivered() == event,
        EventWrapper::StaticEvent(event).scale_change() == None::<ScaleFactorChanged>,
{
}

/// Of a change of scale the handler gets a window event of that window, with
/// that factor and size; and it is that change that is left to settle.
pub proof fn changes_of_scale_are_told_to_their_window<P>(
    window: WindowId,
    suggested_size: PhysicalSize,
    scale_factor_bits: u64,
)
    ensures
        ({
            let change = ScaleFactorChanged { window, suggested_size, scale_factor_bits };
            let wrapper = EventWrapper::<P>::ScaleFactorChanged(change);
            &&& wrapper.delivered() == Event::<P>::WindowEvent {
                window_id: window,
                event: WindowEvent::ScaleFactorChanged { scale_factor_bits, suggested_size },
            }
            &&& wrapper.scale_change() == Some(change)
        }),
{
}

/// No two events look the same to the handler: what it gets, with what is left
/// to settle, tells what was handed in.
pub proof fn deliveries_tell_events_apart<P>(one: EventWrapper<P>, other: EventWrapper<P>)
    requires
        one.delivered() == other.delivered(),
        one.scale_change() is Some <==> other.scale_change() is Some,
    ensures
        one == other,
{
}

/// Exactly the redraw requests of windows are redraws; and besides these only
/// the last event of an iteration is expected after the main events.
pub proof fn redraws_are_requests_of_windows<P>(event: Event<P>, window: WindowId)
    ensures
        ({
            let asked = Event::<P>::WindowEvent {
                window_id: window,
                event: WindowEvent::RedrawRequested,
            };
            asked.redraw() && asked.expected_after_main_events()
        }),
        ({
            let asked = Event::<P>::WindowEvent {
                window_id: event->window_id,
                event: WindowEvent::RedrawRequested,
            };
            &&& event != asked ==> !event.redraw()
            &&& event != asked && event != Event::<P>::AboutToWait
                ==> !event.expected_after_main_events()
        }),
        Event::<P>::AboutToWait.expected_after_main_events(),
{
}

/// A redraw request is unusual while the main events are processed, and every
/// event but a redraw request and the last one of the iteration is unusual
/// afterwards. A change of scale never is.
pub proof fn notices_tell_what_is_unusual<P>(
    event: Event<P>,
    window: WindowId,
    change: ScaleFactorChanged,
)
    ensures
        ({
            let asked = Event::<P>::WindowEvent {
                window_id: window,
                event: WindowEvent::RedrawRequested,
            };
            let wrapped = EventWrapper::StaticEvent(asked);
            &&& wrapped.notice(false) == Notice::RedrawDuringMainEvents
            &&& wrapped.notice(true) == Notice::Usual
        }),
        ({
            let asked = Event::<P>::WindowEvent {
                window_id: event->window_id,
                event: WindowEvent::RedrawRequested,
            };
            let wrapped = EventWrapper::StaticEvent(event);
            &&& event != asked ==> wrapped.notice(false) == Notice::Usual
            &&& event != asked && event != Event::<P>::AboutToWait ==> wrapped.notice(true)
                == Notice::UnexpectedAfterMainEvents
        }),
        EventWrapper::StaticEvent(Event::<P>::AboutToWait).notice(true) == Notice::Usual,
        EventWrapper::<P>::ScaleFactorChanged(change).notice(false) == Notice::Usual,
        EventWrapper::<P>::ScaleFactorChanged(change).notice(true) == Notice::Usual,
{
}

/// Each window gets one event, that very event, in the order of the windows.
pub proof fn each_window_gets_its_event<P>(windows: Seq<WindowId>, event: WindowEvent<P>)
    ensures
        crate::event::each_window(windows, event).len() == windows.len(),
        forall|i: int|
            0 <= i < windows.len() ==> #[trigger] crate::event::each_window(windows, event)[i]
                == EventWrapper::StaticEvent(
                Event::<P>::WindowEvent { window_id: windows[i], event },
            ),
{
}

/// Of the listed windows exactly the loop's own remain, in the order of the
/// list.
pub proof fn own_windows_remain(
    listed: Seq<Option<WindowId>>,
    more: Seq<Option<WindowId>>,
    window: WindowId,
)
    ensures
        crate::event::own_windows(Seq::empty()) == Seq::<WindowId>::empty(),
        crate::event::own_windows(seq![Some(window)]) == seq![window],
        crate::event::own_windows(seq![None::<WindowId>]) == Seq::<WindowId>::empty(),
        crate::event::own_windows(listed + more) == crate::event::own_windows(listed)
            + crate::event::own_windows(more),
    decreases more.len(),
{
    reveal_with_fuel(crate::event::own_windows, 3);
    assert(seq![Some(window)].drop_last() =~= Seq::<Option<WindowId>>::empty());
    assert(seq![None::<WindowId>].drop_last() =~= Seq::<Option<WindowId>>::empty());
    if more.len() == 0 {
        assert(listed + more =~= listed);
    } else {
        own_windows_remain(listed, more.drop_last(), window);
        assert((listed + more).drop_last() =~= listed + more.drop_last());
    }
}

// ---------------------------------------------------------------------------
// Time and the timer
// ---------------------------------------------------------------------------

/// An instant has come exactly from that time on.
pub proof fn instants_come_in_time(instant: Instant, now: Instant)
    ensures
        instant.reached_at(now) <==> instant.nanos <= now.nanos,
{
}

/// A length of time is so many seconds of a thousand million nanoseconds, and
/// the rest.
pub proof fn delays_are_seconds_and_nanoseconds(delay: Delay)
    ensures
        delay.total_nanos() == delay.secs * 1_000_000_000 + delay.subsec_nanos,
{
}

/// A timer that is to fire never does not; one that is to fire at once, or at
/// an instant that has come, fires now; and else it fires when so long has
/// passed that the instant has come, neither earlier nor later.
pub proof fn the_timer_fires_when_it_is_set_to(date: FireDate, instant: Instant, now: Instant)
    ensures
        crate::waker::carries_out(date, TimerSetting::Never, now) <==> date == FireDate::Never,
        crate::waker::carries_out(date, TimerSetting::Immediately, now) <==> date == FireDate::Now,
        instant.nanos <= now.nanos ==> (crate::waker::carries_out(
            date,
            TimerSetting::At(instant),
            now,
        ) <==> date == FireDate::Now),
        instant.nanos > now.nanos && crate::waker::carries_out(
            date,
            TimerSetting::At(instant),
            now,
        ) ==> (date matches FireDate::After(delay) && {
            &&& delay.secs * 1_000_000_000 + delay.subsec_nanos == instant.nanos - now.nanos
            &&& delay.subsec_nanos < 1_000_000_000
        }),
{
}

/// A change of setting is to be handed to the platform's timer, whatever the
/// setting was before; handing it over leaves the setting.
pub proof fn settings_are_handed_over_once(waker: WakerModel, setting: TimerSetting)
    ensures
        WakerModel::set_to(setting).setting == setting,
        WakerModel::set_to(setting).unprogrammed,
        waker.programmed().setting == waker.setting,
        !waker.programmed().unprogrammed,
{
}

/// From one reading to another is as long as from the other to the one, with
/// the sign turned; and it is the time from the earlier to the later one, in
/// nanoseconds.
pub proof fn time_passes_between_readings(one: std::time::Instant, other: std::time::Instant)
    ensures
        crate::time::nanos_since(one, other) == -crate::time::nanos_since(other, one),
        ({
            let after = crate::time::time_between(other, one);
            let before = crate::time::time_between(one, other);
            crate::time::nanos_since(one, other) == (crate::time::secs_in(after)
                - crate::time::secs_in(before)) * 1_000_000_000 + crate::time::subsec_nanos_in(
                after,
            ) - crate::time::subsec_nanos_in(before)
        }),
{
}

/// What a clock reads was measured from its own start.
pub proof fn clocks_read_the_time_since_their_start(clock: Clock, now: Instant)
    requires
        clock.reads(now),
    ensures
        exists|reading: std::time::Instant|
            {
                let after = crate::time::time_between(reading, clock.origin());
                let before = #[trigger] crate::time::time_between(clock.origin(), reading);
                now.nanos == (crate::time::secs_in(after) - crate::time::secs_in(before))
                    * 1_000_000_000 + crate::time::subsec_nanos_in(after)
                    - crate::time::subsec_nanos_in(before)
            },
{
    let reading = choose|reading: std::time::Instant|
        now.nanos == #[trigger] crate::time::nanos_since(clock.origin(), reading);
    let after = crate::time::time_between(reading, clock.origin());
    let before = crate::time::time_between(clock.origin(), reading);
    assert(now.nanos == (crate::time::secs_in(after) - crate::time::secs_in(before)) * 1_000_000_000
        + crate::time::subsec_nanos_in(after) - crate::time::subsec_nanos_in(before));
}

// ---------------------------------------------------------------------------
// During a callback
// ---------------------------------------------------------------------------

/// While a callback runs, new events go behind the kept ones; a termination
/// request replaces them by its own. When the callback has returned, the kept
/// events go behind the pending ones, and none is kept any more.
pub proof fn running_callbacks_keep_events<E>(kept: Seq<E>, events: Seq<E>, pending: Seq<E>)
    ensures
        ({
            let running = CallbackModel::Running(kept);
            &&& !running.terminating()
            &&& running.queued(events) == CallbackModel::Running(kept + events)
            &&& running.termination_requested(events) == CallbackModel::Terminating(events)
            &&& running.action_taken() == CallbackModel::Running(Seq::<E>::empty())
            &&& running.pending_after_action(pending) == pending + kept
        }),
{
}

/// Once termination was requested, neither new events nor further requests
/// change what is due. When the callback has returned, the pending events are
/// dropped.
pub proof fn terminating_callbacks_drop_events<E>(due: Seq<E>, events: Seq<E>, pending: Seq<E>)
    ensures
        ({
            let terminating = CallbackModel::Terminating(due);
            &&& terminating.terminating()
            &&& terminating.queued(events) == terminating
            &&& terminating.termination_requested(events) == terminating
            &&& terminating.action_taken() == CallbackModel::Terminating(Seq::<E>::empty())
            &&& terminating.pending_after_action(pending) == Seq::<E>::empty()
        }),
{
}

// ---------------------------------------------------------------------------
// The lifecycle
// ---------------------------------------------------------------------------

/// A new loop waits to be launched; it has nothing to do, is in the
/// background, and would wait for events.
pub proof fn new_loops_have_nothing_to_do<H, P>()
    ensures
        ({
            let app = AppModel::<H, P>::initial();
            &&& app.state matches StateModel::NotLaunched { queued_windows, queued_events }
                && queued_windows.len() == 0 && queued_events.len() == 0
            &&& !app.application_active
            &&& app.control_flow == ControlFlow::Wait
            &&& forall|raw: u64| !(#[trigger] app.queued_gpu_redraws.contains(raw))
            &&& app.waker.setting == TimerSetting::Never
            &&& !app.waker.unprogrammed
        }),
{
}

/// What each lifecycle state says of the loop.
pub proof fn states_tell_how_far_the_loop_is<H, P>(app: AppModel<H, P>)
    ensures
        app.launched() <==> match app.state {
            StateModel::NotLaunched { .. } | StateModel::Launching { .. } => false,
            _ => true,
        },
        app.terminated() <==> app.state == StateModel::<H, P>::Terminated,
        app.running() <==> match app.state {
            StateModel::NotLaunched { .. }
            | StateModel::Launching { .. }
            | StateModel::Terminated => false,
            _ => true,
        },
        app.in_callback() <==> match app.state {
            StateModel::InUserCallback { .. } => true,
            _ => false,
        },
        app.terminating() <==> match app.state {
            StateModel::InUserCallback { callback: CallbackModel::Terminating(_) } => true,
            StateModel::Terminated => true,
            _ => false,
        },
        app.accepts_events() <==> match app.state {
            StateModel::Waiting { .. } | StateModel::PollFinished { .. } => false,
            _ => true,
        },
        app.accepts_windows() <==> match app.state {
            StateModel::NotLaunched { .. }
            | StateModel::ProcessingEvents { .. }
            | StateModel::ProcessingRedraws { .. }
            | StateModel::InUserCallback { callback: CallbackModel::Running(_) } => true,
            _ => false,
        },
        app.ready_for_callback() <==> match app.state {
            StateModel::ProcessingEvents { .. } | StateModel::ProcessingRedraws { .. } => true,
            _ => false,
        },
        app.expects_wakeup() <==> match (app.state, app.control_flow) {
            (StateModel::PollFinished { .. }, ControlFlow::Poll) => true,
            (StateModel::Waiting { .. }, ControlFlow::Wait) => true,
            (StateModel::Waiting { .. }, ControlFlow::WaitUntil(_)) => true,
            _ => false,
        },
        app.state.held_handler() == match app.state {
            StateModel::Launching { queued_handler, .. } => Some(queued_handler),
            StateModel::ProcessingEvents { handler } => Some(handler),
            StateModel::ProcessingRedraws { handler } => Some(handler),
            StateModel::Waiting { waiting_handler, .. } => Some(waiting_handler),
            StateModel::PollFinished { waiting_handler } => Some(waiting_handler),
            StateModel::NotLaunched { .. }
            | StateModel::InUserCallback { .. }
            | StateModel::Terminated => None,
        },
{
}

/// Changing the lifecycle state changes nothing else.
pub proof fn states_change_alone<H, P>(app: AppModel<H, P>, state: StateModel<H, P>, handler: H)
    ensures
        app.with_state(state).state == state,
        app.with_state(state).application_active == app.application_active,
        app.with_state(state).control_flow == app.control_flow,
        app.with_state(state).queued_gpu_redraws == app.queued_gpu_redraws,
        app.with_state(state).waker == app.waker,
        StateModel::<H, P>::processing(handler, false) == (StateModel::<H, P>::ProcessingEvents {
            handler,
        }),
        StateModel::<H, P>::processing(handler, true) == (StateModel::<H, P>::ProcessingRedraws {
            handler,
        }),
{
}

/// A window that is made before the launch is kept behind those before it;
/// later ones are not kept. Nothing else changes.
pub proof fn windows_are_kept_for_the_launch<H, P>(app: AppModel<H, P>, window: WindowId)
    ensures
        ({
            let after = app.window_kept(window);
            &&& match app.state {
                StateModel::NotLaunched { queued_windows, queued_events } => after.state == (
                StateModel::<H, P>::NotLaunched {
                    queued_windows: queued_windows + seq![window],
                    queued_events,
                }),
                state => after.state == state,
            }
            &&& after.application_active == app.application_active
            &&& after.control_flow == app.control_flow
            &&& after.queued_gpu_redraws == app.queued_gpu_redraws
            &&& after.waker == app.waker
        }),
{
    if let StateModel::NotLaunched { queued_windows, .. } = app.state {
        assert(queued_windows.push(window) =~= queued_windows + seq![window]);
    }
}

/// Handing the loop its handler keeps all windows and events that were kept
/// before, and changes nothing else.
pub proof fn launching_keeps_windows_and_events<H, P>(
    app: AppModel<H, P>,
    queued_windows: Seq<WindowId>,
    queued_events: Seq<EventWrapper<P>>,
    handler: H,
)
    requires
        app.state == (StateModel::<H, P>::NotLaunched { queued_windows, queued_events }),
    ensures
        ({
            let after = app.launching(handler);
            &&& after.state == (StateModel::<H, P>::Launching {
                queued_windows,
                queued_events,
                queued_handler: handler,
            })
            &&& after.application_active == app.application_active
            &&& after.control_flow == app.control_flow
            &&& after.queued_gpu_redraws == app.queued_gpu_redraws
            &&& after.waker == app.waker
        }),
{
}

/// Events that come too early or during a callback are kept behind the earlier
/// ones, unless the loop ends. Nothing else changes.
pub proof fn events_are_kept_in_order<H, P>(app: AppModel<H, P>, events: Seq<EventWrapper<P>>)
    ensures
        ({
            let after = app.events_kept(events);
            &&& after.state == match app.state {
                StateModel::NotLaunched { queued_windows, queued_events } => StateModel::<
                    H,
                    P,
                >::NotLaunched { queued_windows, queued_events: queued_events + events },
                StateModel::Launching { queued_windows, queued_events, queued_handler } =>
                    StateModel::Launching {
                    queued_windows,
                    queued_events: queued_events + events,
                    queued_handler,
                },
                StateModel::InUserCallback { callback: CallbackModel::Running(kept) } =>
                    StateModel::InUserCallback { callback: CallbackModel::Running(kept + events) },
                state => state,
            }
            &&& after.application_active == app.application_active
            &&& after.control_flow == app.control_flow
            &&& after.queued_gpu_redraws == app.queued_gpu_redraws
            &&& after.waker == app.waker
        }),
{
}

/// Taking the windows for the launch leaves the events and the handler.
pub proof fn windows_are_taken_at_the_launch<H, P>(app: AppModel<H, P>)
    requires
        app.state is Launching,
    ensures
        ({
            let after = app.windows_taken();
            &&& after.state is Launching
            &&& after.state->Launching_queued_windows.len() == 0
            &&& after.state->Launching_queued_events == app.state->Launching_queued_events
            &&& after.state->Launching_queued_handler == app.state->Launching_queued_handler
            &&& after.application_active == app.application_active
            &&& after.control_flow == app.control_flow
            &&& after.queued_gpu_redraws == app.queued_gpu_redraws
            &&& after.waker == app.waker
        }),
{
}

/// A loop that turns to its events keeps its handler, and nothing else
/// changes.
pub proof fn turning_to_events_changes_the_state_alone<H, P>(app: AppModel<H, P>, handler: H)
    requires
        app.state.held_handler() == Some(handler),
    ensures
        ({
            let after = app.processing_events();
            &&& after.state == (StateModel::<H, P>::ProcessingEvents { handler })
            &&& after.application_active == app.application_active
            &&& after.control_flow == app.control_flow
            &&& after.queued_gpu_redraws == app.queued_gpu_redraws
            &&& after.waker == app.waker
        }),
{
}

/// A loop that turns to its redraws keeps its handler and has taken all
/// requests; nothing else changes.
pub proof fn turning_to_redraws_takes_the_requests<H, P>(app: AppModel<H, P>, handler: H)
    requires
        app.state == (StateModel::<H, P>::ProcessingEvents { handler }),
    ensures
        ({
            let after = app.main_events_cleared();
            &&& after.state == (StateModel::<H, P>::ProcessingRedraws { handler })
            &&& forall|raw: u64| !(#[trigger] after.queued_gpu_redraws.contains(raw))
            &&& after.application_active == app.application_active
            &&& after.control_flow == app.control_flow
            &&& after.waker == app.waker
        }),
{
}

/// Going to wait keeps the handler, records since when, and sets the timer;
/// what was asked of the loop stays: the redraw requests, the activity and the
/// control flow.
pub proof fn going_to_wait_keeps_what_was_asked<H, P>(
    app: AppModel<H, P>,
    handler: H,
    now: Instant,
)
    requires
        app.state == (StateModel::<H, P>::ProcessingRedraws { handler }),
    ensures
        ({
            let after = app.events_cleared(now);
            &&& after.queued_gpu_redraws == app.queued_gpu_redraws
            &&& after.application_active == app.application_active
            &&& after.control_flow == app.control_flow
            &&& after.state == if app.control_flow is Poll {
                StateModel::<H, P>::PollFinished { waiting_handler: handler }
            } else {
                StateModel::<H, P>::Waiting { waiting_handler: handler, start: now }
            }
            &&& after.waker == app.waker_updated().waker
        }),
{
}

/// Before the launch and after the end nothing is waited for.
pub proof fn only_running_loops_wait<H, P>(app: AppModel<H, P>, now: Instant)
    requires
        app.state is NotLaunched || app.state is Launching || app.state is Terminated,
    ensures
        app.events_cleared(now) == app,
{
}

/// The timer is set for what the loop wants now: never when it ends or is in
/// the background; else at once while a window waits to be redrawn; else as the
/// control flow says. Nothing else changes.
pub proof fn the_timer_is_set_for_what_is_wanted<H, P>(app: AppModel<H, P>, raw: u64)
    ensures
        ({
            let after = app.waker_updated();
            let setting = after.waker.setting;
            &&& after.state == app.state
            &&& after.application_active == app.application_active
            &&& after.control_flow == app.control_flow
            &&& after.queued_gpu_redraws == app.queued_gpu_redraws
            &&& after.waker.unprogrammed
            &&& app.state is Terminated ==> setting == TimerSetting::Never
            &&& (app.state matches StateModel::InUserCallback {
                callback: CallbackModel::Terminating(_),
            }) ==> setting == TimerSetting::Never
            &&& !app.application_active ==> setting == TimerSetting::Never
            &&& !app.terminating() && app.application_active ==> {
                &&& app.queued_gpu_redraws.contains(raw) ==> setting == TimerSetting::Immediately
                &&& app.queued_gpu_redraws == Set::<u64>::empty() ==> match app.control_flow {
                    ControlFlow::Poll => setting == TimerSetting::Immediately,
                    ControlFlow::Wait => setting == TimerSetting::Never,
                    ControlFlow::WaitUntil(instant) => setting == TimerSetting::At(instant),
                }
            }
        }),
{
}

/// Coming to the foreground, or leaving it, is recorded, and the timer set
/// accordingly. Nothing else changes.
pub proof fn activity_is_recorded<H, P>(app: AppModel<H, P>, active: bool)
    ensures
        ({
            let after = app.application_active_set(active);
            let recorded = AppModel { application_active: active, ..app };
            &&& after.application_active == active
            &&& after.state == app.state
            &&& after.control_flow == app.control_flow
            &&& after.queued_gpu_redraws == app.queued_gpu_redraws
            &&& after.waker == recorded.waker_updated().waker
        }),
{
}

/// A redraw request is added to those before it, and the timer set
/// accordingly, unless the loop ends. Nothing else changes.
pub proof fn redraw_requests_are_added<H, P>(app: AppModel<H, P>, window: WindowId)
    ensures
        ({
            let after = app.redraw_queued(window);
            &&& app.terminating() ==> after == app
            &&& !app.terminating() ==> {
                &&& forall|raw: u64| #[trigger]
                    after.queued_gpu_redraws.contains(raw) <==> raw == window.raw
                        || app.queued_gpu_redraws.contains(raw)
                &&& after.waker.unprogrammed
                &&& after.waker.setting == (if app.application_active {
                    TimerSetting::Immediately
                } else {
                    TimerSetting::Never
                })
            }
            &&& after.state == app.state
            &&& after.application_active == app.application_active
            &&& after.control_flow == app.control_flow
        }),
{
    assert(app.queued_gpu_redraws.insert(window.raw).contains(window.raw));
}

/// A callback starts with nothing kept, and taking the loop's action leaves
/// nothing kept. Neither changes anything else.
pub proof fn callbacks_start_with_nothing_kept<H, P>(app: AppModel<H, P>)
    ensures
        ({
            let started = app.callback_started();
            &&& started.state matches StateModel::InUserCallback {
                callback: CallbackModel::Running(kept),
            } && kept.len() == 0
            &&& started.application_active == app.application_active
            &&& started.control_flow == app.control_flow
            &&& started.queued_gpu_redraws == app.queued_gpu_redraws
            &&& started.waker == app.waker
        }),
        ({
            let taken = app.action_taken();
            &&& match app.state {
                StateModel::InUserCallback { callback: CallbackModel::Running(_) } => {
                    taken.state matches StateModel::InUserCallback {
                        callback: CallbackModel::Running(kept),
                    } && kept.len() == 0
                },
                StateModel::InUserCallback { callback: CallbackModel::Terminating(_) } => {
                    taken.state matches StateModel::InUserCallback {
                        callback: CallbackModel::Terminating(due),
                    } && due.len() == 0
                },
                state => taken.state == state,
            }
            &&& taken.application_active == app.application_active
            &&& taken.control_flow == app.control_flow
            &&& taken.queued_gpu_redraws == app.queued_gpu_redraws
            &&& taken.waker == app.waker
        }),
{
}

/// A loop that has ended has no requests left and is not woken any more; what
/// was asked of its control flow, and its activity, stay recorded.
pub proof fn ended_loops_rest<H, P>(app: AppModel<H, P>)
    ensures
        ({
            let after = app.shut_down();
            &&& after.state is Terminated
            &&& forall|raw: u64| !(#[trigger] after.queued_gpu_redraws.contains(raw))
            &&& after.waker.setting == TimerSetting::Never
            &&& after.waker.unprogrammed
            &&& after.application_active == app.application_active
            &&& after.control_flow == app.control_flow
        }),
{
}

/// A request to terminate ends the loop at once, or during a callback makes
/// `events` what is due when it returns; either way no requests are left, and
/// the loop is not woken any more. A second request changes nothing.
pub proof fn termination_requests_end_the_loop<H, P>(
    app: AppModel<H, P>,
    events: Seq<EventWrapper<P>>,
)
    ensures
        ({
            let after = app.termination_requested(events);
            &&& app.terminating() ==> after == app
            &&& !app.terminating() ==> {
                &&& forall|raw: u64| !(#[trigger] after.queued_gpu_redraws.contains(raw))
                &&& after.waker.setting == TimerSetting::Never
                &&& after.waker.unprogrammed
                &&& after.state == if app.state is InUserCallback {
                    StateModel::<H, P>::InUserCallback {
                        callback: CallbackModel::Terminating(events),
                    }
                } else {
                    StateModel::<H, P>::Terminated
                }
            }
            &&& after.application_active == app.application_active
            &&& after.control_flow == app.control_flow
        }),
{
}

/// A loop that waits for a time is told, when it wakes up, that the time has
/// come exactly if it has; one that waits for events, that something happened;
/// and one that polls, that it polls. It is told since when it waited.
pub proof fn wakeups_are_told_by_the_time<H, P>(app: AppModel<H, P>, now: Instant)
    ensures
        match (app.state, app.control_flow) {
            (StateModel::Waiting { start, .. }, ControlFlow::WaitUntil(requested_resume)) => {
                &&& requested_resume.nanos <= now.nanos ==> app.wakeup_cause(now) == Some(
                    StartCause::ResumeTimeReached { start, requested_resume },
                )
                &&& requested_resume.nanos > now.nanos ==> app.wakeup_cause(now) == Some(
                    StartCause::WaitCancelled { start, requested_resume: Some(requested_resume) },
                )
            },
            (StateModel::Waiting { start, .. }, ControlFlow::Wait) => app.wakeup_cause(now) == Some(
                StartCause::WaitCancelled { start, requested_resume: None },
            ),
            (StateModel::PollFinished { .. }, ControlFlow::Poll) => app.wakeup_cause(now) == Some(
                StartCause::Poll,
            ),
            _ => app.wakeup_cause(now) == None::<StartCause>,
        },
{
}

/// The cause of waking up depends on nothing but the lifecycle state, the
/// control flow and the time: not on the timer, the redraw requests or the
/// activity.
pub proof fn wakeups_do_not_depend_on_the_timer<H, P>(
    one: AppModel<H, P>,
    other: AppModel<H, P>,
    now: Instant,
)
    requires
        one.state == other.state,
        one.control_flow == other.control_flow,
    ensures
        one.wakeup_cause(now) == other.wakeup_cause(now),
{
}

/// The loop is valid exactly if, once it is to end, it has no requests and its
/// timer is set to never.
pub proof fn valid_loops_end_quietly<H, P>(app: AppModel<H, P>)
    ensures
        app.valid() <==> (app.terminating() ==> {
            &&& forall|raw: u64| !(#[trigger] app.queued_gpu_redraws.contains(raw))
            &&& app.waker.setting == TimerSetting::Never
        }),
{
    if forall|raw: u64| !(#[trigger] app.queued_gpu_redraws.contains(raw)) {
        assert(app.queued_gpu_redraws =~= Set::<u64>::empty());
    }
}

// ---------------------------------------------------------------------------
// Values and their mathematical values
// ---------------------------------------------------------------------------

/// The mathematical value of a lifecycle state shows each of its parts.
pub proof fn state_values_show_their_parts<H, P>(state: AppStateImpl<H, P>)
    ensures
        match state {
            AppStateImpl::NotLaunched { queued_windows, queued_events } => state@ == (StateModel::<
                H,
                P,
            >::NotLaunched { queued_windows: queued_windows@, queued_events: queued_events@ }),
            AppStateImpl::Launching { queued_windows, queued_events, queued_handler } => state@ == (
            StateModel::<H, P>::Launching {
                queued_windows: queued_windows@,
                queued_events: queued_events@,
                queued_handler,
            }),
            AppStateImpl::ProcessingEvents { handler } => state@ == (StateModel::<
                H,
                P,
            >::ProcessingEvents { handler }),
            AppStateImpl::InUserCallback { callback: CallbackState::Running(kept) } => state@ == (
            StateModel::<H, P>::InUserCallback { callback: CallbackModel::Running(kept@) }),
            AppStateImpl::InUserCallback { callback: CallbackState::Terminating(due) } => state@
                == (StateModel::<H, P>::InUserCallback {
                callback: CallbackModel::Terminating(due@),
            }),
            AppStateImpl::ProcessingRedraws { handler } => state@ == (StateModel::<
                H,
                P,
            >::ProcessingRedraws { handler }),
            AppStateImpl::Waiting { waiting_handler, start } => state@ == (StateModel::<
                H,
                P,
            >::Waiting { waiting_handler, start }),
            AppStateImpl::PollFinished { waiting_handler } => state@ == (StateModel::<
                H,
                P,
            >::PollFinished { waiting_handler }),
            AppStateImpl::Terminated => state@ == StateModel::<H, P>::Terminated,
        },
{
}

/// The mathematical value of a task shows each of its parts.
pub proof fn task_values_show_their_parts<H, P>(task: Task<H, P>, then: Then)
    ensures
        match task {
            Task::Dispatching { dispatch, then } => task@ == (TaskModel::<H, P>::Dispatching {
                dispatch: dispatch@,
                then: then@,
            }),
            Task::SettingUp { windows } => task@ == (TaskModel::<H, P>::SettingUp {
                windows: windows@,
            }),
            Task::Showing { windows } => task@ == (TaskModel::<H, P>::Showing { windows: windows@ }),
        },
        match then {
            Then::Nothing => then@ == ThenModel::Nothing,
            Then::ShowWindows(windows) => then@ == ThenModel::ShowWindows(windows@),
            Then::Redraw => then@ == ThenModel::Redraw,
            Then::AboutToWait => then@ == ThenModel::AboutToWait,
        },
        crate::event_loop::task_model(Some(task)) == Some(task@),
        crate::event_loop::task_model(None::<Task<H, P>>) == None::<TaskModel<H, P>>,
{
}

/// The mathematical value of a step shows what the driver is to do.
pub proof fn step_values_show_their_parts<H, P>(step: Step<H, P>, progress: Progress<H, P>)
    ensures
        match step {
            Step::Deliver { task, event, notice } => step@ == (StepModel::<H, P>::Deliver {
                task: task@,
                event,
                notice,
            }),
            Step::ResizeView { task, change } => step@ == (StepModel::<H, P>::ResizeView {
                task: task@,
                change,
            }),
            Step::SetUpWindow { task, window } => step@ == (StepModel::<H, P>::SetUpWindow {
                task: task@,
                window,
            }),
            Step::ShowWindow { task, window } => step@ == (StepModel::<H, P>::ShowWindow {
                task: task@,
                window,
            }),
            Step::Done => step@ == StepModel::<H, P>::Done,
        },
        match progress {
            Progress::Deliver { dispatch, event, notice } => progress@ == (ProgressModel::<
                H,
                P,
            >::Deliver { dispatch: dispatch@, event, notice }),
            Progress::ResizeView { dispatch, change } => progress@ == (ProgressModel::<
                H,
                P,
            >::ResizeView { dispatch: dispatch@, change }),
            Progress::Finished => progress@ == ProgressModel::<H, P>::Finished,
        },
{
}

// ---------------------------------------------------------------------------
// Versions
// ---------------------------------------------------------------------------

/// Versions are compared by their major number, and among equal ones by their
/// minor number.
pub proof fn versions_are_ordered(version: OperatingSystemVersion, major: int, minor: int)
    ensures
        version.major > major ==> version.at_least(major, minor),
        version.major < major ==> !version.at_least(major, minor),
        version.major == major ==> (version.at_least(major, minor) <==> version.minor >= minor),
{
}

/// Which features each version has.
pub proof fn features_come_with_versions(
    capabilities: OSCapabilities,
    version: OperatingSystemVersion,
)
    requires
        capabilities.describes(version),
    ensures
        capabilities.os_version == version,
        capabilities.safe_area <==> version.major > 11 || (version.major == 11 && version.minor
            >= 0),
        capabilities.home_indicator_hidden <==> version.major > 11 || (version.major == 11
            && version.minor >= 0),
        capabilities.defer_system_gestures <==> version.major > 11 || (version.major == 11
            && version.minor >= 0),
        capabilities.maximum_frames_per_second <==> version.major > 10 || (version.major == 10
            && version.minor >= 3),
        capabilities.force_touch <==> version.major > 9 || (version.major == 9 && version.minor
            >= 0),
{
}

/// The value of a decimal digit.
pub open spec fn digit_value(digit: char) -> int {
    digit as int - '0' as int
}

/// The number that decimal digits stand for.
pub open spec fn digits_value(digits: Seq<char>) -> int
    decreases digits.len(),
{
    if digits.len() == 0 {
        0
    } else {
        digits_value(digits.drop_last()) * 10 + digit_value(digits.last())
    }
}

/// Writing a natural number in decimal and reading it gives the number back;
/// it is written in digits alone, and with no leading zeros.
pub proof fn decimals_can_be_read_back(number: nat)
    ensures
        ({
            let digits = crate::os_capabilities::digits(number);
            &&& digits.len() > 0
            &&& digits_value(digits) == number
            &&& forall|i: int| 0 <= i < digits.len() ==> '0' <= #[trigger] digits[i] <= '9'
            &&& digits.len() > 1 ==> digits[0] != '0'
            &&& number > 0 ==> digits[0] != '0'
        }),
    decreases number,
{
    let digits = crate::os_capabilities::digits(number);
    let last = crate::os_capabilities::digit((number % 10) as int);
    assert(digit_value(last) == number % 10);
    if number < 10 {
        assert(digits =~= seq![last]);
        assert(digits.drop_last() =~= Seq::<char>::empty());
        assert(digits_value(digits.drop_last()) == 0);
    } else {
        decimals_can_be_read_back(number / 10);
        assert(digits.drop_last() =~= crate::os_capabilities::digits(number / 10));
    }
}

/// A negative number is written as a minus sign and its distance from zero.
pub proof fn negative_decimals_have_a_sign(number: nat)
    ensures
        crate::os_capabilities::decimal(number as int) == crate::os_capabilities::digits(number),
        number > 0 ==> crate::os_capabilities::decimal(-(number as int)) == seq!['-']
            + crate::os_capabilities::digits(number),
{
}

/// What is said of a missing call names the call, the version that has it, the
/// version of the device in full, and what the caller adds.
pub proof fn requirements_name_call_and_versions(
    objc_call: Seq<char>,
    major: int,
    minor: int,
    version: OperatingSystemVersion,
    extra_msg: Seq<char>,
)
    ensures
        ({
            let text = crate::os_capabilities::requirement_text(
                objc_call,
                major,
                minor,
                version,
                extra_msg,
            );
            let required = crate::os_capabilities::decimal(major) + "."@
                + crate::os_capabilities::decimal(minor);
            let running = crate::os_capabilities::decimal(version.major as int) + "."@
                + crate::os_capabilities::decimal(version.minor as int) + "."@
                + crate::os_capabilities::decimal(version.patch as int);
            text == "`"@ + objc_call + "` requires iOS "@ + required
                + "+. This device is running iOS "@ + running + ". "@ + extra_msg
        }),
{
    let text = crate::os_capabilities::requirement_text(
        objc_call,
        major,
        minor,
        version,
        extra_msg,
    );
    let required = crate::os_capabilities::decimal(major) + "."@ + crate::os_capabilities::decimal(
        minor,
    );
    let running = crate::os_capabilities::decimal(version.major as int) + "."@
        + crate::os_capabilities::decimal(version.minor as int) + "."@
        + crate::os_capabilities::decimal(version.patch as int);
    assert(text =~= "`"@ + objc_call + "` requires iOS "@ + required
        + "+. This device is running iOS "@ + running + ". "@ + extra_msg);
}

} // verus!
