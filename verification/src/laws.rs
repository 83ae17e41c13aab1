//! What holds of the event loop as a whole.

use vstd::prelude::*;

use crate::app_state::ControlFlow;
use crate::callback_state::CallbackModel;
use crate::dispatch::{DispatchModel, Phase, ProgressModel};
use crate::event::{Event, EventWrapper, StartCause, WindowEvent, WindowId};
use crate::event_loop::{StepModel, TaskModel, ThenModel};
use crate::model::{AppModel, StateModel};
use crate::notification::Notification;
use crate::os_capabilities::{OSCapabilities, OperatingSystemVersion};
use crate::time::Instant;
use crate::waker::TimerSetting;

verus! {

// ---------------------------------------------------------------------------
// Nested calls during one callback
// ---------------------------------------------------------------------------

/// Events of nested calls keep their order across calls: two batches are kept
/// as their concatenation would be.
pub proof fn nested_events_keep_their_order<E>(
    callback: CallbackModel<E>,
    first: Seq<E>,
    second: Seq<E>,
)
    ensures
        callback.queued(first).queued(second) == callback.queued(first + second),
{
    if let CallbackModel::Running(queue) = callback {
        assert(queue + first + second =~= queue + (first + second));
    }
}

/// Events of nested calls end up behind the pending ones, in the order in
/// which they came, and each of them once: nothing is left for the next time.
pub proof fn nested_events_go_behind_the_pending_ones<E>(
    callback: CallbackModel<E>,
    pending: Seq<E>,
    first: Seq<E>,
    second: Seq<E>,
)
    requires
        callback == CallbackModel::<E>::Running(Seq::empty()),
    ensures
        callback.queued(first).queued(second).pending_after_action(pending) == pending + first
            + second,
        callback.queued(first).queued(second).action_taken() == callback,
{
    assert(pending + (Seq::<E>::empty() + first + second) =~= pending + first + second);
}

/// Termination replaces whatever was kept before, and what comes after it is
/// dropped.
pub proof fn termination_replaces_kept_events<E>(
    callback: CallbackModel<E>,
    before: Seq<E>,
    due: Seq<E>,
    after: Seq<E>,
)
    requires
        !callback.terminating(),
    ensures
        callback.queued(before).termination_requested(due).queued(after)
            == CallbackModel::Terminating(due),
{
}

/// Of several termination requests the first one counts, also after the loop
/// has taken its action.
pub proof fn the_first_termination_request_counts<E>(
    callback: CallbackModel<E>,
    first: Seq<E>,
    second: Seq<E>,
)
    ensures
        callback.termination_requested(first).terminating(),
        callback.termination_requested(first).termination_requested(second)
            == callback.termination_requested(first),
        callback.termination_requested(first).action_taken().termination_requested(second)
            == CallbackModel::<E>::Terminating(Seq::empty()),
{
}

// ---------------------------------------------------------------------------
// Whatever comes in
// ---------------------------------------------------------------------------

/// A loop that ends has nothing to redraw and does not wake up, whatever comes
/// in; and a task that begins finds the state as it expects.
pub proof fn notifications_keep_the_loop_valid<H, P>(
    app: AppModel<H, P>,
    notification: Notification<H, P>,
)
    requires
        app.valid(),
        notification.allowed(app),
    ensures
        notification.effect(app).1.valid(),
        crate::event_loop::begins_in(notification.effect(app).0, notification.effect(app).1),
{
}

/// Termination is final: once it was requested, nothing that comes in changes
/// the lifecycle state, begins a task, or wakes the loop.
pub proof fn termination_is_final<H, P>(app: AppModel<H, P>, notification: Notification<H, P>)
    requires
        app.valid(),
        app.terminating(),
        notification.allowed(app),
    ensures
        ({
            let (task, after) = notification.effect(app);
            &&& task is None
            &&& after.state == app.state
            &&& after.terminating()
            &&& after.queued_gpu_redraws == Set::<u64>::empty()
            &&& after.waker.setting == TimerSetting::Never
        }),
{
}

/// Asking again for termination, from a callback or later, changes nothing and
/// makes no call.
pub proof fn terminating_again_changes_nothing<H, P>(
    app: AppModel<H, P>,
    listed: Seq<Option<WindowId>>,
)
    requires
        app.terminating(),
    ensures
        app.application_terminated(listed) == (None::<TaskModel<H, P>>, app),
{
}

/// Callbacks do not nest: while one runs, nothing that comes in begins a task
/// or ends the callback, so the handler is not called again before it returns.
pub proof fn callbacks_do_not_nest<H, P>(app: AppModel<H, P>, notification: Notification<H, P>)
    requires
        app.in_callback(),
        notification.allowed(app),
    ensures
        notification.effect(app).0 is None,
        notification.effect(app).1.in_callback(),
{
}

/// Whatever comes in between two steps of a task, the task can go on.
pub proof fn tasks_survive_notifications<H, P>(
    task: TaskModel<H, P>,
    app: AppModel<H, P>,
    notification: Notification<H, P>,
)
    requires
        task.ready(app),
        notification.allowed(app),
    ensures
        task.ready(notification.effect(app).1),
{
}

/// A loop that has launched does not return to the time before.
pub proof fn launch_is_final<H, P>(app: AppModel<H, P>, notification: Notification<H, P>)
    requires
        app.launched(),
        notification.allowed(app),
    ensures
        notification.effect(app).1.launched(),
{
}

/// A handler is neither lost nor doubled: what a notification begins has the
/// handler that the state held, and then the state holds none; where it begins
/// nothing, the state keeps the handler it held, unless it is handed its first.
pub proof fn the_handler_is_in_one_place<H, P>(
    app: AppModel<H, P>,
    notification: Notification<H, P>,
)
    requires
        notification.allowed(app),
    ensures
        ({
            let (task, after) = notification.effect(app);
            match task {
                Some(TaskModel::Dispatching { dispatch, .. }) => {
                    &&& app.state.held_handler() == Some(dispatch.handler)
                    &&& after.state.held_handler() is None
                },
                _ => match notification {
                    Notification::WillLaunch(handler) => {
                        &&& app.state.held_handler() is None
                        &&& after.state.held_handler() == Some(handler)
                    },
                    _ => after.state.held_handler() == app.state.held_handler(),
                },
            }
        }),
{
}

/// Events that come in before the launch, or during a callback, keep their
/// order across calls.
pub proof fn kept_events_keep_their_order<H, P>(
    app: AppModel<H, P>,
    first: Seq<EventWrapper<P>>,
    second: Seq<EventWrapper<P>>,
)
    requires
        !app.ready_for_callback(),
        !app.terminating(),
    ensures
        app.handling(first).1.handling(second).1 == app.handling(first + second).1,
{
    match app.state {
        StateModel::NotLaunched { queued_events, .. } => {
            assert(queued_events + first + second =~= queued_events + (first + second));
        },
        StateModel::Launching { queued_events, .. } => {
            assert(queued_events + first + second =~= queued_events + (first + second));
        },
        StateModel::InUserCallback { callback } => {
            nested_events_keep_their_order(callback, first, second);
        },
        _ => {},
    }
}

/// Redraw requests are merged: asking twice is asking once, and the order in
/// which windows ask makes no difference.
pub proof fn redraw_requests_are_merged<H, P>(app: AppModel<H, P>, one: WindowId, other: WindowId)
    ensures
        app.redraw_queued(one).redraw_queued(one) == app.redraw_queued(one),
        app.redraw_queued(one).redraw_queued(other) == app.redraw_queued(other).redraw_queued(one),
{
    let windows = app.queued_gpu_redraws;
    assert(windows.insert(one.raw).insert(one.raw) =~= windows.insert(one.raw));
    assert(windows.insert(one.raw).insert(other.raw) =~= windows.insert(other.raw).insert(one.raw));
    assert(windows.insert(one.raw).contains(one.raw));
    assert(windows.insert(other.raw).contains(other.raw));
    assert(windows.insert(one.raw).insert(other.raw).contains(one.raw));
}

// ---------------------------------------------------------------------------
// The steps of tasks
// ---------------------------------------------------------------------------

/// What the laws on single steps come down to, of a step that leads from `app`
/// to `after`.
spec fn sound<H, P>(step: StepModel<H, P>, app: AppModel<H, P>, after: AppModel<H, P>) -> bool {
    &&& app.valid() ==> after.valid()
    &&& step.goes_on_in(after)
    &&& app.launched() ==> after.launched()
    &&& app.terminating() ==> {
        &&& after.terminating()
        &&& step is Deliver || step is Done
        &&& step matches StepModel::Deliver { task: TaskModel::Dispatching { dispatch, .. }, .. }
            ==> dispatch.exiting()
    }
}

proof fn then_is_sound<H, P>(then: ThenModel, app: AppModel<H, P>, order: Seq<WindowId>)
    requires
        then is AboutToWait ==> app.accepts_events(),
        then is Redraw ==> app.terminating() || app.state is ProcessingEvents,
    ensures
        ({
            let (step, after) = crate::event_loop::then_step(then, app, order);
            sound(step, app, after)
        }),
    decreases then.dispatches(), 0nat,
{
    match then {
        ThenModel::Redraw => if !app.terminating() {
            arrival_is_sound(
                crate::event::each_window(order, WindowEvent::RedrawRequested),
                ThenModel::AboutToWait,
                app.main_events_cleared(),
                order,
            );
        },
        ThenModel::AboutToWait => {
            arrival_is_sound(
                seq![EventWrapper::StaticEvent(Event::AboutToWait)],
                ThenModel::Nothing,
                app,
                order,
            );
        },
        _ => {},
    }
}

proof fn arrival_is_sound<H, P>(
    events: Seq<EventWrapper<P>>,
    then: ThenModel,
    app: AppModel<H, P>,
    order: Seq<WindowId>,
)
    requires
        app.accepts_events(),
        !(then is Redraw),
    ensures
        ({
            let (step, after) = crate::event_loop::arrival_step(events, then, app, order);
            sound(step, app, after)
        }),
    decreases then.dispatches(), 2nat,
{
    let (dispatch, arrived) = app.events_arrived(events);
    match dispatch {
        Some(dispatch) => dispatch_is_sound(dispatch, then, arrived, order),
        None => then_is_sound(then, arrived, order),
    }
}

proof fn dispatch_is_sound<H, P>(
    dispatch: DispatchModel<H, P>,
    then: ThenModel,
    app: AppModel<H, P>,
    order: Seq<WindowId>,
)
    requires
        dispatch.wf(),
        dispatch.ready(app),
        then is Redraw ==> !dispatch.processing_redraws,
    ensures
        ({
            let (step, after) = crate::event_loop::dispatch_step(dispatch, then, app, order);
            sound(step, app, after)
        }),
    decreases then.dispatches(), 1nat,
{
    let (progress, advanced) = dispatch.advanced(app);
    if progress is Finished {
        then_is_sound(then, advanced, order);
    }
}

proof fn step_is_sound<H, P>(task: TaskModel<H, P>, app: AppModel<H, P>, order: Seq<WindowId>)
    requires
        task.wf(),
        task.ready(app),
    ensures
        ({
            let (step, after) = task.advanced(app, order);
            sound(step, app, after)
        }),
{
    match task {
        TaskModel::Dispatching { dispatch, then } => dispatch_is_sound(dispatch, then, app, order),
        TaskModel::SettingUp { windows } => if !app.terminating() && windows.len() == 0 {
            arrival_is_sound(
                seq![EventWrapper::StaticEvent(Event::NewEvents(StartCause::Init))]
                    + app.state->Launching_queued_events,
                ThenModel::ShowWindows(app.state->Launching_queued_windows),
                app.processing_events(),
                order,
            );
        },
        TaskModel::Showing { .. } => {},
    }
}

/// Every step of a task keeps the loop valid, and leaves it as the task
/// expects it.
pub proof fn steps_keep_the_loop_valid<H, P>(
    task: TaskModel<H, P>,
    app: AppModel<H, P>,
    order: Seq<WindowId>,
)
    requires
        app.valid(),
        task.wf(),
        task.ready(app),
    ensures
        task.advanced(app, order).1.valid(),
        task.advanced(app, order).0.goes_on_in(task.advanced(app, order).1),
{
    step_is_sound(task, app, order);
}

/// Once termination was requested, the steps of a task only deliver the last
/// events: no window is set up, shown or resized any more, and the loop stays
/// on its way out.
pub proof fn only_the_last_events_once_terminating<H, P>(
    task: TaskModel<H, P>,
    app: AppModel<H, P>,
    order: Seq<WindowId>,
)
    requires
        task.wf(),
        task.ready(app),
        app.terminating(),
    ensures
        ({
            let (step, after) = task.advanced(app, order);
            &&& step is Deliver || step is Done
            &&& step is Deliver ==> task is Dispatching
            &&& step matches StepModel::Deliver {
                task: TaskModel::Dispatching { dispatch, .. },
                ..
            } ==> dispatch.exiting()
            &&& after.terminating()
        }),
{
    step_is_sound(task, app, order);
}

/// No step of a task returns the loop to the time before its launch.
pub proof fn steps_do_not_undo_the_launch<H, P>(
    task: TaskModel<H, P>,
    app: AppModel<H, P>,
    order: Seq<WindowId>,
)
    requires
        task.wf(),
        task.ready(app),
        app.launched(),
    ensures
        task.advanced(app, order).1.launched(),
{
    step_is_sound(task, app, order);
}

/// A dispatch keeps its handler from step to step, and gives it back at the
/// end to the stage that it was taken from, unless the loop has ended.
pub proof fn a_dispatch_gives_its_handler_back<H, P>(
    dispatch: DispatchModel<H, P>,
    app: AppModel<H, P>,
)
    requires
        dispatch.ready(app),
    ensures
        ({
            let (progress, after) = dispatch.advanced(app);
            match progress {
                ProgressModel::Deliver { dispatch: next, .. } => next.handler == dispatch.handler,
                ProgressModel::ResizeView { dispatch: next, .. } => next.handler
                    == dispatch.handler,
                ProgressModel::Finished => if app.terminating() {
                    after.terminated()
                } else {
                    after.state == StateModel::<H, P>::processing(
                        dispatch.handler,
                        dispatch.processing_redraws,
                    )
                },
            }
        }),
{
}

/// What nested calls add during a callback is delivered after everything that
/// was pending before: the next delivery takes the oldest pending event, and
/// the added ones line up at the end. So it is in a batch of user events too,
/// until the batch is over.
pub proof fn deliveries_take_the_oldest_first<H, P>(
    dispatch: DispatchModel<H, P>,
    app: AppModel<H, P>,
)
    requires
        !dispatch.exiting(),
        dispatch.phase != (Phase::UserBatch { remaining: 0 }),
        dispatch.scale_change is None,
        dispatch.ready(app),
        !app.terminating(),
        dispatch.pending.len() > 0,
    ensures
        dispatch.advanced(app).0 matches ProgressModel::Deliver { dispatch: next, event, .. } && {
            &&& event == dispatch.pending[0].delivered()
            &&& next.pending == dispatch.pending.drop_first()
                + app.state->InUserCallback_callback->Running_0
        },
{
    let queue = app.state->InUserCallback_callback->Running_0;
    assert((dispatch.pending + queue).drop_first() =~= dispatch.pending.drop_first() + queue);
}

// ---------------------------------------------------------------------------
// Waiting and waking
// ---------------------------------------------------------------------------

/// A loop that has begun to wait can be woken, as long as its control flow is
/// not changed in between; and it then knows since when it waited, and whether
/// the time that it waited for has come.
pub proof fn a_waiting_loop_can_be_woken<H, P>(
    app: AppModel<H, P>,
    start: Instant,
    now: Instant,
)
    requires
        app.state is ProcessingRedraws,
    ensures
        ({
            let waiting = app.events_cleared(start);
            &&& waiting.expects_wakeup()
            &&& waiting.state.held_handler() == app.state.held_handler()
            &&& waiting.wakeup_cause(now) == Some(
                match app.control_flow {
                    ControlFlow::Poll => StartCause::Poll,
                    ControlFlow::Wait => StartCause::WaitCancelled {
                        start,
                        requested_resume: None,
                    },
                    ControlFlow::WaitUntil(requested_resume) => if requested_resume.reached_at(
                        now,
                    ) {
                        StartCause::ResumeTimeReached { start, requested_resume }
                    } else {
                        StartCause::WaitCancelled {
                            start,
                            requested_resume: Some(requested_resume),
                        }
                    },
                },
            )
        }),
{
}

/// A loop expects to be woken exactly where it has a cause for waking up, at
/// whatever time.
pub proof fn wakeups_have_causes<H, P>(app: AppModel<H, P>, now: Instant)
    ensures
        app.expects_wakeup() <==> app.wakeup_cause(now) is Some,
{
}

/// From waking up to the first delivery: the application's handler gets the
/// cause, and nothing else is pending.
pub proof fn a_wakeup_is_delivered_first<H, P>(app: AppModel<H, P>, now: Instant)
    requires
        app.expects_wakeup(),
    ensures
        app.woken(now) == (
            Some(
                TaskModel::Dispatching {
                    dispatch: DispatchModel {
                        handler: app.state.held_handler()->0,
                        processing_redraws: false,
                        pending: seq![
                            EventWrapper::StaticEvent(Event::<P>::NewEvents(app.wakeup_cause(now)->0)),
                        ],
                        phase: Phase::Events,
                        scale_change: None,
                    },
                    then: ThenModel::Nothing,
                },
            ),
            app.callback_started(),
        ),
{
}

/// When a loop begins to wait, its timer is set for what it waits for: never
/// in the background, at once while redraws are due, else as its control flow
/// says.
pub proof fn the_timer_fits_the_wait<H, P>(app: AppModel<H, P>, start: Instant)
    requires
        app.state is ProcessingRedraws,
    ensures
        app.events_cleared(start).waker.unprogrammed,
        app.events_cleared(start).waker.setting == (if !app.application_active {
            TimerSetting::Never
        } else if app.queued_gpu_redraws != Set::<u64>::empty() {
            TimerSetting::Immediately
        } else {
            match app.control_flow {
                ControlFlow::Wait => TimerSetting::Never,
                ControlFlow::Poll => TimerSetting::Immediately,
                ControlFlow::WaitUntil(instant) => TimerSetting::At(instant),
            }
        }),
{
}

// ---------------------------------------------------------------------------
// Capabilities
// ---------------------------------------------------------------------------

/// A later OS has every feature that an earlier one has.
pub proof fn later_systems_have_all_features(
    earlier: OperatingSystemVersion,
    later: OperatingSystemVersion,
    before: OSCapabilities,
    after: OSCapabilities,
)
    requires
        later.at_least(earlier.major as int, earlier.minor as int),
        before.describes(earlier),
        after.describes(later),
    ensures
        before.safe_area ==> after.safe_area,
        before.home_indicator_hidden ==> after.home_indicator_hidden,
        before.defer_system_gestures ==> after.defer_system_gestures,
        before.maximum_frames_per_second ==> after.maximum_frames_per_second,
        before.force_touch ==> after.force_touch,
{
}

} // verus!
