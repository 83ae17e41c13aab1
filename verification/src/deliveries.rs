//! What the driver of the loop is asked to do, step by step.

use vstd::prelude::*;

use crate::callback_state::CallbackModel;
use crate::dispatch::{DispatchModel, Phase, ProgressModel};
use crate::event::{
    Event, EventWrapper, HandlePendingUserEvents, Notice, ScaleFactorChanged, StartCause,
    WindowEvent, WindowId,
};
use crate::event_loop::{StepModel, TaskModel, ThenModel};
use crate::model::{AppModel, StateModel};
use crate::time::Instant;
use crate::waker::TimerSetting;

verus! {

/// Whether the two differ in their lifecycle state at most.
pub open spec fn same_but_for_the_state<H, P>(one: AppModel<H, P>, other: AppModel<H, P>) -> bool {
    &&& one.application_active == other.application_active
    &&& one.control_flow == other.control_flow
    &&& one.queued_gpu_redraws == other.queued_gpu_redraws
    &&& one.waker == other.waker
}

/// Whether a callback runs and nothing has come in during it.
pub open spec fn callback_runs<H, P>(app: AppModel<H, P>) -> bool {
    &&& app.state is InUserCallback
    &&& app.state->InUserCallback_callback is Running
    &&& app.state->InUserCallback_callback->Running_0.len() == 0
}

/// Whether the handler is called next with the first of `events`, and the
/// others stay pending, in their order.
pub open spec fn first_is_delivered<H, P>(
    events: Seq<EventWrapper<P>>,
    dispatch: DispatchModel<H, P>,
    progress: ProgressModel<H, P>,
) -> bool {
    &&& progress is Deliver
    &&& progress->event == events[0].delivered()
    &&& progress->notice == events[0].notice(dispatch.processing_redraws)
    &&& progress->Deliver_dispatch.pending == events.subrange(1, events.len() as int)
    &&& progress->Deliver_dispatch.scale_change == events[0].scale_change()
    &&& progress->Deliver_dispatch.handler == dispatch.handler
    &&& progress->Deliver_dispatch.processing_redraws == dispatch.processing_redraws
}

/// Whether the handler is back where it was taken from.
pub open spec fn handler_is_back<H, P>(
    dispatch: DispatchModel<H, P>,
    after: AppModel<H, P>,
) -> bool {
    after.state == if dispatch.processing_redraws {
        StateModel::<H, P>::ProcessingRedraws { handler: dispatch.handler }
    } else {
        StateModel::<H, P>::ProcessingEvents { handler: dispatch.handler }
    }
}

// ---------------------------------------------------------------------------
// The steps of a dispatch
// ---------------------------------------------------------------------------

/// A change of scale is settled right after its event was delivered, before
/// anything else happens, unless the loop ends.
pub proof fn scale_is_settled_first<H, P>(
    dispatch: DispatchModel<H, P>,
    app: AppModel<H, P>,
    change: ScaleFactorChanged,
)
    requires
        dispatch.scale_change == Some(change),
        !app.terminating(),
    ensures
        ({
            let (progress, after) = dispatch.advanced(app);
            let next = progress->ResizeView_dispatch;
            &&& after == app
            &&& progress is ResizeView
            &&& progress->change == change
            &&& next.scale_change == None::<ScaleFactorChanged>
            &&& next.handler == dispatch.handler
            &&& next.processing_redraws == dispatch.processing_redraws
            &&& next.pending == dispatch.pending
            &&& next.phase == dispatch.phase
        }),
{
}

/// Pending events are delivered before those that came in meanwhile; when none
/// is left, the handler goes back where it came from.
pub proof fn plain_events_are_delivered<H, P>(
    dispatch: DispatchModel<H, P>,
    app: AppModel<H, P>,
    kept: Seq<EventWrapper<P>>,
)
    requires
        dispatch.phase is Events,
        dispatch.scale_change == None::<ScaleFactorChanged>,
        app.state == (StateModel::<H, P>::InUserCallback {
            callback: CallbackModel::Running(kept),
        }),
    ensures
        ({
            let (progress, after) = dispatch.advanced(app);
            let events = dispatch.pending + kept;
            &&& same_but_for_the_state(app, after)
            &&& events.len() == 0 ==> progress is Finished && handler_is_back(dispatch, after)
            &&& events.len() > 0 ==> {
                &&& first_is_delivered(events, dispatch, progress)
                &&& progress->Deliver_dispatch.phase is Events
                &&& callback_runs(after)
            }
        }),
{
    let events = dispatch.pending + kept;
    if events.len() > 0 {
        assert(events.drop_first() =~= events.subrange(1, events.len() as int));
    }
}

/// When a batch of user events is over, the handler is told of its user
/// events; what came in meanwhile stays pending behind the rest.
pub proof fn the_handler_is_told_after_each_batch<H, P>(
    dispatch: DispatchModel<H, P>,
    app: AppModel<H, P>,
    kept: Seq<EventWrapper<P>>,
)
    requires
        dispatch.phase == (Phase::UserBatch { remaining: 0 }),
        dispatch.scale_change == None::<ScaleFactorChanged>,
        app.state == (StateModel::<H, P>::InUserCallback {
            callback: CallbackModel::Running(kept),
        }),
    ensures
        ({
            let (progress, after) = dispatch.advanced(app);
            let next = progress->Deliver_dispatch;
            &&& same_but_for_the_state(app, after)
            &&& callback_runs(after)
            &&& progress is Deliver
            &&& progress->event == Event::<P>::UserEvent(HandlePendingUserEvents)
            &&& progress->notice == Notice::Usual
            &&& next.phase == Phase::UserPolled
            &&& next.pending == dispatch.pending + kept
            &&& next.scale_change == None::<ScaleFactorChanged>
            &&& next.handler == dispatch.handler
            &&& next.processing_redraws == dispatch.processing_redraws
        }),
{
}

/// While a batch is not over, the oldest event is delivered, and the batch has
/// one event less to go.
pub proof fn batches_are_delivered_one_by_one<H, P>(
    dispatch: DispatchModel<H, P>,
    app: AppModel<H, P>,
    kept: Seq<EventWrapper<P>>,
    remaining: usize,
)
    requires
        dispatch.phase == (Phase::UserBatch { remaining }),
        0 < remaining <= dispatch.pending.len() + kept.len(),
        dispatch.scale_change == None::<ScaleFactorChanged>,
        app.state == (StateModel::<H, P>::InUserCallback {
            callback: CallbackModel::Running(kept),
        }),
    ensures
        ({
            let (progress, after) = dispatch.advanced(app);
            let next = progress->Deliver_dispatch;
            &&& same_but_for_the_state(app, after)
            &&& callback_runs(after)
            &&& first_is_delivered(dispatch.pending + kept, dispatch, progress)
            &&& next.phase is UserBatch
            &&& next.phase->remaining == remaining - 1
        }),
{
    let events = dispatch.pending + kept;
    assert(events.drop_first() =~= events.subrange(1, events.len() as int));
}

/// Once the handler was told of its user events, all that is pending or came
/// in is the next batch; if there is nothing, the handler goes back.
pub proof fn batches_are_all_that_came_in<H, P>(
    dispatch: DispatchModel<H, P>,
    app: AppModel<H, P>,
    kept: Seq<EventWrapper<P>>,
)
    requires
        dispatch.phase is UserPolled,
        dispatch.scale_change == None::<ScaleFactorChanged>,
        dispatch.pending.len() + kept.len() <= usize::MAX,
        app.state == (StateModel::<H, P>::InUserCallback {
            callback: CallbackModel::Running(kept),
        }),
    ensures
        ({
            let (progress, after) = dispatch.advanced(app);
            let next = progress->Deliver_dispatch;
            let events = dispatch.pending + kept;
            &&& same_but_for_the_state(app, after)
            &&& events.len() == 0 ==> progress is Finished && handler_is_back(dispatch, after)
            &&& events.len() > 0 ==> {
                &&& callback_runs(after)
                &&& first_is_delivered(events, dispatch, progress)
                &&& next.phase is UserBatch
                &&& next.phase->remaining == events.len() - 1
            }
        }),
{
    let events = dispatch.pending + kept;
    if events.len() > 0 {
        assert(events.drop_first() =~= events.subrange(1, events.len() as int));
    }
}

/// Whether the last events are delivered: the first of `due`, or when none is
/// left that the loop exits.
pub open spec fn last_is_delivered<H, P>(
    due: Seq<EventWrapper<P>>,
    handler: H,
    progress: ProgressModel<H, P>,
) -> bool {
    let next = progress->Deliver_dispatch;
    &&& progress is Deliver
    &&& next.handler == handler
    &&& due.len() == 0 ==> {
        &&& progress->event == Event::<P>::LoopExiting
        &&& progress->notice == Notice::Usual
        &&& next.phase is Exited
        &&& next.pending.len() == 0
        &&& next.scale_change == None::<ScaleFactorChanged>
    }
    &&& due.len() > 0 ==> {
        &&& progress->event == due[0].delivered()
        &&& next.pending == due.subrange(1, due.len() as int)
        &&& next.scale_change == due[0].scale_change()
        &&& next.phase is Exiting
    }
}

/// When termination was requested during the callback, the loop has ended when
/// it returns: no redraw requests are left, it is not woken any more, and of
/// all events exactly those of the request are due, outside of the redraws.
pub proof fn requested_terminations_are_carried_out<H, P>(
    dispatch: DispatchModel<H, P>,
    app: AppModel<H, P>,
    due: Seq<EventWrapper<P>>,
)
    requires
        dispatch.phase is Events || dispatch.phase is UserBatch || dispatch.phase is UserPolled,
        app.state == (StateModel::<H, P>::InUserCallback {
            callback: CallbackModel::Terminating(due),
        }),
    ensures
        ({
            let (progress, after) = dispatch.advanced(app);
            let next = progress->Deliver_dispatch;
            &&& after.state == StateModel::<H, P>::Terminated
            &&& forall|raw: u64| !(#[trigger] after.queued_gpu_redraws.contains(raw))
            &&& after.waker.setting == TimerSetting::Never
            &&& after.waker.unprogrammed
            &&& after.application_active == app.application_active
            &&& after.control_flow == app.control_flow
            &&& last_is_delivered(due, dispatch.handler, progress)
            &&& due.len() > 0 ==> progress->notice == due[0].notice(false)
            &&& !next.processing_redraws
        }),
{
    if due.len() > 0 {
        assert(due.drop_first() =~= due.subrange(1, due.len() as int));
    }
}

/// Once the loop has ended, the pending events are delivered one by one, then
/// that the loop exits, and then nothing; the state stays as it is.
pub proof fn last_events_are_delivered<H, P>(dispatch: DispatchModel<H, P>, app: AppModel<H, P>)
    requires
        dispatch.phase is Exiting || dispatch.phase is Exited,
        app.state == StateModel::<H, P>::Terminated,
    ensures
        ({
            let (progress, after) = dispatch.advanced(app);
            &&& after == app
            &&& dispatch.phase is Exited ==> progress is Finished
            &&& dispatch.phase is Exiting ==> {
                &&& last_is_delivered(dispatch.pending, dispatch.handler, progress)
                &&& dispatch.pending.len() > 0 ==> progress->notice == dispatch.pending[0].notice(
                    dispatch.processing_redraws,
                )
                &&& progress->Deliver_dispatch.processing_redraws == dispatch.processing_redraws
            }
        }),
{
    let due = dispatch.pending;
    if due.len() > 0 {
        assert(due.drop_first() =~= due.subrange(1, due.len() as int));
    }
}

// ---------------------------------------------------------------------------
// The steps of a task
// ---------------------------------------------------------------------------

/// A task does what its dispatch asks for, and what is to follow stays so.
pub proof fn tasks_do_what_their_dispatch_asks_for<H, P>(
    dispatch: DispatchModel<H, P>,
    then: ThenModel,
    app: AppModel<H, P>,
    order: Seq<WindowId>,
)
    ensures
        ({
            let (progress, advanced) = dispatch.advanced(app);
            let (step, after) = (TaskModel::Dispatching { dispatch, then }).advanced(app, order);
            &&& progress is Deliver ==> {
                &&& after == advanced
                &&& step == (StepModel::<H, P>::Deliver {
                    task: TaskModel::Dispatching { dispatch: progress->Deliver_dispatch, then },
                    event: progress->event,
                    notice: progress->notice,
                })
            }
            &&& progress is ResizeView ==> {
                &&& after == advanced
                &&& step == (StepModel::<H, P>::ResizeView {
                    task: TaskModel::Dispatching { dispatch: progress->ResizeView_dispatch, then },
                    change: progress->change,
                })
            }
            &&& progress is Finished && then is Nothing ==> after == advanced && step
                == StepModel::<H, P>::Done
        }),
{
}

/// A task can go on where the loop is as it left it: in the callback that the
/// task made, or ended where only the last events are left; a task that sets
/// windows up while the loop launches, or has ended; and one that shows windows
/// at any time.
pub proof fn tasks_go_on_where_they_were_left<H, P>(
    dispatch: DispatchModel<H, P>,
    then: ThenModel,
    windows: Seq<WindowId>,
    app: AppModel<H, P>,
)
    ensures
        dispatch.phase is Exiting || dispatch.phase is Exited ==> (dispatch.ready(app) <==>
            app.state is Terminated),
        !(dispatch.phase is Exiting || dispatch.phase is Exited) ==> (dispatch.ready(app) <==>
            app.state is InUserCallback),
        (TaskModel::Dispatching { dispatch, then }).ready(app) <==> dispatch.ready(app),
        (TaskModel::<H, P>::SettingUp { windows }).ready(app) <==> app.terminating()
            || app.state is Launching,
        (TaskModel::<H, P>::Showing { windows }).ready(app),
{
}

/// What a step or a notification leaves to be done can be done.
pub proof fn what_is_left_can_go_on<H, P>(
    step: StepModel<H, P>,
    task: TaskModel<H, P>,
    app: AppModel<H, P>,
)
    ensures
        step.task() == match step {
            StepModel::Deliver { task, .. } => Some(task),
            StepModel::ResizeView { task, .. } => Some(task),
            StepModel::SetUpWindow { task, .. } => Some(task),
            StepModel::ShowWindow { task, .. } => Some(task),
            StepModel::Done => None,
        },
        step.goes_on_in(app) && step.task() == Some(task) ==> task.wf() && task.ready(app),
        crate::event_loop::begins_in(Some(task), app) ==> task.wf() && task.ready(app),
{
}

/// Events that arrive between two callbacks with something to follow them are
/// dispatched at once, and what is to follow follows.
pub proof fn arrivals_are_dispatched_at_once<H, P>(
    events: Seq<EventWrapper<P>>,
    then: ThenModel,
    app: AppModel<H, P>,
    order: Seq<WindowId>,
    handler: H,
)
    requires
        app.state == (StateModel::<H, P>::ProcessingEvents { handler }) || app.state == (
        StateModel::<H, P>::ProcessingRedraws { handler }),
    ensures
        crate::event_loop::arrival_step(events, then, app, order) == (TaskModel::Dispatching {
            dispatch: DispatchModel {
                handler,
                processing_redraws: app.state is ProcessingRedraws,
                pending: events,
                phase: Phase::Events,
                scale_change: None,
            },
            then,
        }).advanced(app.callback_started(), order),
{
}

/// Windows are shown one by one, unless the loop ends.
pub proof fn windows_are_shown_one_by_one<H, P>(
    windows: Seq<WindowId>,
    app: AppModel<H, P>,
    order: Seq<WindowId>,
)
    ensures
        ({
            let (step, after) = (TaskModel::Showing { windows }).advanced(app, order);
            &&& after == app
            &&& app.terminating() || windows.len() == 0 ==> step == StepModel::<H, P>::Done
            &&& !app.terminating() && windows.len() > 0 ==> step == (StepModel::<H, P>::ShowWindow {
                task: TaskModel::Showing { windows: windows.subrange(1, windows.len() as int) },
                window: windows[0],
            })
        }),
{
    if windows.len() > 0 {
        assert(windows.drop_first() =~= windows.subrange(1, windows.len() as int));
    }
}

/// Once a dispatch that windows are to be shown after has finished, these are
/// shown.
pub proof fn windows_are_shown_after_a_dispatch<H, P>(
    dispatch: DispatchModel<H, P>,
    windows: Seq<WindowId>,
    app: AppModel<H, P>,
    order: Seq<WindowId>,
)
    requires
        dispatch.advanced(app).0 is Finished,
    ensures
        (TaskModel::Dispatching { dispatch, then: ThenModel::ShowWindows(windows) }).advanced(
            app,
            order,
        ) == (TaskModel::Showing { windows }).advanced(dispatch.advanced(app).1, order),
{
}

/// Windows are set up one by one, in their order, unless the loop ends.
pub proof fn windows_are_set_up_one_by_one<H, P>(
    windows: Seq<WindowId>,
    app: AppModel<H, P>,
    order: Seq<WindowId>,
)
    ensures
        ({
            let (step, after) = (TaskModel::SettingUp { windows }).advanced(app, order);
            &&& app.terminating() ==> step == StepModel::<H, P>::Done && after == app
            &&& !app.terminating() && windows.len() > 0 ==> {
                &&& after == app
                &&& step == (StepModel::<H, P>::SetUpWindow {
                    task: TaskModel::SettingUp {
                        windows: windows.subrange(1, windows.len() as int),
                    },
                    window: windows[0],
                })
            }
        }),
{
    if windows.len() > 0 {
        assert(windows.drop_first() =~= windows.subrange(1, windows.len() as int));
    }
}

/// When all windows are set up, the application is told that the loop starts;
/// the events that were kept stay pending, and the windows that were kept
/// meanwhile are to be shown afterwards.
pub proof fn the_loop_starts_after_the_set_up<H, P>(
    app: AppModel<H, P>,
    order: Seq<WindowId>,
    queued_windows: Seq<WindowId>,
    queued_events: Seq<EventWrapper<P>>,
    handler: H,
)
    requires
        app.state == (StateModel::<H, P>::Launching {
            queued_windows,
            queued_events,
            queued_handler: handler,
        }),
    ensures
        ({
            let (step, after) = (TaskModel::SettingUp { windows: Seq::empty() }).advanced(
                app,
                order,
            );
            let task = step->Deliver_task;
            &&& same_but_for_the_state(app, after)
            &&& callback_runs(after)
            &&& step is Deliver
            &&& step->event == Event::<P>::NewEvents(StartCause::Init)
            &&& step->notice == Notice::Usual
            &&& task == (TaskModel::<H, P>::Dispatching {
                dispatch: DispatchModel {
                    handler,
                    processing_redraws: false,
                    pending: queued_events,
                    phase: Phase::Events,
                    scale_change: None,
                },
                then: ThenModel::ShowWindows(queued_windows),
            })
        }),
{
    let init = EventWrapper::<P>::StaticEvent(Event::NewEvents(StartCause::Init));
    let events = seq![init] + queued_events;
    let none = Seq::<EventWrapper<P>>::empty();
    assert((events + none).drop_first() =~= queued_events);
    assert((events + none)[0] == init);
}

/// After the user events the redraws begin: the first window of the order is
/// asked to redraw, the others follow, and then the application is to be told
/// that the loop is about to wait. Where no window asked for it, the
/// application is told at once. All requests are taken.
pub proof fn redraws_follow_the_user_events<H, P>(
    dispatch: DispatchModel<H, P>,
    app: AppModel<H, P>,
    order: Seq<WindowId>,
    handler: H,
)
    requires
        dispatch.advanced(app).0 is Finished,
        dispatch.advanced(app).1.state == (StateModel::<H, P>::ProcessingEvents { handler }),
    ensures
        ({
            let before = dispatch.advanced(app).1;
            let (step, after) = (TaskModel::Dispatching {
                dispatch,
                then: ThenModel::Redraw,
            }).advanced(app, order);
            let task = step->Deliver_task;
            let next = task->dispatch;
            &&& forall|raw: u64| !(#[trigger] after.queued_gpu_redraws.contains(raw))
            &&& after.application_active == before.application_active
            &&& after.control_flow == before.control_flow
            &&& after.waker == before.waker
            &&& callback_runs(after)
            &&& step is Deliver
            &&& step->notice == Notice::Usual
            &&& task is Dispatching
            &&& next.handler == handler
            &&& next.processing_redraws
            &&& next.phase is Events
            &&& next.scale_change == None::<ScaleFactorChanged>
            &&& order.len() == 0 ==> {
                &&& step->event == Event::<P>::AboutToWait
                &&& next.pending.len() == 0
                &&& task->then is Nothing
            }
            &&& order.len() > 0 ==> {
                &&& step->event == (Event::<P>::WindowEvent {
                    window_id: order[0],
                    event: WindowEvent::RedrawRequested,
                })
                &&& next.pending.len() == order.len() - 1
                &&& forall|i: int|
                    0 <= i < next.pending.len() ==> #[trigger] next.pending[i]
                        == EventWrapper::StaticEvent(
                        Event::<P>::WindowEvent {
                            window_id: order[i + 1],
                            event: WindowEvent::RedrawRequested,
                        },
                    )
                &&& task->then is AboutToWait
            }
        }),
{
    reveal_with_fuel(crate::event_loop::then_step, 3);
    reveal_with_fuel(crate::event_loop::arrival_step, 3);
    reveal_with_fuel(crate::event_loop::dispatch_step, 3);
    let none = Seq::<EventWrapper<P>>::empty();
    let requests = crate::event::each_window(order, WindowEvent::<P>::RedrawRequested);
    assert(requests + none =~= requests);
    let wrapper = seq![EventWrapper::<P>::StaticEvent(Event::AboutToWait)];
    assert(wrapper + none =~= wrapper);
    assert(wrapper.drop_first() =~= none);
    let cleared = dispatch.advanced(app).1.main_events_cleared();
    let (redraws, started) = cleared.events_arrived(requests);
    let (progress, advanced) = redraws->0.advanced(started);
    let (step, after) = (TaskModel::Dispatching { dispatch, then: ThenModel::Redraw }).advanced(
        app,
        order,
    );
    assert((step, after) == crate::event_loop::arrival_step(
        requests,
        ThenModel::AboutToWait,
        cleared,
        order,
    ));
    assert((step, after) == crate::event_loop::dispatch_step(
        redraws->0,
        ThenModel::AboutToWait,
        started,
        order,
    ));
    if order.len() > 0 {
        let rest = requests.drop_first();
        assert(progress == ProgressModel::Deliver {
            dispatch: DispatchModel { pending: rest, ..redraws->0 },
            event: requests[0].delivered(),
            notice: Notice::Usual,
        });
        assert forall|i: int| 0 <= i < rest.len() implies #[trigger] rest[i]
            == EventWrapper::StaticEvent(
            Event::<P>::WindowEvent {
                window_id: order[i + 1],
                event: WindowEvent::RedrawRequested,
            },
        ) by {
            assert(rest[i] == requests[i + 1]);
        }
    } else {
        assert(progress is Finished);
        assert(advanced == cleared);
        let (last, told) = cleared.events_arrived(wrapper);
        assert(last->0.advanced(told).0 is Deliver);
        assert((step, after) == crate::event_loop::then_step(
            ThenModel::AboutToWait,
            cleared,
            order,
        ));
        assert((step, after) == crate::event_loop::dispatch_step(
            last->0,
            ThenModel::Nothing,
            told,
            order,
        ));
    }
}

/// After the redraws the application is told that the loop is about to wait,
/// and then nothing follows; unless the loop ends.
pub proof fn the_loop_is_about_to_wait<H, P>(
    dispatch: DispatchModel<H, P>,
    app: AppModel<H, P>,
    order: Seq<WindowId>,
    handler: H,
)
    requires
        dispatch.advanced(app).0 is Finished,
        dispatch.advanced(app).1.state == (StateModel::<H, P>::ProcessingRedraws { handler })
            || dispatch.advanced(app).1.state is Terminated,
    ensures
        ({
            let before = dispatch.advanced(app).1;
            let (step, after) = (TaskModel::Dispatching {
                dispatch,
                then: ThenModel::AboutToWait,
            }).advanced(app, order);
            let task = step->Deliver_task;
            &&& same_but_for_the_state(before, after)
            &&& before.state is Terminated ==> step == StepModel::<H, P>::Done && after == before
            &&& before.state is ProcessingRedraws ==> {
                &&& callback_runs(after)
                &&& step is Deliver
                &&& step->event == Event::<P>::AboutToWait
                &&& step->notice == Notice::Usual
                &&& task is Dispatching
                &&& task->then is Nothing
                &&& task->dispatch.handler == handler
                &&& task->dispatch.processing_redraws
                &&& task->dispatch.pending.len() == 0
                &&& task->dispatch.phase is Events
                &&& task->dispatch.scale_change == None::<ScaleFactorChanged>
            }
        }),
{
    reveal_with_fuel(crate::event_loop::then_step, 3);
    reveal_with_fuel(crate::event_loop::arrival_step, 3);
    reveal_with_fuel(crate::event_loop::dispatch_step, 3);
    let none = Seq::<EventWrapper<P>>::empty();
    let wrapper = seq![EventWrapper::<P>::StaticEvent(Event::AboutToWait)];
    assert(wrapper + none =~= wrapper);
    assert(wrapper.drop_first() =~= none);
}

/// No redraws follow in a loop that has ended.
pub proof fn ended_loops_do_not_redraw<H, P>(
    dispatch: DispatchModel<H, P>,
    app: AppModel<H, P>,
    order: Seq<WindowId>,
)
    requires
        dispatch.advanced(app).0 is Finished,
        dispatch.advanced(app).1.terminating(),
    ensures
        (TaskModel::Dispatching { dispatch, then: ThenModel::Redraw }).advanced(app, order) == (
            StepModel::<H, P>::Done,
            dispatch.advanced(app).1,
        ),
{
}

/// An order in which windows are redrawn has each window that asked for it
/// once, and no other.
pub proof fn orders_have_each_window_once(order: Seq<WindowId>, windows: Set<u64>, raw: u64)
    requires
        crate::event_loop::walks(order, windows),
    ensures
        windows.contains(raw) ==> exists|i: int|
            0 <= i < order.len() && (#[trigger] order[i]).raw == raw,
        forall|i: int| 0 <= i < order.len() ==> windows.contains((#[trigger] order[i]).raw),
        forall|i: int, j: int|
            0 <= i < j < order.len() ==> (#[trigger] order[i]).raw != (#[trigger] order[j]).raw,
{
    if windows.contains(raw) {
        assert(order.contains(WindowId { raw }));
        let i = choose|i: int| 0 <= i < order.len() && order[i] == WindowId { raw };
        assert(order[i].raw == raw);
    }
    assert forall|i: int| 0 <= i < order.len() implies windows.contains(
        (#[trigger] order[i]).raw,
    ) by {
        assert(order[i] == WindowId { raw: order[i].raw });
        assert(order.contains(WindowId { raw: order[i].raw }));
    }
    assert forall|i: int, j: int| 0 <= i < j < order.len() implies (#[trigger] order[i]).raw != (
    #[trigger] order[j]).raw by {
        if order[i].raw == order[j].raw {
            assert(order[i] == order[j]);
        }
    }
}

/// The redraws begin where the user events are over in a loop that goes on.
pub proof fn redraws_begin_after_the_user_events<H, P>(
    dispatch: DispatchModel<H, P>,
    app: AppModel<H, P>,
)
    requires
        dispatch.phase is UserPolled || dispatch.phase is Events,
        dispatch.pending.len() == 0,
        dispatch.scale_change == None::<ScaleFactorChanged>,
        callback_runs(app),
    ensures
        (TaskModel::Dispatching { dispatch, then: ThenModel::Redraw }).begins_redraws(app),
        dispatch.advanced(app).0 is Finished,
{
}

// ---------------------------------------------------------------------------
// Notifications
// ---------------------------------------------------------------------------

/// Events that arrive between two callbacks begin a task that has exactly
/// these pending, with the loop's handler, in the loop's stage.
pub proof fn arriving_events_are_dispatched<H, P>(
    app: AppModel<H, P>,
    events: Seq<EventWrapper<P>>,
)
    ensures
        ({
            let (task, after) = app.handling(events);
            let next = task->0->dispatch;
            &&& same_but_for_the_state(app, after)
            &&& app.terminating() ==> task == None::<TaskModel<H, P>> && after == app
            &&& match app.state {
                StateModel::ProcessingEvents { handler }
                | StateModel::ProcessingRedraws { handler } => {
                    &&& callback_runs(after)
                    &&& task == Some(
                        TaskModel::<H, P>::Dispatching {
                            dispatch: DispatchModel {
                                handler,
                                processing_redraws: app.state is ProcessingRedraws,
                                pending: events,
                                phase: Phase::Events,
                                scale_change: None,
                            },
                            then: ThenModel::Nothing,
                        },
                    )
                },
                _ => task == None::<TaskModel<H, P>>,
            }
            &&& !app.terminating() && !app.ready_for_callback() ==> after == app.events_kept(events)
        }),
{
}

/// A loop that wakes up is told the cause, before anything else, and has its
/// handler back at work; observers do nothing before the launch, during a
/// callback and after the end.
pub proof fn wakeups_begin_with_their_cause<H, P>(app: AppModel<H, P>, handler: H, now: Instant)
    ensures
        ({
            let (task, after) = app.woken(now);
            &&& !app.running() || app.in_callback() ==> task == None::<TaskModel<H, P>> && after
                == app
            &&& app.state.held_handler() == Some(handler) && app.expects_wakeup() ==> {
                &&& same_but_for_the_state(app, after)
                &&& callback_runs(after)
                &&& app.wakeup_cause(now) is Some
                &&& task == Some(
                    TaskModel::<H, P>::Dispatching {
                        dispatch: DispatchModel {
                            handler,
                            processing_redraws: false,
                            pending: seq![
                                EventWrapper::StaticEvent(
                                    Event::<P>::NewEvents(app.wakeup_cause(now)->0),
                                ),
                            ],
                            phase: Phase::Events,
                            scale_change: None,
                        },
                        then: ThenModel::Nothing,
                    },
                )
            }
        }),
{
}

/// After the main events the handler is told of its user events, before
/// anything else, and the redraws are to follow; observers do nothing before
/// the launch, during a callback and after the end.
pub proof fn main_events_are_followed_by_user_events<H, P>(
    app: AppModel<H, P>,
    handler: H,
    order: Seq<WindowId>,
)
    ensures
        ({
            let (task, after) = app.main_events_over();
            &&& !app.running() || app.in_callback() ==> task == None::<TaskModel<H, P>> && after
                == app
            &&& app.state == (StateModel::<H, P>::ProcessingEvents { handler }) ==> {
                let (step, told) = task->0.advanced(after, order);
                let next = step->Deliver_task;
                &&& same_but_for_the_state(app, after)
                &&& callback_runs(after)
                &&& told == after
                &&& step is Deliver
                &&& step->event == Event::<P>::UserEvent(HandlePendingUserEvents)
                &&& step->notice == Notice::Usual
                &&& next is Dispatching
                &&& next->then is Redraw
                &&& next->dispatch.handler == handler
                &&& !next->dispatch.processing_redraws
                &&& next->dispatch.pending.len() == 0
                &&& next->dispatch.phase is UserPolled
                &&& next->dispatch.scale_change == None::<ScaleFactorChanged>
            }
        }),
{
    let none = Seq::<EventWrapper<P>>::empty();
    assert(none + none =~= none);
}

/// The end of all events has the loop wait, except during a callback.
pub proof fn the_end_of_all_events_has_the_loop_wait<H, P>(app: AppModel<H, P>, now: Instant)
    ensures
        app.in_callback() ==> app.all_events_over(now) == app,
        !app.in_callback() ==> app.all_events_over(now) == app.events_cleared(now),
{
}

/// The launch begins with setting up exactly the windows that were kept, in
/// their order; the events and the handler stay, and the timer is set. Nothing
/// happens when the loop ends.
pub proof fn launches_begin_with_the_windows<H, P>(
    app: AppModel<H, P>,
    queued_windows: Seq<WindowId>,
    queued_events: Seq<EventWrapper<P>>,
    handler: H,
)
    ensures
        app.terminating() ==> app.launch_finished() == (None::<TaskModel<H, P>>, app),
        app.state == (StateModel::<H, P>::Launching {
            queued_windows,
            queued_events,
            queued_handler: handler,
        }) ==> {
            let (task, after) = app.launch_finished();
            &&& task == Some(TaskModel::<H, P>::SettingUp { windows: queued_windows })
            &&& after.state is Launching
            &&& after.state->Launching_queued_windows.len() == 0
            &&& after.state->Launching_queued_events == queued_events
            &&& after.state->Launching_queued_handler == handler
            &&& after.application_active == app.application_active
            &&& after.control_flow == app.control_flow
            &&& after.queued_gpu_redraws == app.queued_gpu_redraws
            &&& after.waker == app.waker_updated().waker
        },
{
}

/// A termination between callbacks begins a task that tells each own window of
/// its end, in the order of the list; during a callback it begins none, and
/// the same events become due. A second one does nothing.
pub proof fn terminations_tell_the_windows<H, P>(
    app: AppModel<H, P>,
    listed: Seq<Option<WindowId>>,
    handler: H,
)
    ensures
        ({
            let (task, after) = app.application_terminated(listed);
            let windows = crate::event::own_windows(listed);
            let events = if app.in_callback() {
                after.state->InUserCallback_callback->Terminating_0
            } else {
                task->0->dispatch.pending
            };
            &&& app.terminating() ==> task == None::<TaskModel<H, P>> && after == app
            &&& !app.terminating() ==> {
                &&& after == app.termination_requested(events)
                &&& app.in_callback() ==> task == None::<TaskModel<H, P>>
                &&& app.in_callback() || app.state.held_handler() == Some(handler) ==> {
                    &&& events.len() == windows.len()
                    &&& forall|i: int|
                        0 <= i < events.len() ==> #[trigger] events[i] == EventWrapper::StaticEvent(
                            Event::<P>::WindowEvent {
                                window_id: windows[i],
                                event: WindowEvent::Destroyed,
                            },
                        )
                }
                &&& app.state.held_handler() == Some(handler) ==> {
                    &&& task is Some
                    &&& task->0 is Dispatching
                    &&& task->0->then is Nothing
                    &&& task->0->dispatch.handler == handler
                    &&& !task->0->dispatch.processing_redraws
                    &&& task->0->dispatch.phase is Exiting
                    &&& task->0->dispatch.scale_change == None::<ScaleFactorChanged>
                }
            }
        }),
{
}

// ---------------------------------------------------------------------------
// Redraw requests
// ---------------------------------------------------------------------------

/// No notification makes the loop forget a redraw request, unless the loop
/// ends.
pub proof fn notifications_do_not_forget_redraws<H, P>(
    app: AppModel<H, P>,
    notification: crate::notification::Notification<H, P>,
    raw: u64,
)
    requires
        notification.allowed(app),
        app.queued_gpu_redraws.contains(raw),
    ensures
        notification.effect(app).1.terminating() || notification.effect(
            app,
        ).1.queued_gpu_redraws.contains(raw),
{
}

/// A request to redraw is there from then on, whatever the loop is at, unless
/// it ends.
pub proof fn redraw_requests_are_noted<H, P>(app: AppModel<H, P>, window: WindowId)
    ensures
        app.redraw_queued(window).terminating() || app.redraw_queued(
            window,
        ).queued_gpu_redraws.contains(window.raw),
{
}

/// No step of a dispatch makes the loop forget a redraw request, unless the
/// loop ends.
pub proof fn dispatches_do_not_forget_redraws<H, P>(
    dispatch: DispatchModel<H, P>,
    app: AppModel<H, P>,
    raw: u64,
)
    requires
        app.queued_gpu_redraws.contains(raw),
        dispatch.ready(app),
    ensures
        dispatch.advanced(app).1.terminating() || dispatch.advanced(
            app,
        ).1.queued_gpu_redraws.contains(raw),
{
}

} // verus!
