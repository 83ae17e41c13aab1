//! What holds over the loop's whole life, whatever comes in and in whatever
//! order its tasks go on.

use vstd::prelude::*;

use crate::callback_state::CallbackModel;
use crate::dispatch::DispatchModel;
use crate::event::{Event, EventWrapper, StartCause, WindowEvent, WindowId};
use crate::event_loop::{StepModel, TaskModel, ThenModel};
use crate::model::{AppModel, StateModel};
use crate::notification::Notification;

verus! {

/// Something that happens in the loop's life.
pub enum Happening<H, P> {
    /// A notification comes in.
    Notified(Notification<H, P>),
    /// One of the open tasks goes on by a step. `order` is the order in which
    /// windows are redrawn if the step begins the redraws; `handler` is what a
    /// call makes of the handler, if the step is one.
    WentOn { task: int, order: Seq<WindowId>, handler: H },
}

/// The loop with the tasks that are under way, and all events that the handler
/// has been called with, oldest first.
pub struct Life<H, P> {
    pub app: AppModel<H, P>,
    pub tasks: Seq<TaskModel<H, P>>,
    pub delivered: Seq<Event<P>>,
}

impl<H, P> TaskModel<H, P> {
    /// The task once a call has made `handler` of its handler.
    pub open spec fn with_handler(self, handler: H) -> Self {
        match self {
            TaskModel::Dispatching { dispatch, then } => TaskModel::Dispatching {
                dispatch: DispatchModel { handler, ..dispatch },
                then,
            },
            _ => self,
        }
    }
}

impl<H, P> Life<H, P> {
    /// The life of a loop that has just been made.
    pub open spec fn begun() -> Self {
        Life { app: AppModel::initial(), tasks: Seq::empty(), delivered: Seq::empty() }
    }

    /// Whether this can happen now.
    pub open spec fn allows(self, happening: Happening<H, P>) -> bool {
        match happening {
            Happening::Notified(notification) => notification.allowed(self.app),
            Happening::WentOn { task, .. } => {
                &&& 0 <= task < self.tasks.len()
                &&& self.tasks[task].ready(self.app)
            },
        }
    }

    /// What this makes of the life so far.
    pub open spec fn after(self, happening: Happening<H, P>) -> Self {
        match happening {
            Happening::Notified(notification) => {
                let (task, app) = notification.effect(self.app);
                let tasks = match task {
                    Some(task) => self.tasks.push(task),
                    None => self.tasks,
                };
                Life { app, tasks, ..self }
            },
            Happening::WentOn { task, order, handler } => {
                let (step, app) = self.tasks[task].advanced(self.app, order);
                match step {
                    StepModel::Deliver { task: next, event, .. } => Life {
                        app,
                        tasks: self.tasks.update(task, next.with_handler(handler)),
                        delivered: self.delivered.push(event),
                    },
                    StepModel::ResizeView { task: next, .. } => Life {
                        app,
                        tasks: self.tasks.update(task, next),
                        ..self
                    },
                    StepModel::SetUpWindow { task: next, .. } => Life {
                        app,
                        tasks: self.tasks.update(task, next),
                        ..self
                    },
                    StepModel::ShowWindow { task: next, .. } => Life {
                        app,
                        tasks: self.tasks.update(task, next),
                        ..self
                    },
                    StepModel::Done => Life { app, tasks: self.tasks.remove(task), ..self },
                }
            },
        }
    }
}

/// The life in which these have happened.
pub open spec fn life<H, P>(happenings: Seq<Happening<H, P>>) -> Life<H, P>
    decreases happenings.len(),
{
    if happenings.len() == 0 {
        Life::begun()
    } else {
        life(happenings.drop_last()).after(happenings.last())
    }
}

/// Whether these can happen one after the other, and nobody hands in the
/// loop's own last event from outside.
pub open spec fn can_happen<H, P>(happenings: Seq<Happening<H, P>>) -> bool
    decreases happenings.len(),
{
    happenings.len() == 0 || {
        &&& can_happen(happenings.drop_last())
        &&& life(happenings.drop_last()).allows(happenings.last())
        &&& happenings.last() matches Happening::Notified(Notification::Events(events))
            ==> none_last(events)
    }
}

/// Whether the last event of all is not among these.
pub open spec fn none_last<P>(events: Seq<EventWrapper<P>>) -> bool {
    forall|i: int| 0 <= i < events.len() ==> !((#[trigger] events[i]).delivered() is LoopExiting)
}

/// The events that wait in the loop's state.
spec fn waiting<H, P>(app: AppModel<H, P>) -> Seq<EventWrapper<P>> {
    match app.state {
        StateModel::NotLaunched { queued_events, .. } => queued_events,
        StateModel::Launching { queued_events, .. } => queued_events,
        StateModel::InUserCallback { callback: CallbackModel::Running(queue) } => queue,
        StateModel::InUserCallback { callback: CallbackModel::Terminating(due) } => due,
        _ => Seq::empty(),
    }
}

/// What holds of every dispatch that is under way.
spec fn in_order<H, P>(dispatch: DispatchModel<H, P>, app: AppModel<H, P>) -> bool {
    &&& dispatch.wf()
    &&& dispatch.ready(app)
    &&& none_last(dispatch.pending)
}

/// What holds of a step that leads from `app` to `after`.
spec fn leads_on<H, P>(step: StepModel<H, P>, app: AppModel<H, P>, after: AppModel<H, P>) -> bool {
    &&& none_last(waiting(after))
    &&& app.terminated() ==> after.terminated()
    &&& match step {
        StepModel::Deliver { task, event, .. } => {
            &&& task matches TaskModel::Dispatching { dispatch, then } && {
                &&& in_order(dispatch, after)
                &&& then is Redraw ==> !dispatch.processing_redraws
                &&& event is LoopExiting <==> dispatch.phase is Exited
            }
        },
        StepModel::ResizeView { task, .. } => {
            &&& task matches TaskModel::Dispatching { dispatch, then } && {
                &&& in_order(dispatch, after)
                &&& then is Redraw ==> !dispatch.processing_redraws
            }
            &&& !after.terminated()
        },
        _ => {
            &&& !(step.task() matches Some(task) && task is Dispatching)
            &&& after.terminated() ==> app.terminated()
        },
    }
}

proof fn first_taken<P>(events: Seq<EventWrapper<P>>)
    requires
        none_last(events),
    ensures
        events.len() > 0 ==> none_last(events.drop_first()),
        events.len() > 0 ==> !(events[0].delivered() is LoopExiting),
{
    if events.len() > 0 {
        let rest = events.drop_first();
        assert forall|i: int| 0 <= i < rest.len() implies !((
        #[trigger] rest[i]).delivered() is LoopExiting) by {
            assert(rest[i] == events[i + 1]);
        }
    }
}

proof fn then_leads_on<H, P>(then: ThenModel, app: AppModel<H, P>, order: Seq<WindowId>)
    requires
        none_last(waiting(app)),
        then is AboutToWait ==> app.accepts_events(),
        then is Redraw ==> app.terminating() || app.state is ProcessingEvents,
    ensures
        ({
            let (step, after) = crate::event_loop::then_step(then, app, order);
            &&& leads_on(step, app, after)
            &&& app.terminated() ==> step is Done && after == app
        }),
    decreases then.dispatches(), 0nat,
{
    match then {
        ThenModel::Redraw => if !app.terminating() {
            arrival_leads_on(
                crate::event::each_window(order, WindowEvent::RedrawRequested),
                ThenModel::AboutToWait,
                app.main_events_cleared(),
                order,
            );
        },
        ThenModel::AboutToWait => {
            arrival_leads_on(
                seq![EventWrapper::StaticEvent(Event::AboutToWait)],
                ThenModel::Nothing,
                app,
                order,
            );
        },
        _ => {},
    }
}

proof fn arrival_leads_on<H, P>(
    events: Seq<EventWrapper<P>>,
    then: ThenModel,
    app: AppModel<H, P>,
    order: Seq<WindowId>,
)
    requires
        none_last(waiting(app)),
        none_last(events),
        app.accepts_events(),
        !(then is Redraw),
    ensures
        ({
            let (step, after) = crate::event_loop::arrival_step(events, then, app, order);
            &&& leads_on(step, app, after)
            &&& app.terminated() ==> step is Done && after == app
        }),
    decreases then.dispatches(), 2nat,
{
    let (dispatch, arrived) = app.events_arrived(events);
    match dispatch {
        Some(dispatch) => dispatch_leads_on(dispatch, then, arrived, order),
        None => then_leads_on(then, arrived, order),
    }
}

proof fn dispatch_leads_on<H, P>(
    dispatch: DispatchModel<H, P>,
    then: ThenModel,
    app: AppModel<H, P>,
    order: Seq<WindowId>,
)
    requires
        none_last(waiting(app)),
        in_order(dispatch, app),
        then is Redraw ==> !dispatch.processing_redraws,
    ensures
        ({
            let (step, after) = crate::event_loop::dispatch_step(dispatch, then, app, order);
            &&& leads_on(step, app, after)
            &&& app.terminated() ==> after == app
            &&& dispatch.phase is Exiting ==> step is Deliver
            &&& dispatch.phase is Exited ==> step is Done
            &&& after.terminated() && !app.terminated() ==> step is Deliver
        }),
    decreases then.dispatches(), 1nat,
{
    let (progress, advanced) = dispatch.advanced(app);
    first_taken(dispatch.pending);
    first_taken(waiting(app));
    first_taken(dispatch.pending + waiting(app));
    if progress is Finished {
        then_leads_on(then, advanced, order);
    }
}

/// Whether a task delivers the last events and has not come to the very last.
spec fn exits<H, P>(task: TaskModel<H, P>) -> bool {
    task matches TaskModel::Dispatching { dispatch, .. } && dispatch.phase is Exiting
}

/// Whether the last event has been delivered.
spec fn over<P>(delivered: Seq<Event<P>>) -> bool {
    delivered.len() > 0 && delivered.last() is LoopExiting
}

/// What holds at any time of the loop's life.
spec fn orderly<H, P>(life: Life<H, P>) -> bool {
    &&& none_last(waiting(life.app))
    &&& forall|i: int|
        #![trigger life.tasks[i]]
        0 <= i < life.tasks.len() ==> (life.tasks[i] matches TaskModel::Dispatching {
            dispatch,
            then,
        } ==> in_order(dispatch, life.app) && (then is Redraw ==> !dispatch.processing_redraws))
    &&& forall|i: int, j: int|
        #![trigger life.tasks[i], life.tasks[j]]
        0 <= i < life.tasks.len() && 0 <= j < life.tasks.len() && life.tasks[i] is Dispatching
            && life.tasks[j] is Dispatching ==> i == j
    &&& forall|i: int|
        0 <= i < life.delivered.len() && (#[trigger] life.delivered[i] is LoopExiting) ==> i
            == life.delivered.len() - 1
    &&& over(life.delivered) <==> life.app.terminated() && forall|i: int|
        0 <= i < life.tasks.len() ==> !exits(#[trigger] life.tasks[i])
}

proof fn notified_in_order<H, P>(life: Life<H, P>, notification: Notification<H, P>)
    requires
        orderly(life),
        notification.allowed(life.app),
        notification matches Notification::Events(events) ==> none_last(events),
    ensures
        orderly(life.after(Happening::Notified(notification))),
{
    let (task, app) = notification.effect(life.app);
    let after = life.after(Happening::Notified(notification));
    assert(none_last(waiting(app)));
    match task {
        None => {
            assert(life.app.terminated() == app.terminated());
            assert forall|i: int|
                #![trigger after.tasks[i]]
                0 <= i < after.tasks.len() implies (after.tasks[i] matches TaskModel::Dispatching {
                dispatch,
                then,
            } ==> in_order(dispatch, app) && (then is Redraw ==> !dispatch.processing_redraws)) by {
                assert(after.tasks[i] == life.tasks[i]);
            }
        },
        Some(task) => {
            assert(forall|i: int| 0 <= i < life.tasks.len() ==> after.tasks[i] == life.tasks[i]);
            assert(after.tasks.last() == task);
            if task is Dispatching {
                assert(forall|i: int|
                    0 <= i < life.tasks.len() ==> !(#[trigger] life.tasks[i] is Dispatching));
            }
        },
    }
}

proof fn went_on_in_order<H, P>(life: Life<H, P>, task: int, order: Seq<WindowId>, handler: H)
    requires
        orderly(life),
        life.allows(Happening::WentOn { task, order, handler }),
    ensures
        orderly(life.after(Happening::WentOn { task, order, handler })),
{
    let (step, app) = life.tasks[task].advanced(life.app, order);
    let after = life.after(Happening::WentOn { task, order, handler });
    match life.tasks[task] {
        TaskModel::Dispatching { dispatch, then } => {
            dispatch_leads_on(dispatch, then, life.app, order);
        },
        TaskModel::SettingUp { windows } => if !life.app.terminating() && windows.len() == 0 {
            let init = EventWrapper::StaticEvent(Event::NewEvents(StartCause::Init));
            assert(none_last(seq![init] + life.app.state->Launching_queued_events));
            arrival_leads_on(
                seq![init] + life.app.state->Launching_queued_events,
                ThenModel::ShowWindows(life.app.state->Launching_queued_windows),
                life.app.processing_events(),
                order,
            );
        },
        TaskModel::Showing { .. } => {},
    }
    assert(leads_on(step, life.app, app));
    match step.task() {
        Some(next) => {
            let next = if step is Deliver {
                next.with_handler(handler)
            } else {
                next
            };
            assert(after.tasks == life.tasks.update(task, next));
            assert(after.tasks[task] == next);
            assert(forall|i: int|
                0 <= i < life.tasks.len() && i != task ==> #[trigger] after.tasks[i]
                    == life.tasks[i]);
            if life.tasks[task] is Dispatching || next is Dispatching {
                assert(forall|i: int|
                    0 <= i < life.tasks.len() && i != task ==> !(
                    #[trigger] life.tasks[i] is Dispatching));
            } else {
                assert(app == life.app);
            }
        },
        None => {
            assert(forall|i: int|
                0 <= i < after.tasks.len() ==> #[trigger] after.tasks[i] == life.tasks[if i < task {
                    i
                } else {
                    i + 1
                }]);
            assert(forall|i: int|
                0 <= i < life.tasks.len() && i != task ==> #[trigger] life.tasks[i]
                    == after.tasks[if i < task {
                    i
                } else {
                    i - 1
                }]);
            if life.tasks[task] is Dispatching {
                assert(forall|i: int|
                    0 <= i < life.tasks.len() && i != task ==> !(
                    #[trigger] life.tasks[i] is Dispatching));
            } else {
                assert(app == life.app);
            }
        },
    }
    if life.tasks[task] is Dispatching {
        assert(forall|i: int|
            0 <= i < life.tasks.len() && i != task ==> !exits(#[trigger] life.tasks[i]));
        assert(over(after.delivered) <==> after.app.terminated() && forall|i: int|
            0 <= i < after.tasks.len() ==> !exits(#[trigger] after.tasks[i]));
    } else if step is Deliver {
        assert(!after.app.terminated());
        assert(!over(after.delivered));
    } else {
        assert(over(after.delivered) <==> after.app.terminated() && forall|i: int|
            0 <= i < after.tasks.len() ==> !exits(#[trigger] after.tasks[i]));
    }
}

/// What holds at any time holds throughout.
proof fn lives_are_orderly<H, P>(happenings: Seq<Happening<H, P>>)
    requires
        can_happen(happenings),
    ensures
        orderly(life(happenings)),
    decreases happenings.len(),
{
    if happenings.len() > 0 {
        let before = happenings.drop_last();
        lives_are_orderly(before);
        match happenings.last() {
            Happening::Notified(notification) => notified_in_order(life(before), notification),
            Happening::WentOn { task, order, handler } => {
                went_on_in_order(life(before), task, order, handler);
            },
        }
    }
}

/// Over the loop's whole life, whatever comes in and in whatever order its
/// tasks go on, the handler is told at most once that the loop exits, and is
/// not called again after that. It is told so only of a loop that has ended;
/// and once no deliveries are under way any more in a loop that has ended, it
/// has been told.
pub proof fn the_loop_exits_once<H, P>(happenings: Seq<Happening<H, P>>)
    requires
        can_happen(happenings),
    ensures
        ({
            let life = life(happenings);
            &&& forall|i: int|
                0 <= i < life.delivered.len() && (#[trigger] life.delivered[i] is LoopExiting)
                    ==> i == life.delivered.len() - 1
            &&& life.delivered.len() > 0 && life.delivered.last() is LoopExiting
                ==> life.app.terminated()
            &&& life.app.terminated() && (forall|i: int|
                0 <= i < life.tasks.len() ==> !(#[trigger] life.tasks[i] is Dispatching))
                ==> life.delivered.len() > 0 && life.delivered.last() is LoopExiting
        }),
{
    lives_are_orderly(happenings);
}

} // verus!
