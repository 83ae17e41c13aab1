//! What dispatches and tasks do from beginning to end, whatever comes in while
//! their steps are performed.

use vstd::prelude::*;

use crate::dispatch::{DispatchModel, Phase, ProgressModel};
use crate::event::{
    Event, EventWrapper, HandlePendingUserEvents, ScaleFactorChanged, StartCause, WindowEvent,
    WindowId,
};
use crate::event_loop::{StepModel, TaskModel, ThenModel};
use crate::model::{AppModel, StateModel};
use crate::notification::{self, Incoming, Notification};

verus! {

/// Something that the driver of the loop has done.
pub enum Deed<P> {
    Delivered(Event<P>),
    Resized(ScaleFactorChanged),
    SetUp(WindowId),
    Shown(WindowId),
}

/// What has been done, what is left to do, and the loop's state.
pub type Run<P, L, M> = (Seq<Deed<P>>, Option<L>, M);

/// Puts what was done earlier in front.
pub open spec fn after_deeds<P, L, M>(earlier: Seq<Deed<P>>, run: Run<P, L, M>) -> Run<P, L, M> {
    (earlier + run.0, run.1, run.2)
}

/// The dispatch once its handler was called.
pub open spec fn called<H, P>(
    dispatch: DispatchModel<H, P>,
    incoming: Incoming<H, P>,
) -> DispatchModel<H, P> {
    DispatchModel { handler: notification::called_next(dispatch.handler, incoming), ..dispatch }
}

/// What doing `deeds` makes of `handler`: each delivery calls it.
pub open spec fn handler_after<H, P>(
    handler: H,
    deeds: Seq<Deed<P>>,
    incoming: Incoming<H, P>,
) -> H
    decreases deeds.len(),
{
    if deeds.len() == 0 {
        handler
    } else {
        let next = if deeds[0] is Delivered {
            notification::called_next(handler, incoming)
        } else {
            handler
        };
        handler_after(next, deeds.drop_first(), notification::later_in(incoming))
    }
}

proof fn handler_after_all<H, P>(
    handler: H,
    first: Seq<Deed<P>>,
    second: Seq<Deed<P>>,
    incoming: Incoming<H, P>,
)
    ensures
        handler_after(handler, first + second, incoming) == handler_after(
            handler_after(handler, first, incoming),
            second,
            notification::past(incoming, first.len()),
        ),
    decreases first.len(),
{
    if first.len() == 0 {
        assert(first + second =~= second);
    } else {
        assert((first + second).drop_first() =~= first.drop_first() + second);
        let next = if first[0] is Delivered {
            notification::called_next(handler, incoming)
        } else {
            handler
        };
        handler_after_all(next, first.drop_first(), second, notification::later_in(incoming));
    }
}

/// So many steps of a dispatch, with what happens while each is performed.
pub open spec fn dispatch_run<H, P>(
    dispatch: DispatchModel<H, P>,
    app: AppModel<H, P>,
    incoming: Incoming<H, P>,
    steps: nat,
) -> Run<P, DispatchModel<H, P>, AppModel<H, P>>
    decreases steps,
{
    if steps == 0 {
        (Seq::empty(), Some(dispatch), app)
    } else {
        let (progress, app) = dispatch.advanced(app);
        match progress {
            ProgressModel::Deliver { dispatch, event, .. } => after_deeds(
                seq![Deed::Delivered(event)],
                dispatch_run(
                    called(dispatch, incoming),
                    notification::taken_in(app, notification::next_in(incoming)),
                    notification::later_in(incoming),
                    (steps - 1) as nat,
                ),
            ),
            ProgressModel::ResizeView { dispatch, change } => after_deeds(
                seq![Deed::Resized(change)],
                dispatch_run(
                    dispatch,
                    notification::taken_in(app, notification::next_in(incoming)),
                    notification::later_in(incoming),
                    (steps - 1) as nat,
                ),
            ),
            ProgressModel::Finished => (Seq::empty(), None, app),
        }
    }
}

/// A change of scale is settled by resizing the window's view.
pub open spec fn settling<P>(scale_change: Option<ScaleFactorChanged>) -> Seq<Deed<P>> {
    match scale_change {
        Some(change) => seq![Deed::Resized(change)],
        None => Seq::empty(),
    }
}

/// What delivering `events` comes to while the loop goes on: each event in
/// turn, and the resize that settles a change of scale before the next one.
pub open spec fn delivery<P>(events: Seq<EventWrapper<P>>) -> Seq<Deed<P>>
    decreases events.len(),
{
    if events.len() == 0 {
        Seq::empty()
    } else {
        seq![Deed::Delivered(events[0].delivered())] + settling(events[0].scale_change())
            + delivery(events.drop_first())
    }
}

/// What delivering the last `events` comes to: each in turn, with no resizes,
/// and at the very end the event that the loop exits.
pub open spec fn last_delivery<P>(events: Seq<EventWrapper<P>>) -> Seq<Deed<P>>
    decreases events.len(),
{
    if events.len() == 0 {
        seq![Deed::Delivered(Event::LoopExiting)]
    } else {
        seq![Deed::Delivered(events[0].delivered())] + last_delivery(events.drop_first())
    }
}

/// The events that are due, once those of nested calls are added.
pub open spec fn due<H, P>(dispatch: DispatchModel<H, P>, app: AppModel<H, P>) -> Seq<
    EventWrapper<P>,
> {
    app.state->InUserCallback_callback.pending_after_action(dispatch.pending)
}

pub open spec fn flag(set: bool) -> nat {
    if set {
        1
    } else {
        0
    }
}

/// A run goes on from where its first steps have led.
proof fn dispatch_goes_on<H, P>(
    dispatch: DispatchModel<H, P>,
    app: AppModel<H, P>,
    incoming: Incoming<H, P>,
    first: nat,
    second: nat,
)
    ensures
        ({
            let run = dispatch_run(dispatch, app, incoming, first);
            run.1 matches Some(next) ==> {
                &&& run.0.len() == first
                &&& dispatch_run(dispatch, app, incoming, first + second) == after_deeds(
                    run.0,
                    dispatch_run(next, run.2, notification::past(incoming, first), second),
                )
            }
        }),
    decreases first,
{
    if first == 0 {
        let rest = dispatch_run(dispatch, app, incoming, second);
        assert(Seq::<Deed<P>>::empty() + rest.0 =~= rest.0);
    } else {
        let fewer = (first - 1) as nat;
        let later = notification::later_in(incoming);
        let (progress, next_app) = dispatch.advanced(app);
        let next_app = notification::taken_in(
            next_app,
            notification::next_in(incoming),
        );
        assert((first + second - 1) as nat == fewer + second);
        let (next, deed) = if let ProgressModel::Deliver { dispatch: next, event, .. } = progress {
            (called(next, incoming), Deed::Delivered(event))
        } else {
            (progress->ResizeView_dispatch, Deed::Resized(progress->change))
        };
        if !(progress is Finished) {
            dispatch_goes_on(next, next_app, later, fewer, second);
            let run = dispatch_run(next, next_app, later, fewer);
            if let Some(last) = run.1 {
                let rest = dispatch_run(
                    last,
                    run.2,
                    notification::past(incoming, first),
                    second,
                );
                assert(seq![deed] + (run.0 + rest.0) =~= seq![deed] + run.0 + rest.0);
            }
        }
    }
}

/// What comes in during a callback lines up, and the rest changes as it would
/// in any state.
proof fn comes_in<H, P>(
    app: AppModel<H, P>,
    notifications: Seq<Notification<H, P>>,
    later: Seq<Notification<H, P>>,
    state: StateModel<H, P>,
)
    requires
        app.in_callback(),
        !app.terminating(),
        !app.with_state(state).terminating(),
        notification::all_ordinary(notifications),
    ensures
        ({
            let next = notification::taken_in(app, notifications);
            &&& next.in_callback()
            &&& !next.terminating()
            &&& next.state->InUserCallback_callback->Running_0
                == app.state->InUserCallback_callback->Running_0 + notification::brought(
                notifications,
            )
            &&& next.with_state(app.state) == notification::changed(app, notifications)
            &&& notification::changed(next, later).with_state(state)
                == notification::changed(app, notifications + later).with_state(state)
        }),
{
    let next = notification::taken_in(app, notifications);
    let aside = notification::changed(app, notifications);
    notification::taken_in_while_events_are_kept(app, notifications);
    notification::changed_in_any_state(aside, next.state, later);
    notification::changed_in_turn(app, notifications, later);
    assert(next == aside.with_state(next.state));
}

/// A dispatch of plain events delivers exactly the events that are due and
/// then all that come in meanwhile, in their order, each once, and each change
/// of scale is settled before the next event. It ends when none is left. Then
/// the handler, as the calls have left it, is back where it came from, and
/// nothing about the loop has changed but what came in to change it. Gives the
/// number of steps.
pub proof fn plain_dispatch_ends<H, P>(
    dispatch: DispatchModel<H, P>,
    app: AppModel<H, P>,
    incoming: Incoming<H, P>,
) -> (steps: nat)
    requires
        dispatch.phase is Events,
        dispatch.ready(app),
        !app.terminating(),
        notification::undisrupted(incoming),
    ensures
        ({
            let (deeds, left, after) = dispatch_run(dispatch, app, incoming, steps);
            let came = notification::during(incoming, deeds.len());
            &&& left is None
            &&& deeds == settling(dispatch.scale_change) + delivery(
                due(dispatch, app) + notification::brought(came),
            )
            &&& after == notification::changed(app, came).with_state(
                StateModel::processing(
                    handler_after(dispatch.handler, deeds, incoming),
                    dispatch.processing_redraws,
                ),
            )
        }),
    decreases
            due(dispatch, app).len() + notification::arriving(incoming),
            flag(dispatch.scale_change is Some),
{
    let events = due(dispatch, app);
    let first = notification::next_in(incoming);
    let later = notification::later_in(incoming);
    let none = Seq::<Deed<P>>::empty();
    notification::undisrupted_in_turn(incoming, 1);
    notification::arriving_in_turn(incoming, 1);
    assert(notification::during(incoming, 1) =~= first) by {
        assert(notification::during(later, 0) =~= Seq::<Notification<H, P>>::empty());
    }
    assert(notification::past(incoming, 1) == later) by {
        assert(notification::past(later, 0) == later);
    }
    let (progress, advanced) = dispatch.advanced(app);
    let next_app = notification::taken_in(advanced, first);
    match progress {
        ProgressModel::ResizeView { dispatch: next, change } => {
            comes_in(app, first, Seq::empty(), app.state);
            assert(due(next, next_app) =~= events + notification::brought(first));
            let steps = plain_dispatch_ends(next, next_app, later);
            let (rest, _, after) = dispatch_run(next, next_app, later, steps);
            let came = notification::during(later, rest.len());
            comes_in(app, first, came, after.state);
            let deeds = seq![Deed::Resized(change)] + rest;
            assert(deeds.drop_first() =~= rest);
            notification::brought_in_turn(first, came);
            let all = events + notification::brought(first + came);
            assert(events + notification::brought(first) + notification::brought(came)
                =~= all);
            assert(none + delivery(all) =~= delivery(all));
            steps + 1
        },
        ProgressModel::Deliver { dispatch: next, event, .. } => {
            let next = called(next, incoming);
            comes_in(advanced, first, Seq::empty(), advanced.state);
            assert(due(next, next_app) =~= events.drop_first() + notification::brought(
                first,
            ));
            let steps = plain_dispatch_ends(next, next_app, later);
            let (rest, _, after) = dispatch_run(next, next_app, later, steps);
            let came = notification::during(later, rest.len());
            comes_in(advanced, first, came, after.state);
            let deeds = seq![Deed::Delivered(event)] + rest;
            assert(deeds.drop_first() =~= rest);
            notification::changed_in_any_state(app, advanced.state, first + came);
            notification::brought_in_turn(first, came);
            let all = events + notification::brought(first + came);
            assert(all.drop_first() =~= events.drop_first() + notification::brought(first)
                + notification::brought(came));
            let told: Seq<Deed<P>> = seq![Deed::Delivered(events[0].delivered())];
            let settled: Seq<Deed<P>> = settling(events[0].scale_change());
            let others = delivery(all.drop_first());
            assert(told + (settled + others) =~= none + (told + settled + others));
            steps + 1
        },
        ProgressModel::Finished => {
            let nothing = Seq::<Notification<H, P>>::empty();
            assert(notification::during(incoming, 0) =~= nothing);
            assert(events + notification::brought(nothing) =~= Seq::<
                EventWrapper<P>,
            >::empty());
            assert(none + none =~= none);
            1
        },
    }
}

/// Whether the loop is not handed a handler again.
pub open spec fn no_second_launch<H, P>(incoming: Incoming<H, P>) -> bool {
    forall|i: int, j: int|
        0 <= i < incoming.len() && 0 <= j < incoming[i].notifications.len() ==> !(
        #[trigger] incoming[i].notifications[j] is WillLaunch)
}

/// Once the loop has ended, exactly the events that are due are delivered, in
/// their order, and at the very end, once, that the loop exits. Nothing is
/// resized, whatever comes in is not delivered, and the loop stays ended.
/// Gives the number of steps.
pub proof fn exiting_dispatch_ends<H, P>(
    dispatch: DispatchModel<H, P>,
    app: AppModel<H, P>,
    incoming: Incoming<H, P>,
) -> (steps: nat)
    requires
        dispatch.phase is Exiting,
        dispatch.ready(app),
        no_second_launch(incoming),
    ensures
        ({
            let (deeds, left, after) = dispatch_run(dispatch, app, incoming, steps);
            &&& left is None
            &&& deeds == last_delivery(dispatch.pending)
            &&& after == notification::changed(
                app,
                notification::during(incoming, deeds.len()),
            )
            &&& after.terminated()
        }),
    decreases dispatch.pending.len(),
{
    let first = notification::next_in(incoming);
    let later = notification::later_in(incoming);
    let (progress, _) = dispatch.advanced(app);
    let next_app = notification::taken_in(app, first);
    assert(forall|i: int|
        0 <= i < first.len() ==> !(#[trigger] first[i] is WillLaunch)) by {
        assert(forall|i: int| 0 <= i < first.len() ==> first[i] == incoming[0].notifications[i]);
    }
    assert(no_second_launch(later)) by {
        assert(forall|i: int| 0 <= i < later.len() ==> later[i] == incoming[i + 1]);
    }
    notification::taken_in_once_ended(app, first);
    match progress {
        ProgressModel::Deliver { dispatch: next, .. } => {
            let next = called(next, incoming);
            if next.phase is Exited {
                assert(next.advanced(next_app).0 is Finished);
                assert(dispatch_run(next, next_app, later, 1) == (
                    Seq::<Deed<P>>::empty(),
                    None::<DispatchModel<H, P>>,
                    next_app,
                ));
                assert(seq![Deed::Delivered(Event::<P>::LoopExiting)] + Seq::<Deed<P>>::empty()
                    =~= last_delivery(dispatch.pending));
                assert(notification::during(later, 0) =~= Seq::<Notification<H, P>>::empty());
                assert(notification::during(incoming, 1) =~= first);
                2
            } else {
                let steps = exiting_dispatch_ends(next, next_app, later);
                let rest = dispatch_run(next, next_app, later, steps).0;
                let came = notification::during(later, rest.len());
                notification::changed_in_turn(app, first, came);
                steps + 1
            }
        },
        _ => 1,
    }
}

/// When termination was requested during a callback, everything that was
/// pending or kept is dropped, and so is what comes in later: exactly the
/// events that were handed over with the request are delivered, then that the
/// loop exits. The loop has ended from the first of these deliveries on. Gives
/// the number of steps.
pub proof fn terminated_dispatch_ends<H, P>(
    dispatch: DispatchModel<H, P>,
    app: AppModel<H, P>,
    incoming: Incoming<H, P>,
) -> (steps: nat)
    requires
        !dispatch.exiting(),
        dispatch.ready(app),
        app.terminating(),
        no_second_launch(incoming),
    ensures
        ({
            let (deeds, left, after) = dispatch_run(dispatch, app, incoming, steps);
            &&& left is None
            &&& deeds == last_delivery(app.state->InUserCallback_callback->Terminating_0)
            &&& after == notification::changed(
                app.shut_down(),
                notification::during(incoming, deeds.len()),
            )
            &&& after.terminated()
        }),
{
    let last = app.state->InUserCallback_callback->Terminating_0;
    let ended = dispatch.settled().ended(last);
    let steps = exiting_dispatch_ends(ended, app.shut_down(), incoming);
    assert(dispatch.advanced(app) == ended.advanced(app.shut_down()));
    steps
}

/// The handler is told of its user events.
pub open spec fn told<P>() -> Seq<Deed<P>> {
    seq![Deed::Delivered(Event::UserEvent(HandlePendingUserEvents))]
}

/// What telling the handler of its user events comes to, when a `batch` is to
/// be delivered before, after the `settled` deeds, and further events are
/// `waiting`: these, and all that come in until the handler is told, are the
/// next batch, after which the handler is told again; and so on until nothing
/// is waiting.
pub open spec fn user_delivery<H, P>(
    settled: Seq<Deed<P>>,
    batch: Seq<EventWrapper<P>>,
    waiting: Seq<EventWrapper<P>>,
    incoming: Incoming<H, P>,
) -> Seq<Deed<P>>
    decreases waiting.len() + notification::arriving(incoming),
{
    let begun = settled + delivery(batch) + told();
    let next = waiting + notification::brought(
        notification::during(incoming, begun.len()),
    );
    if next.len() == 0 {
        begun
    } else {
        proof {
            notification::arriving_in_turn(incoming, begun.len());
        }
        begun + user_delivery(
            Seq::empty(),
            next,
            Seq::empty(),
            notification::past(incoming, begun.len()),
        )
    }
}

/// What follows once the handler was told of its user events: nothing if no
/// events are waiting, else these are the next batch.
pub open spec fn user_delivery_once_told<H, P>(
    waiting: Seq<EventWrapper<P>>,
    incoming: Incoming<H, P>,
) -> Seq<Deed<P>> {
    if waiting.len() == 0 {
        Seq::empty()
    } else {
        user_delivery(Seq::empty(), waiting, Seq::empty(), incoming)
    }
}

/// What changes about the loop in two goes is what changes in one.
proof fn changes_add_up<H, P>(
    app: AppModel<H, P>,
    first: Seq<Notification<H, P>>,
    next: AppModel<H, P>,
    second: Seq<Notification<H, P>>,
    after: AppModel<H, P>,
)
    requires
        !app.terminating(),
        !next.terminating(),
        next == notification::changed(app, first).with_state(next.state),
        after == notification::changed(next, second).with_state(after.state),
    ensures
        after == notification::changed(app, first + second).with_state(after.state),
{
    let aside = notification::changed(app, first);
    notification::changed_in_any_state(app, app.state, first);
    notification::changed_in_any_state(aside, next.state, second);
    notification::changed_in_turn(app, first, second);
}

/// A batch is delivered; then the handler is to be told again, and what came
/// in meanwhile waits behind what was waiting before. Gives the number of
/// steps.
proof fn batch_is_delivered<H, P>(
    dispatch: DispatchModel<H, P>,
    app: AppModel<H, P>,
    incoming: Incoming<H, P>,
) -> (steps: nat)
    requires
        dispatch.phase is UserBatch,
        dispatch.phase->remaining <= due(dispatch, app).len(),
        dispatch.ready(app),
        !app.terminating(),
        notification::undisrupted(incoming),
    ensures
        ({
            let (deeds, left, after) = dispatch_run(dispatch, app, incoming, steps);
            let remaining = dispatch.phase->remaining as int;
            let came = notification::during(incoming, steps);
            &&& deeds.len() == steps
            &&& deeds == settling(dispatch.scale_change) + delivery(
                due(dispatch, app).take(remaining),
            )
            &&& left matches Some(next) && {
                &&& next.phase == (Phase::UserBatch { remaining: 0 })
                &&& next.scale_change is None
                &&& next.handler == handler_after(dispatch.handler, deeds, incoming)
                &&& next.processing_redraws == dispatch.processing_redraws
                &&& due(next, after) == due(dispatch, app).skip(remaining)
                    + notification::brought(came)
            }
            &&& after.in_callback()
            &&& !after.terminating()
            &&& after == notification::changed(app, came).with_state(after.state)
        }),
    decreases dispatch.phase->remaining, flag(dispatch.scale_change is Some),
{
    let events = due(dispatch, app);
    let remaining = dispatch.phase->remaining;
    let first = notification::next_in(incoming);
    let later = notification::later_in(incoming);
    let none = Seq::<Deed<P>>::empty();
    let (progress, advanced) = dispatch.advanced(app);
    let next_app = notification::taken_in(advanced, first);
    notification::undisrupted_in_turn(incoming, 1);
    assert(notification::past(incoming, 1) == later) by {
        assert(notification::past(later, 0) == later);
    }
    if let ProgressModel::ResizeView { dispatch: next, change } = progress {
        comes_in(app, first, Seq::empty(), app.state);
        assert(due(next, next_app) =~= events + notification::brought(first));
        let steps = batch_is_delivered(next, next_app, later);
        let (rest, left, after) = dispatch_run(next, next_app, later, steps);
        assert((seq![Deed::Resized(change)] + rest).drop_first() =~= rest);
        let came = notification::during(later, steps);
        notification::brought_in_turn(first, came);
        assert(next_app == notification::changed(app, first).with_state(next_app.state));
        changes_add_up(app, first, next_app, came, after);
        assert(due(next, next_app).take(remaining as int) =~= events.take(remaining as int));
        assert(due(next, next_app).skip(remaining as int) + notification::brought(came)
            =~= events.skip(remaining as int) + notification::brought(first + came));
        let batch = delivery(events.take(remaining as int));
        assert(none + batch =~= batch);
        steps + 1
    } else if remaining == 0 {
        let nothing = Seq::<Notification<H, P>>::empty();
        assert(notification::during(incoming, 0) =~= nothing);
        assert(notification::changed(app, nothing) == app);
        assert(notification::brought(nothing) =~= Seq::<EventWrapper<P>>::empty());
        assert(events.take(0) =~= Seq::<EventWrapper<P>>::empty());
        assert(events.skip(0) + notification::brought(nothing) =~= events);
        assert(none + none =~= none);
        0
    } else {
        let next = called(progress->Deliver_dispatch, incoming);
        let fewer = remaining - 1;
        comes_in(advanced, first, Seq::empty(), advanced.state);
        notification::changed_in_any_state(app, advanced.state, first);
        assert(next_app == notification::changed(app, first).with_state(next_app.state));
        assert(due(next, next_app) =~= events.drop_first() + notification::brought(first));
        let steps = batch_is_delivered(next, next_app, later);
        let (rest, left, after) = dispatch_run(next, next_app, later, steps);
        assert((seq![Deed::Delivered(progress->event)] + rest).drop_first() =~= rest);
        let came = notification::during(later, steps);
        notification::brought_in_turn(first, came);
        changes_add_up(app, first, next_app, came, after);
        let batch = events.take(remaining as int);
        assert(due(next, next_app).take(fewer) =~= batch.drop_first());
        assert(due(next, next_app).skip(fewer) + notification::brought(came)
            =~= events.skip(remaining as int) + notification::brought(first + came));
        let delivered: Seq<Deed<P>> = seq![Deed::Delivered(events[0].delivered())];
        let settled: Seq<Deed<P>> = settling(events[0].scale_change());
        let others = delivery(batch.drop_first());
        assert(delivered + (settled + others) =~= none + (delivered + settled + others));
        steps + 1
    }
}

/// The handler is told of its user events; then a batch of events is
/// delivered, and the handler is told again; and so on. Each batch is what has
/// come in since the last one was made up, in the order in which it came, and
/// each event is delivered once. The dispatch ends directly after the handler
/// was told, when nothing has come in since; the handler, as the calls have
/// left it, is back where it came from, and nothing about the loop has changed
/// but what came in to change it. Gives the number of steps.
pub proof fn user_dispatch_ends<H, P>(
    dispatch: DispatchModel<H, P>,
    app: AppModel<H, P>,
    incoming: Incoming<H, P>,
) -> (steps: nat)
    requires
        match dispatch.phase {
            Phase::UserBatch { remaining } => remaining <= due(dispatch, app).len(),
            Phase::UserPolled => dispatch.scale_change is None,
            _ => false,
        },
        dispatch.ready(app),
        !app.terminating(),
        notification::undisrupted(incoming),
        due(dispatch, app).len() + notification::arriving(incoming) <= usize::MAX,
    ensures
        steps > 0,
        ({
            let (deeds, left, after) = dispatch_run(dispatch, app, incoming, steps);
            let events = due(dispatch, app);
            let came = notification::during(incoming, deeds.len());
            &&& left is None
            &&& deeds == match dispatch.phase {
                Phase::UserBatch { remaining } => user_delivery(
                    settling(dispatch.scale_change),
                    events.take(remaining as int),
                    events.skip(remaining as int),
                    incoming,
                ),
                _ => user_delivery_once_told(events, incoming),
            }
            &&& after == notification::changed(app, came).with_state(
                StateModel::processing(
                    handler_after(dispatch.handler, deeds, incoming),
                    dispatch.processing_redraws,
                ),
            )
        }),
    decreases
            due(dispatch, app).len() - (if dispatch.phase is UserBatch {
                dispatch.phase->remaining as int
            } else {
                0
            }) + notification::arriving(incoming),
            flag(dispatch.phase is UserBatch),
{
    let events = due(dispatch, app);
    let nothing = Seq::<EventWrapper<P>>::empty();
    match dispatch.phase {
        Phase::UserBatch { remaining } => {
            let batch_steps = batch_is_delivered(dispatch, app, incoming);
            let (deeds, left, told_app) = dispatch_run(dispatch, app, incoming, batch_steps);
            let teller = left->0;
            let began = notification::during(incoming, batch_steps);
            let then_in = notification::past(incoming, batch_steps);
            let first = notification::next_in(then_in);
            let later = notification::later_in(then_in);
            notification::undisrupted_in_turn(incoming, batch_steps);
            notification::undisrupted_in_turn(then_in, 1);
            notification::during_in_turn(incoming, batch_steps, 1);
            assert(notification::during(later, 0) =~= Seq::<Notification<H, P>>::empty());
            assert(notification::during(then_in, 1) =~= first);
            assert(notification::past(later, 0) == later);
            assert(notification::past(then_in, 1) == later);
            notification::brought_in_turn(began, first);
            notification::arriving_in_turn(incoming, batch_steps + 1);
            // The handler is told.
            let (progress, advanced) = teller.advanced(told_app);
            let polled = called(progress->Deliver_dispatch, then_in);
            let polled_app = notification::taken_in(advanced, first);
            comes_in(advanced, first, Seq::empty(), advanced.state);
            notification::changed_in_any_state(told_app, advanced.state, first);
            changes_add_up(app, began, told_app, first, polled_app);
            let waiting = events.skip(remaining as int) + notification::brought(
                began + first,
            );
            assert(due(polled, polled_app) =~= waiting);
            assert(dispatch_run(polled, polled_app, later, 0).0 =~= Seq::<Deed<P>>::empty());
            assert(told::<P>() + Seq::<Deed<P>>::empty() =~= told::<P>());
            assert(dispatch_run(teller, told_app, then_in, 1) == (
                told::<P>(),
                Some(polled),
                polled_app,
            ));
            dispatch_goes_on(dispatch, app, incoming, batch_steps, 1);
            // The rest follows.
            let rest_steps = user_dispatch_ends(polled, polled_app, later);
            let (rest, _, after) = dispatch_run(polled, polled_app, later, rest_steps);
            dispatch_goes_on(dispatch, app, incoming, batch_steps + 1, rest_steps);
            let rest_in = notification::during(later, rest.len());
            notification::during_in_turn(incoming, batch_steps + 1, rest.len());
            changes_add_up(app, began + first, polled_app, rest_in, after);
            let begun = deeds + told::<P>();
            handler_after_all(dispatch.handler, deeds, told::<P>(), incoming);
            handler_after_all(dispatch.handler, begun, rest, incoming);
            assert(told::<P>().drop_first() =~= Seq::<Deed<P>>::empty());
            assert(handler_after(teller.handler, told::<P>(), then_in) == polled.handler) by {
                assert(handler_after(polled.handler, told::<P>().drop_first(), later)
                    == polled.handler);
            }
            assert(begun + Seq::<Deed<P>>::empty() =~= begun);
            assert(begun.len() == batch_steps + 1);
            batch_steps + 1 + rest_steps
        },
        _ => {
            if events.len() == 0 {
                assert(notification::during(incoming, 0) =~= Seq::<
                    Notification<H, P>,
                >::empty());
                1
            } else {
                let batch = dispatch.in_phase(Phase::UserBatch { remaining: events.len() as usize });
                assert(events.take(events.len() as int) =~= events);
                assert(events.skip(events.len() as int) =~= nothing);
                assert(batch.advanced(app) == dispatch.advanced(app));
                let steps = user_dispatch_ends(batch, app, incoming);
                assert(dispatch_run(batch, app, incoming, steps) == dispatch_run(
                    dispatch,
                    app,
                    incoming,
                    steps,
                ));
                steps
            }
        },
    }
}

/// So many steps of a task, with what happens while each is performed.
/// `order` is the order in which windows are redrawn.
pub open spec fn task_run<H, P>(
    task: TaskModel<H, P>,
    app: AppModel<H, P>,
    order: Seq<WindowId>,
    incoming: Incoming<H, P>,
    steps: nat,
) -> Run<P, TaskModel<H, P>, AppModel<H, P>>
    decreases steps, 0nat,
{
    if steps == 0 {
        (Seq::empty(), Some(task), app)
    } else {
        let (step, app) = task.advanced(app, order);
        step_run(step, app, order, incoming, (steps - 1) as nat)
    }
}

/// Performing `step`, and so many further steps.
pub open spec fn step_run<H, P>(
    step: StepModel<H, P>,
    app: AppModel<H, P>,
    order: Seq<WindowId>,
    incoming: Incoming<H, P>,
    steps: nat,
) -> Run<P, TaskModel<H, P>, AppModel<H, P>>
    decreases steps, 1nat,
{
    let next = notification::taken_in(app, notification::next_in(incoming));
    let later = notification::later_in(incoming);
    match step {
        StepModel::Deliver { task: TaskModel::Dispatching { dispatch, then }, event, .. } =>
            after_deeds(
            seq![Deed::Delivered(event)],
            task_run(
                TaskModel::Dispatching { dispatch: called(dispatch, incoming), then },
                next,
                order,
                later,
                steps,
            ),
        ),
        StepModel::Deliver { task, event, .. } => after_deeds(
            seq![Deed::Delivered(event)],
            task_run(task, next, order, later, steps),
        ),
        StepModel::ResizeView { task, change } => after_deeds(
            seq![Deed::Resized(change)],
            task_run(task, next, order, later, steps),
        ),
        StepModel::SetUpWindow { task, window } => after_deeds(
            seq![Deed::SetUp(window)],
            task_run(task, next, order, later, steps),
        ),
        StepModel::ShowWindow { task, window } => after_deeds(
            seq![Deed::Shown(window)],
            task_run(task, next, order, later, steps),
        ),
        StepModel::Done => (Seq::empty(), None, app),
    }
}

/// Whether the task comes to its end in so many steps, having done `deeds`,
/// and leaves the loop in `after`.
pub open spec fn task_ends<H, P>(
    task: TaskModel<H, P>,
    app: AppModel<H, P>,
    order: Seq<WindowId>,
    incoming: Incoming<H, P>,
    steps: nat,
    deeds: Seq<Deed<P>>,
    after: AppModel<H, P>,
) -> bool {
    let run = task_run(task, app, order, incoming, steps);
    run.0 == deeds && run.1 is None && run.2 == after
}

/// A dispatch that is part of a task does as on its own; then the task does
/// what follows. Gives the number of steps.
pub(crate) proof fn dispatch_within_task<H, P>(
    dispatch: DispatchModel<H, P>,
    then: ThenModel,
    app: AppModel<H, P>,
    order: Seq<WindowId>,
    incoming: Incoming<H, P>,
    dispatch_steps: nat,
    further_steps: nat,
) -> (steps: nat)
    requires
        dispatch_run(dispatch, app, incoming, dispatch_steps).1 is None,
    ensures
        steps > 0,
        ({
            let run = dispatch_run(dispatch, app, incoming, dispatch_steps);
            let (step, after) = crate::event_loop::then_step(then, run.2, order);
            task_run(TaskModel::Dispatching { dispatch, then }, app, order, incoming, steps)
                == after_deeds(
                run.0,
                step_run(
                    step,
                    after,
                    order,
                    notification::past(incoming, run.0.len()),
                    further_steps,
                ),
            )
        }),
    decreases dispatch_steps,
{
    let run = dispatch_run(dispatch, app, incoming, dispatch_steps);
    let (step, after) = crate::event_loop::then_step(then, run.2, order);
    let followed = step_run(
        step,
        after,
        order,
        notification::past(incoming, run.0.len()),
        further_steps,
    );
    let fewer = (dispatch_steps - 1) as nat;
    let later = notification::later_in(incoming);
    let (progress, advanced) = dispatch.advanced(app);
    let next_app = notification::taken_in(advanced, notification::next_in(incoming));
    match progress {
        ProgressModel::Deliver { dispatch: next, event, .. } => {
            let next = called(next, incoming);
            let steps = dispatch_within_task(
                next,
                then,
                next_app,
                order,
                later,
                fewer,
                further_steps,
            );
            let first = seq![Deed::Delivered(event)];
            let rest = dispatch_run(next, next_app, later, fewer).0;
            assert(first + (rest + followed.0) =~= first + rest + followed.0);
            steps + 1
        },
        ProgressModel::ResizeView { dispatch: next, change } => {
            let steps = dispatch_within_task(
                next,
                then,
                next_app,
                order,
                later,
                fewer,
                further_steps,
            );
            let first: Seq<Deed<P>> = seq![Deed::Resized(change)];
            let rest = dispatch_run(next, next_app, later, fewer).0;
            assert(first + (rest + followed.0) =~= first + rest + followed.0);
            steps + 1
        },
        ProgressModel::Finished => {
            assert(Seq::<Deed<P>>::empty() + followed.0 =~= followed.0);
            further_steps + 1
        },
    }
}

/// Events that arrive between two callbacks are delivered as
/// [`plain_dispatch_ends`] says, from the stage in which they arrive and back
/// to it.
pub(crate) proof fn arrivals_are_delivered<H, P>(
    events: Seq<EventWrapper<P>>,
    app: AppModel<H, P>,
    incoming: Incoming<H, P>,
) -> (steps: nat)
    requires
        app.ready_for_callback(),
        notification::undisrupted(incoming),
    ensures
        ({
            let dispatch = app.events_arrived(events).0->0;
            let (deeds, left, after) = dispatch_run(
                dispatch,
                app.callback_started(),
                incoming,
                steps,
            );
            let came = notification::during(incoming, deeds.len());
            &&& left is None
            &&& deeds == delivery(events + notification::brought(came))
            &&& after == notification::changed(app, came).with_state(
                StateModel::processing(
                    handler_after(app.state.held_handler()->0, deeds, incoming),
                    app.state is ProcessingRedraws,
                ),
            )
        }),
{
    let dispatch = app.events_arrived(events).0->0;
    let started = app.callback_started();
    let steps = plain_dispatch_ends(dispatch, started, incoming);
    let (deeds, _, after) = dispatch_run(dispatch, started, incoming, steps);
    let came = notification::during(incoming, deeds.len());
    assert(due(dispatch, started) =~= events);
    let all = delivery(events + notification::brought(came));
    assert(Seq::<Deed<P>>::empty() + all =~= all);
    notification::changed_in_any_state(app, started.state, came);
    steps
}

/// What a loop that processes the redraws does with the requests: their events
/// are delivered, and then that the loop is about to wait. Gives the number of
/// steps, and the deeds up to the second and from there on.
proof fn redraw_task_ends<H, P>(
    requests: Seq<EventWrapper<P>>,
    app: AppModel<H, P>,
    order: Seq<WindowId>,
    incoming: Incoming<H, P>,
) -> (ended: (nat, Seq<Deed<P>>, Seq<Deed<P>>))
    requires
        app.state is ProcessingRedraws,
        notification::undisrupted(incoming),
    ensures
        ended.0 > 0,
        ({
            let (steps, redraws, last) = ended;
            let redraws_in = notification::during(incoming, redraws.len());
            let last_in = notification::during(
                notification::past(incoming, redraws.len()),
                last.len(),
            );
            &&& redraws == delivery(requests + notification::brought(redraws_in))
            &&& last == delivery(
                seq![EventWrapper::<P>::StaticEvent(Event::AboutToWait)]
                    + notification::brought(last_in),
            )
            &&& task_ends(
                TaskModel::Dispatching {
                    dispatch: app.events_arrived(requests).0->0,
                    then: ThenModel::AboutToWait,
                },
                app.callback_started(),
                order,
                incoming,
                steps,
                redraws + last,
                notification::changed(app, redraws_in + last_in).with_state(
                    StateModel::ProcessingRedraws {
                        handler: handler_after(
                            app.state->ProcessingRedraws_handler,
                            redraws + last,
                            incoming,
                        ),
                    },
                ),
            )
        }),
{
    let dispatch = app.events_arrived(requests).0->0;
    let started = app.callback_started();
    let wrapper = EventWrapper::<P>::StaticEvent(Event::AboutToWait);
    // The requests, by themselves.
    let redraw_steps = arrivals_are_delivered(requests, app, incoming);
    let (redraws, _, redrawn) = dispatch_run(dispatch, started, incoming, redraw_steps);
    let redraws_in = notification::during(incoming, redraws.len());
    let rest_in = notification::past(incoming, redraws.len());
    notification::undisrupted_in_turn(incoming, redraws.len());
    // Telling the application, by itself.
    let about_to_wait = redrawn.events_arrived(seq![wrapper]).0->0;
    let told_steps = arrivals_are_delivered(seq![wrapper], redrawn, rest_in);
    let (last, _, after) = dispatch_run(
        about_to_wait,
        redrawn.callback_started(),
        rest_in,
        told_steps,
    );
    let last_in = notification::during(rest_in, last.len());
    changes_add_up(app, redraws_in, redrawn, last_in, after);
    handler_after_all(app.state->ProcessingRedraws_handler, redraws, last, incoming);
    let last_steps = dispatch_within_task(
        about_to_wait,
        ThenModel::Nothing,
        redrawn.callback_started(),
        order,
        rest_in,
        told_steps,
        0,
    );
    assert(last + Seq::<Deed<P>>::empty() =~= last);
    // One after the other.
    reveal_with_fuel(crate::event_loop::then_step, 2);
    reveal_with_fuel(crate::event_loop::arrival_step, 2);
    let steps = dispatch_within_task(
        dispatch,
        ThenModel::AboutToWait,
        started,
        order,
        incoming,
        redraw_steps,
        (last_steps - 1) as nat,
    );
    let (step, following) = crate::event_loop::then_step(ThenModel::AboutToWait, redrawn, order);
    assert(step_run(step, following, order, rest_in, (last_steps - 1) as nat) == task_run(
        TaskModel::Dispatching { dispatch: about_to_wait, then: ThenModel::Nothing },
        redrawn.callback_started(),
        order,
        rest_in,
        last_steps,
    ));
    (steps, redraws, last)
}

/// One iteration of the loop. After the main events the handler is told of its
/// user events, with the batches that come in meanwhile. Then each window that
/// has asked for it by now is asked to redraw, once, and the application is
/// told that the loop is about to wait; what comes in during either is
/// delivered right behind it. Redraw requests that come in from the redraws on
/// are kept for the next iteration, and the handler, as the calls have left it,
/// is kept for the loop to wait. Gives the number of steps, and what is done
/// from the redraws and from the last event on.
pub proof fn an_iteration_comes_to_its_end<H, P>(
    app: AppModel<H, P>,
    order: Seq<WindowId>,
    incoming: Incoming<H, P>,
) -> (ended: (nat, Seq<Deed<P>>, Seq<Deed<P>>))
    requires
        app.state is ProcessingEvents,
        notification::undisrupted(incoming),
        notification::arriving(incoming) <= usize::MAX,
        ({
            let user = user_delivery::<H, P>(Seq::empty(), Seq::empty(), Seq::empty(), incoming);
            let user_in = notification::during(incoming, user.len());
            crate::event_loop::walks(
                order,
                notification::changed(app, user_in).queued_gpu_redraws,
            )
        }),
    ensures
        ({
            let (steps, redraws, last) = ended;
            let user = user_delivery::<H, P>(Seq::empty(), Seq::empty(), Seq::empty(), incoming);
            let user_in = notification::during(incoming, user.len());
            let then_in = notification::past(incoming, user.len());
            let redraws_in = notification::during(then_in, redraws.len());
            let last_in = notification::during(
                notification::past(then_in, redraws.len()),
                last.len(),
            );
            &&& redraws == delivery(
                crate::event::each_window(order, WindowEvent::RedrawRequested)
                    + notification::brought(redraws_in),
            )
            &&& last == delivery(
                seq![EventWrapper::<P>::StaticEvent(Event::AboutToWait)]
                    + notification::brought(last_in),
            )
            &&& task_ends(
                app.main_events_over().0->0,
                app.main_events_over().1,
                order,
                incoming,
                steps,
                user + (redraws + last),
                notification::changed(
                    notification::changed(app, user_in).main_events_cleared(),
                    redraws_in + last_in,
                ).with_state(
                    StateModel::ProcessingRedraws {
                        handler: handler_after(
                            app.state->ProcessingEvents_handler,
                            user + (redraws + last),
                            incoming,
                        ),
                    },
                ),
            )
        }),
{
    let dispatch = app.user_events_dispatch();
    let started = app.callback_started();
    let nothing = Seq::<EventWrapper<P>>::empty();
    assert(due(dispatch, started) =~= nothing);
    let user_steps = user_dispatch_ends(dispatch, started, incoming);
    assert(nothing.take(0) =~= nothing);
    assert(nothing.skip(0) =~= nothing);
    let (user, _, told_app) = dispatch_run(dispatch, started, incoming, user_steps);
    let user_in = notification::during(incoming, user.len());
    let then_in = notification::past(incoming, user.len());
    notification::undisrupted_in_turn(incoming, user.len());
    notification::changed_in_any_state(app, started.state, user_in);
    let cleared = told_app.main_events_cleared();
    let requests = crate::event::each_window(order, WindowEvent::<P>::RedrawRequested);
    let (redraw_steps, redraws, last) = redraw_task_ends(requests, cleared, order, then_in);
    let handler = app.state->ProcessingEvents_handler;
    handler_after_all(handler, user, redraws + last, incoming);
    let redraws_in = notification::during(then_in, redraws.len());
    let last_in = notification::during(
        notification::past(then_in, redraws.len()),
        last.len(),
    );
    notification::changed_in_any_state(
        notification::changed(app, user_in).main_events_cleared(),
        cleared.state,
        redraws_in + last_in,
    );
    reveal_with_fuel(crate::event_loop::then_step, 2);
    reveal_with_fuel(crate::event_loop::arrival_step, 2);
    let steps = dispatch_within_task(
        dispatch,
        ThenModel::Redraw,
        started,
        order,
        incoming,
        user_steps,
        (redraw_steps - 1) as nat,
    );
    let (step, following) = crate::event_loop::then_step(ThenModel::Redraw, told_app, order);
    assert(step_run(step, following, order, then_in, (redraw_steps - 1) as nat) == task_run(
        TaskModel::Dispatching {
            dispatch: cleared.events_arrived(requests).0->0,
            then: ThenModel::AboutToWait,
        },
        cleared.callback_started(),
        order,
        then_in,
        redraw_steps,
    ));
    (steps, redraws, last)
}

/// Setting up windows, one by one.
pub open spec fn setting_up<P>(windows: Seq<WindowId>) -> Seq<Deed<P>> {
    Seq::new(windows.len(), |i: int| Deed::SetUp(windows[i]))
}

/// Showing windows, one by one.
pub open spec fn showing<P>(windows: Seq<WindowId>) -> Seq<Deed<P>> {
    Seq::new(windows.len(), |i: int| Deed::Shown(windows[i]))
}

/// Windows are shown in their order, each once, as long as what comes in
/// meanwhile begins no task and does not have the loop end. Nothing about the
/// loop changes but what comes in to change it. Gives the number of steps.
pub proof fn windows_are_shown_in_order<H, P>(
    windows: Seq<WindowId>,
    app: AppModel<H, P>,
    order: Seq<WindowId>,
    incoming: Incoming<H, P>,
) -> (steps: nat)
    requires
        notification::all_quiet(app, notification::during(incoming, windows.len())),
    ensures
        task_ends(
            TaskModel::Showing { windows },
            app,
            order,
            incoming,
            steps,
            showing(windows),
            notification::taken_in(app, notification::during(incoming, windows.len())),
        ),
    decreases windows.len(),
{
    if windows.len() == 0 {
        assert(showing::<P>(windows) =~= Seq::<Deed<P>>::empty());
        1
    } else {
        let first = notification::next_in(incoming);
        let later = notification::later_in(incoming);
        let rest = windows.drop_first();
        let rest_in = notification::during(later, rest.len());
        assert(notification::during(incoming, windows.len()) == first + rest_in);
        notification::taken_in_in_turn(app, first, rest_in);
        let steps = windows_are_shown_in_order(
            rest,
            notification::taken_in(app, first),
            order,
            later,
        );
        assert(seq![Deed::Shown(windows[0])] + showing::<P>(rest) =~= showing::<P>(windows));
        steps + 1
    }
}

/// From setting up the windows to the end of the launch. Gives the number of
/// steps.
proof fn setting_up_ends<H, P>(
    windows: Seq<WindowId>,
    app: AppModel<H, P>,
    order: Seq<WindowId>,
    incoming: Incoming<H, P>,
) -> (steps: nat)
    requires
        app.state is Launching,
        app.state->Launching_queued_windows.len() == 0,
        notification::undisrupted(incoming),
    ensures
        ({
            let (deeds, left, after) = task_run(
                TaskModel::SettingUp { windows },
                app,
                order,
                incoming,
                steps,
            );
            let came = notification::during(incoming, deeds.len());
            &&& left is None
            &&& deeds == setting_up(windows) + delivery(
                seq![EventWrapper::<P>::StaticEvent(Event::NewEvents(StartCause::Init))]
                    + app.state->Launching_queued_events + notification::brought(came),
            )
            &&& after == notification::changed(app, came).with_state(
                StateModel::ProcessingEvents {
                    handler: handler_after(app.state->Launching_queued_handler, deeds, incoming),
                },
            )
        }),
    decreases windows.len(),
{
    let init = seq![EventWrapper::<P>::StaticEvent(Event::NewEvents(StartCause::Init))];
    let kept = app.state->Launching_queued_events;
    if windows.len() > 0 {
        let first = notification::next_in(incoming);
        let later = notification::later_in(incoming);
        notification::undisrupted_in_turn(incoming, 1);
        assert(notification::past(later, 0) == later);
        assert(notification::past(incoming, 1) == later);
        notification::taken_in_while_events_are_kept(app, first);
        let next_app = notification::taken_in(app, first);
        let steps = setting_up_ends(windows.drop_first(), next_app, order, later);
        let rest = task_run(
            TaskModel::SettingUp { windows: windows.drop_first() },
            next_app,
            order,
            later,
            steps,
        ).0;
        let came = notification::during(later, rest.len());
        notification::brought_in_turn(first, came);
        let aside = notification::changed(app, first);
        notification::changed_in_any_state(aside, next_app.state, came);
        notification::changed_in_turn(app, first, came);
        assert((seq![Deed::SetUp(windows[0])] + rest).drop_first() =~= rest);
        assert(init + (kept + notification::brought(first)) + notification::brought(
            came,
        ) =~= init + kept + notification::brought(first + came));
        let others = delivery(init + kept + notification::brought(first + came));
        assert(seq![Deed::SetUp(windows[0])] + (setting_up::<P>(windows.drop_first()) + others)
            =~= setting_up::<P>(windows) + others);
        steps + 1
    } else {
        let launched = app.processing_events();
        let events = init + kept;
        let dispatch = launched.events_arrived(events).0->0;
        let started = launched.callback_started();
        let no_windows = app.state->Launching_queued_windows;
        let own_steps = arrivals_are_delivered(events, launched, incoming);
        let (deeds, _, after) = dispatch_run(dispatch, started, incoming, own_steps);
        let came = notification::during(incoming, deeds.len());
        notification::changed_in_any_state(app, launched.state, came);
        let steps = dispatch_within_task(
            dispatch,
            ThenModel::ShowWindows(no_windows),
            started,
            order,
            incoming,
            own_steps,
            0,
        );
        assert(task_run(TaskModel::SettingUp { windows }, app, order, incoming, steps) == task_run(
            TaskModel::Dispatching { dispatch, then: ThenModel::ShowWindows(no_windows) },
            started,
            order,
            incoming,
            steps,
        ));
        assert(deeds + Seq::<Deed<P>>::empty() =~= deeds);
        assert(setting_up::<P>(windows) + deeds =~= deeds);
        steps
    }
}

/// A launch: the windows made before it are set up in their order; then the
/// first event that the application gets is that the loop starts, followed by
/// all events that were kept and all that come in meanwhile, during the set-up
/// or later, in their order, each once. Then the loop processes events, with
/// the handler that it was handed, as the calls have left it, and nothing else
/// has changed but what came in to change it. Gives the number of steps.
pub proof fn a_launch_comes_to_its_end<H, P>(
    app: AppModel<H, P>,
    order: Seq<WindowId>,
    incoming: Incoming<H, P>,
) -> (steps: nat)
    requires
        app.state is Launching,
        notification::undisrupted(incoming),
    ensures
        ({
            let (task, begun) = app.launch_finished();
            let (deeds, left, after) = task_run(task->0, begun, order, incoming, steps);
            let came = notification::during(incoming, deeds.len());
            &&& left is None
            &&& deeds == setting_up(app.state->Launching_queued_windows) + delivery(
                seq![EventWrapper::<P>::StaticEvent(Event::NewEvents(StartCause::Init))]
                    + app.state->Launching_queued_events + notification::brought(came),
            )
            &&& after == notification::changed(begun, came).with_state(
                StateModel::ProcessingEvents {
                    handler: handler_after(app.state->Launching_queued_handler, deeds, incoming),
                },
            )
        }),
{
    let begun = app.launch_finished().1;
    let windows = app.state->Launching_queued_windows;
    setting_up_ends(windows, begun, order, incoming)
}

/// The application terminates while no callback runs: each of the loop's own
/// windows that the platform lists is told of its end, in the order of the
/// list, and at the very end that the loop exits. What comes in meanwhile is
/// not delivered. Gives the number of steps.
pub proof fn a_termination_comes_to_its_end<H, P>(
    app: AppModel<H, P>,
    listed: Seq<Option<WindowId>>,
    order: Seq<WindowId>,
    incoming: Incoming<H, P>,
) -> (steps: nat)
    requires
        !(app.state is NotLaunched),
        !app.terminating(),
        !app.in_callback(),
        no_second_launch(incoming),
    ensures
        ({
            let last = last_delivery(
                crate::event::each_window(
                    crate::event::own_windows(listed),
                    WindowEvent::Destroyed,
                ),
            );
            task_ends(
                app.application_terminated(listed).0->0,
                app.application_terminated(listed).1,
                order,
                incoming,
                steps,
                last,
                notification::changed(
                    app.shut_down(),
                    notification::during(incoming, last.len()),
                ),
            )
        }),
{
    let (task, ended) = app.application_terminated(listed);
    let dispatch = task->0->dispatch;
    let own_steps = exiting_dispatch_ends(dispatch, ended, incoming);
    let steps = dispatch_within_task(
        dispatch,
        ThenModel::Nothing,
        ended,
        order,
        incoming,
        own_steps,
        0,
    );
    assert(last_delivery(dispatch.pending) + Seq::<Deed<P>>::empty() =~= last_delivery(
        dispatch.pending,
    ));
    steps
}

/// The application terminates while a callback runs: once it has returned,
/// the same events are delivered, and nothing of what was pending or comes in
/// meanwhile. Gives the number of steps.
pub proof fn a_deferred_termination_comes_to_its_end<H, P>(
    dispatch: DispatchModel<H, P>,
    app: AppModel<H, P>,
    listed: Seq<Option<WindowId>>,
    incoming: Incoming<H, P>,
) -> (steps: nat)
    requires
        !dispatch.exiting(),
        dispatch.ready(app),
        !app.terminating(),
        no_second_launch(incoming),
    ensures
        app.application_terminated(listed).0 is None,
        ({
            let requested = app.application_terminated(listed).1;
            let (deeds, left, after) = dispatch_run(dispatch, requested, incoming, steps);
            &&& left is None
            &&& deeds == last_delivery(
                crate::event::each_window(
                    crate::event::own_windows(listed),
                    WindowEvent::<P>::Destroyed,
                ),
            )
            &&& after == notification::changed(
                app.shut_down(),
                notification::during(incoming, deeds.len()),
            )
        }),
{
    let requested = app.application_terminated(listed).1;
    assert(requested.shut_down() == app.shut_down());
    terminated_dispatch_ends(dispatch, requested, incoming)
}

} // verus!
