//! What can come in from outside, alone or in the course of a run.

use vstd::prelude::*;

use crate::app_state::ControlFlow;
use crate::event::{Event, EventWrapper, WindowId};
use crate::event_loop::TaskModel;
use crate::model::{AppModel, StateModel};
use crate::time::Instant;

verus! {

/// Everything that can come in from outside, at any time.
pub enum Notification<H, P> {
    WillLaunch(H),
    LaunchFinished,
    Events(Seq<EventWrapper<P>>),
    BecameActive,
    WillResignActive,
    Wakeup(Instant),
    MainEventsCleared,
    EventsCleared(Instant),
    Terminated(Seq<Option<WindowId>>),
    KeyWindow(WindowId),
    RedrawQueued(WindowId),
    ControlFlowSet(ControlFlow),
    TimerProgrammed,
}

impl<H, P> Notification<H, P> {
    /// Whether this may come in while the loop is in `app`.
    pub open spec fn allowed(self, app: AppModel<H, P>) -> bool {
        match self {
            Notification::WillLaunch(_) => app.state is NotLaunched,
            Notification::LaunchFinished => app.terminating() || app.state is Launching,
            Notification::Events(_) => app.accepts_events(),
            Notification::BecameActive => app.accepts_events(),
            Notification::WillResignActive => app.accepts_events(),
            Notification::Wakeup(_) => app.running() && !app.in_callback() ==> app.expects_wakeup(),
            Notification::MainEventsCleared => app.running() && !app.in_callback()
                ==> app.state is ProcessingEvents,
            Notification::EventsCleared(_) => app.running() && !app.in_callback()
                ==> app.state is ProcessingRedraws,
            Notification::Terminated(_) => !(app.state is NotLaunched),
            Notification::KeyWindow(_) => app.accepts_windows(),
            Notification::RedrawQueued(_) => true,
            Notification::ControlFlowSet(_) => true,
            Notification::TimerProgrammed => true,
        }
    }

    /// The task that this begins, if it begins one, and what becomes of `app`.
    pub open spec fn effect(self, app: AppModel<H, P>) -> (
        Option<TaskModel<H, P>>,
        AppModel<H, P>,
    ) {
        match self {
            Notification::WillLaunch(handler) => (None, app.launching(handler)),
            Notification::LaunchFinished => app.launch_finished(),
            Notification::Events(events) => app.handling(events),
            Notification::BecameActive => app.application_active_set(true).handling(
                seq![EventWrapper::StaticEvent(Event::Resumed)],
            ),
            Notification::WillResignActive => app.application_active_set(false).handling(
                seq![EventWrapper::StaticEvent(Event::Suspended)],
            ),
            Notification::Wakeup(now) => app.woken(now),
            Notification::MainEventsCleared => app.main_events_over(),
            Notification::EventsCleared(now) => (None, app.all_events_over(now)),
            Notification::Terminated(listed) => app.application_terminated(listed),
            Notification::KeyWindow(window) => (None, app.window_kept(window)),
            Notification::RedrawQueued(window) => (None, app.redraw_queued(window)),
            Notification::ControlFlowSet(control_flow) => (None, AppModel { control_flow, ..app }),
            Notification::TimerProgrammed => (
                None,
                AppModel { waker: app.waker.programmed(), ..app },
            ),
        }
    }
}

impl<H, P> Notification<H, P> {
    /// Whether this neither begins nor ends the loop.
    pub open spec fn ordinary(self) -> bool {
        !(self is WillLaunch || self is LaunchFinished || self is Terminated)
    }

    /// The events that this brings.
    pub open spec fn brings(self) -> Seq<EventWrapper<P>> {
        match self {
            Notification::Events(events) => events,
            Notification::BecameActive => seq![EventWrapper::StaticEvent(Event::Resumed)],
            Notification::WillResignActive => seq![EventWrapper::StaticEvent(Event::Suspended)],
            _ => Seq::empty(),
        }
    }

    /// What this changes about `app` besides its lifecycle state.
    pub open spec fn changes(self, app: AppModel<H, P>) -> AppModel<H, P> {
        match self {
            Notification::BecameActive => app.application_active_set(true),
            Notification::WillResignActive => app.application_active_set(false),
            Notification::RedrawQueued(window) => app.redraw_queued(window),
            Notification::ControlFlowSet(control_flow) => AppModel { control_flow, ..app },
            Notification::TimerProgrammed => AppModel { waker: app.waker.programmed(), ..app },
            _ => app,
        }
    }
}

// ---------------------------------------------------------------------------
// Several notifications
// ---------------------------------------------------------------------------

/// What becomes of `app` when these come in one after the other.
pub open spec fn taken_in<H, P>(
    app: AppModel<H, P>,
    notifications: Seq<Notification<H, P>>,
) -> AppModel<H, P>
    decreases notifications.len(),
{
    if notifications.len() == 0 {
        app
    } else {
        taken_in(notifications[0].effect(app).1, notifications.drop_first())
    }
}

/// The events that these bring, in their order.
pub open spec fn brought<H, P>(notifications: Seq<Notification<H, P>>) -> Seq<EventWrapper<P>>
    decreases notifications.len(),
{
    if notifications.len() == 0 {
        Seq::empty()
    } else {
        notifications[0].brings() + brought(notifications.drop_first())
    }
}

/// What these change about `app`, one after the other, besides its lifecycle
/// state.
pub open spec fn changed<H, P>(
    app: AppModel<H, P>,
    notifications: Seq<Notification<H, P>>,
) -> AppModel<H, P>
    decreases notifications.len(),
{
    if notifications.len() == 0 {
        app
    } else {
        changed(notifications[0].changes(app), notifications.drop_first())
    }
}

/// Whether none of these begins or ends the loop.
pub open spec fn all_ordinary<H, P>(notifications: Seq<Notification<H, P>>) -> bool {
    forall|i: int| 0 <= i < notifications.len() ==> (#[trigger] notifications[i]).ordinary()
}

// ---------------------------------------------------------------------------
// Notifications in the course of a run
// ---------------------------------------------------------------------------

/// What happens while a step of a run is performed.
pub struct Meanwhile<H, P> {
    /// What comes in.
    pub notifications: Seq<Notification<H, P>>,
    /// What the handler is afterwards, if the step calls it and that changes
    /// it.
    pub handler: Option<H>,
}

/// What happens while each step of a run is performed; nothing while later
/// ones are.
pub type Incoming<H, P> = Seq<Meanwhile<H, P>>;

/// What comes in during the next step.
pub open spec fn next_in<H, P>(incoming: Incoming<H, P>) -> Seq<Notification<H, P>> {
    if incoming.len() == 0 {
        Seq::empty()
    } else {
        incoming[0].notifications
    }
}

/// What the next step makes of `handler`, if it calls it.
pub open spec fn called_next<H, P>(handler: H, incoming: Incoming<H, P>) -> H {
    if incoming.len() == 0 {
        handler
    } else {
        match incoming[0].handler {
            Some(changed) => changed,
            None => handler,
        }
    }
}

/// What comes in during the steps after the next one.
pub open spec fn later_in<H, P>(incoming: Incoming<H, P>) -> Incoming<H, P> {
    if incoming.len() == 0 {
        incoming
    } else {
        incoming.drop_first()
    }
}

/// All that comes in during the next so many steps, in order.
pub open spec fn during<H, P>(incoming: Incoming<H, P>, steps: nat) -> Seq<Notification<H, P>>
    decreases steps,
{
    if steps == 0 {
        Seq::empty()
    } else {
        next_in(incoming) + during(later_in(incoming), (steps - 1) as nat)
    }
}

/// What comes in after so many steps.
pub open spec fn past<H, P>(incoming: Incoming<H, P>, steps: nat) -> Incoming<H, P>
    decreases steps,
{
    if steps == 0 {
        incoming
    } else {
        past(later_in(incoming), (steps - 1) as nat)
    }
}

/// How many events come in, in all.
pub open spec fn arriving<H, P>(incoming: Incoming<H, P>) -> nat
    decreases incoming.len(),
{
    if incoming.len() == 0 {
        0
    } else {
        brought(incoming[0].notifications).len() + arriving(incoming.drop_first())
    }
}

/// Whether nothing that comes in begins or ends the loop.
pub open spec fn undisrupted<H, P>(incoming: Incoming<H, P>) -> bool {
    forall|i: int|
        0 <= i < incoming.len() ==> all_ordinary((#[trigger] incoming[i]).notifications)
}

/// Whether none of these begins a task or has the loop end.
pub open spec fn all_quiet<H, P>(
    app: AppModel<H, P>,
    notifications: Seq<Notification<H, P>>,
) -> bool
    decreases notifications.len(),
{
    !app.terminating() && (notifications.len() == 0 || {
        let (task, after) = notifications[0].effect(app);
        task is None && all_quiet(after, notifications.drop_first())
    })
}

// ---------------------------------------------------------------------------
// Facts about them
// ---------------------------------------------------------------------------

pub(crate) proof fn brought_in_turn<H, P>(
    first: Seq<Notification<H, P>>,
    second: Seq<Notification<H, P>>,
)
    ensures
        brought(first + second) == brought(first) + brought(second),
    decreases first.len(),
{
    if first.len() == 0 {
        assert(first + second =~= second);
    } else {
        assert((first + second).drop_first() =~= first.drop_first() + second);
        brought_in_turn(first.drop_first(), second);
    }
}

pub(crate) proof fn changed_in_turn<H, P>(
    app: AppModel<H, P>,
    first: Seq<Notification<H, P>>,
    second: Seq<Notification<H, P>>,
)
    ensures
        changed(app, first + second) == changed(changed(app, first), second),
    decreases first.len(),
{
    if first.len() == 0 {
        assert(first + second =~= second);
    } else {
        assert((first + second).drop_first() =~= first.drop_first() + second);
        changed_in_turn(first[0].changes(app), first.drop_first(), second);
    }
}

/// What changes besides the lifecycle state does not depend on it, as long as
/// the loop does not end.
pub(crate) proof fn changed_in_any_state<H, P>(
    app: AppModel<H, P>,
    state: StateModel<H, P>,
    notifications: Seq<Notification<H, P>>,
)
    requires
        !app.terminating(),
        !app.with_state(state).terminating(),
    ensures
        changed(app.with_state(state), notifications) == changed(app, notifications).with_state(
            state,
        ),
        changed(app, notifications).state == app.state,
    decreases notifications.len(),
{
    if notifications.len() > 0 {
        let next = notifications[0].changes(app);
        assert(notifications[0].changes(app.with_state(state)) == next.with_state(state));
        changed_in_any_state(next, state, notifications.drop_first());
    }
}

/// Where events are kept, what comes in begins nothing: its events line up
/// behind the earlier ones, and the rest changes as it would anywhere.
pub(crate) proof fn taken_in_while_events_are_kept<H, P>(
    app: AppModel<H, P>,
    notifications: Seq<Notification<H, P>>,
)
    requires
        app.in_callback() || app.state is Launching,
        !app.terminating(),
        all_ordinary(notifications),
    ensures
        taken_in(app, notifications) == changed(app, notifications).events_kept(
            brought(notifications),
        ),
        changed(app, notifications).state == app.state,
    decreases notifications.len(),
{
    changed_in_any_state(app, app.state, notifications);
    if notifications.len() == 0 {
        match app.state {
            StateModel::Launching { queued_events, .. } => {
                assert(queued_events + brought(notifications) =~= queued_events);
            },
            StateModel::InUserCallback { callback } => {
                assert(callback->Running_0 + brought(notifications) =~= callback->Running_0);
            },
            _ => {},
        }
        assert(app == app.events_kept(brought(notifications)));
    } else {
        let first = notifications[0];
        let rest = notifications.drop_first();
        assert(first.ordinary());
        assert(all_ordinary(rest)) by {
            assert forall|i: int| 0 <= i < rest.len() implies (#[trigger] rest[i]).ordinary() by {
                assert(rest[i] == notifications[i + 1]);
            }
        }
        let aside = first.changes(app);
        let next = aside.events_kept(first.brings());
        match app.state {
            StateModel::Launching { queued_events, .. } => {
                assert(queued_events + Seq::<EventWrapper<P>>::empty() =~= queued_events);
            },
            StateModel::InUserCallback { callback } => {
                assert(callback->Running_0 + Seq::<EventWrapper<P>>::empty()
                    =~= callback->Running_0);
            },
            _ => {},
        }
        assert(first.effect(app).1 == next);
        taken_in_while_events_are_kept(next, rest);
        changed_in_any_state(aside, next.state, rest);
        changed_in_any_state(aside, aside.state, rest);
        let all = changed(aside, rest);
        match app.state {
            StateModel::Launching { queued_events, .. } => {
                assert(queued_events + first.brings() + brought(rest) =~= queued_events + brought(
                    notifications,
                ));
            },
            StateModel::InUserCallback { callback } => {
                assert(callback->Running_0 + first.brings() + brought(rest)
                    =~= callback->Running_0 + brought(notifications));
            },
            _ => {},
        }
        assert(taken_in(app, notifications) == all.events_kept(brought(notifications)));
    }
}

pub(crate) proof fn taken_in_in_turn<H, P>(
    app: AppModel<H, P>,
    first: Seq<Notification<H, P>>,
    second: Seq<Notification<H, P>>,
)
    ensures
        taken_in(app, first + second) == taken_in(taken_in(app, first), second),
        all_quiet(app, first + second) ==> all_quiet(taken_in(app, first), second),
    decreases first.len(),
{
    if first.len() == 0 {
        assert(first + second =~= second);
    } else {
        assert((first + second).drop_first() =~= first.drop_first() + second);
        taken_in_in_turn(first[0].effect(app).1, first.drop_first(), second);
    }
}

/// Once the loop has ended, what comes in begins nothing, and leaves the
/// lifecycle state as it is.
pub(crate) proof fn taken_in_once_ended<H, P>(
    app: AppModel<H, P>,
    notifications: Seq<Notification<H, P>>,
)
    requires
        app.terminated(),
        forall|i: int| 0 <= i < notifications.len() ==> !(#[trigger] notifications[i] is WillLaunch),
    ensures
        taken_in(app, notifications) == changed(app, notifications),
        changed(app, notifications).terminated(),
    decreases notifications.len(),
{
    if notifications.len() > 0 {
        let rest = notifications.drop_first();
        assert forall|i: int| 0 <= i < rest.len() implies !(#[trigger] rest[i] is WillLaunch) by {
            assert(rest[i] == notifications[i + 1]);
        }
        assert(!(notifications[0] is WillLaunch));
        assert(notifications[0].effect(app).1 == notifications[0].changes(app));
        taken_in_once_ended(notifications[0].changes(app), rest);
    }
}

pub(crate) proof fn during_in_turn<H, P>(incoming: Incoming<H, P>, first: nat, second: nat)
    ensures
        during(incoming, first + second) == during(incoming, first) + during(
            past(incoming, first),
            second,
        ),
        past(incoming, first + second) == past(past(incoming, first), second),
    decreases first,
{
    if first == 0 {
        assert(during(incoming, 0) + during(incoming, second) =~= during(incoming, second));
    } else {
        let fewer = (first - 1) as nat;
        during_in_turn(later_in(incoming), fewer, second);
        assert((first + second - 1) as nat == fewer + second);
        assert(next_in(incoming) + (during(later_in(incoming), fewer) + during(
            past(incoming, first),
            second,
        )) =~= during(incoming, first) + during(past(incoming, first), second));
    }
}

/// No event comes in twice or gets lost between the steps.
pub proof fn arriving_in_turn<H, P>(incoming: Incoming<H, P>, steps: nat)
    ensures
        arriving(incoming) == brought(during(incoming, steps)).len() + arriving(
            past(incoming, steps),
        ),
    decreases steps,
{
    if steps > 0 {
        let fewer = (steps - 1) as nat;
        arriving_in_turn(later_in(incoming), fewer);
        brought_in_turn(next_in(incoming), during(later_in(incoming), fewer));
    }
}

pub(crate) proof fn undisrupted_in_turn<H, P>(incoming: Incoming<H, P>, steps: nat)
    requires
        undisrupted(incoming),
    ensures
        all_ordinary(next_in(incoming)),
        all_ordinary(during(incoming, steps)),
        undisrupted(past(incoming, steps)),
    decreases steps,
{
    let later = later_in(incoming);
    assert forall|i: int| 0 <= i < later.len() implies all_ordinary(
        (#[trigger] later[i]).notifications,
    ) by {
        assert(later[i] == incoming[i + 1]);
    }
    if steps > 0 {
        undisrupted_in_turn(later, (steps - 1) as nat);
    }
}

} // verus!
