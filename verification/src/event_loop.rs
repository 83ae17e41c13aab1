//! What the platform's notifications make the event loop do.
//!
//! Each entry point changes the loop's state and, where something is to be
//! done outside of it, gives a [`Task`]. Whoever drives the task performs its
//! steps one by one; while a step is performed, further notifications may
//! come in.

use std::collections::{HashSet, VecDeque};

use vstd::prelude::*;

use crate::app_state::{AppState, AppStateImpl, TerminationTransition};
use crate::callback_state::extend_queue;
use crate::dispatch::{Dispatch, DispatchModel, Phase, Progress, ProgressModel};
use crate::event::{
    destroyed_events, keep_own_windows, occluded_events, redraw_events, Event, EventWrapper,
    Notice, ScaleFactorChanged, StartCause, WindowEvent, WindowId,
};
use crate::model::AppModel;
use crate::time::{Clock, Instant};

verus! {

broadcast use vstd::std_specs::hash::group_hash_axioms;

/// What follows a dispatch.
#[derive(Debug)]
pub enum Then {
    Nothing,
    /// Showing these windows.
    ShowWindows(VecDeque<WindowId>),
    /// Redrawing the windows that asked for it.
    Redraw,
    /// Telling the application that the loop is about to wait.
    AboutToWait,
}

/// A task for the driver of the loop, between two of its steps.
#[derive(Debug)]
pub enum Task<H, P> {
    /// Events are delivered.
    Dispatching { dispatch: Dispatch<H, P>, then: Then },
    /// Windows that were made before the launch are set up.
    SettingUp { windows: VecDeque<WindowId> },
    /// Windows are shown.
    Showing { windows: VecDeque<WindowId> },
}

/// What the driver of the loop does next.
#[derive(Debug)]
#[must_use]
pub enum Step<H, P> {
    /// Calls the task's handler with the event, then advances.
    Deliver { task: Task<H, P>, event: Event<P>, notice: Notice },
    /// Fits the window's view to the size that the handler settled on, then advances.
    ResizeView { task: Task<H, P>, change: ScaleFactorChanged },
    /// Puts the window on its screen anew and shows it, then advances.
    SetUpWindow { task: Task<H, P>, window: WindowId },
    /// Shows the window, then advances.
    ShowWindow { task: Task<H, P>, window: WindowId },
    /// Nothing.
    Done,
}

/// The mathematical value of [`Then`].
#[verifier::ext_equal]
pub enum ThenModel {
    Nothing,
    ShowWindows(Seq<WindowId>),
    Redraw,
    AboutToWait,
}

/// The mathematical value of a [`Task`].
#[verifier::ext_equal]
pub enum TaskModel<H, P> {
    Dispatching { dispatch: DispatchModel<H, P>, then: ThenModel },
    SettingUp { windows: Seq<WindowId> },
    Showing { windows: Seq<WindowId> },
}

/// The mathematical value of a [`Step`].
#[verifier::ext_equal]
pub enum StepModel<H, P> {
    Deliver { task: TaskModel<H, P>, event: Event<P>, notice: Notice },
    ResizeView { task: TaskModel<H, P>, change: ScaleFactorChanged },
    SetUpWindow { task: TaskModel<H, P>, window: WindowId },
    ShowWindow { task: TaskModel<H, P>, window: WindowId },
    Done,
}

impl View for Then {
    type V = ThenModel;

    open spec fn view(&self) -> ThenModel {
        match *self {
            Then::Nothing => ThenModel::Nothing,
            Then::ShowWindows(windows) => ThenModel::ShowWindows(windows@),
            Then::Redraw => ThenModel::Redraw,
            Then::AboutToWait => ThenModel::AboutToWait,
        }
    }
}

impl<H, P> View for Task<H, P> {
    type V = TaskModel<H, P>;

    open spec fn view(&self) -> TaskModel<H, P> {
        match *self {
            Task::Dispatching { dispatch, then } => TaskModel::Dispatching {
                dispatch: dispatch@,
                then: then@,
            },
            Task::SettingUp { windows } => TaskModel::SettingUp { windows: windows@ },
            Task::Showing { windows } => TaskModel::Showing { windows: windows@ },
        }
    }
}

impl<H, P> View for Step<H, P> {
    type V = StepModel<H, P>;

    open spec fn view(&self) -> StepModel<H, P> {
        match *self {
            Step::Deliver { task, event, notice } => StepModel::Deliver {
                task: task@,
                event,
                notice,
            },
            Step::ResizeView { task, change } => StepModel::ResizeView { task: task@, change },
            Step::SetUpWindow { task, window } => StepModel::SetUpWindow { task: task@, window },
            Step::ShowWindow { task, window } => StepModel::ShowWindow { task: task@, window },
            Step::Done => StepModel::Done,
        }
    }
}

/// The mathematical value of a task, if there is one.
pub open spec fn task_model<H, P>(task: Option<Task<H, P>>) -> Option<TaskModel<H, P>> {
    match task {
        Some(task) => Some(task@),
        None => None,
    }
}

impl ThenModel {
    /// How many further dispatches may follow, at most.
    pub open spec fn dispatches(self) -> nat {
        match self {
            ThenModel::Redraw => 2,
            ThenModel::AboutToWait => 1,
            _ => 0,
        }
    }
}

/// Whether `order` is one of the orders in which the set can be walked.
pub open spec fn walks(order: Seq<WindowId>, windows: Set<u64>) -> bool {
    &&& order.no_duplicates()
    &&& forall|raw: u64| windows.contains(raw) <==> #[trigger] order.contains(WindowId { raw })
}

/// The windows are shown one after the other, until the loop ends.
pub open spec fn show_step<H, P>(windows: Seq<WindowId>, app: AppModel<H, P>) -> StepModel<H, P> {
    if app.terminating() || windows.len() == 0 {
        StepModel::Done
    } else {
        StepModel::ShowWindow {
            task: TaskModel::Showing { windows: windows.drop_first() },
            window: windows[0],
        }
    }
}

/// What comes after a dispatch. `order` is the order in which the windows that
/// asked for a redraw get one.
pub open spec fn then_step<H, P>(
    then: ThenModel,
    app: AppModel<H, P>,
    order: Seq<WindowId>,
) -> (StepModel<H, P>, AppModel<H, P>)
    decreases then.dispatches(), 0nat,
{
    match then {
        ThenModel::Nothing => (StepModel::Done, app),
        ThenModel::ShowWindows(windows) => (show_step(windows, app), app),
        ThenModel::Redraw => if app.terminating() {
            (StepModel::Done, app)
        } else {
            arrival_step(
                crate::event::each_window(order, WindowEvent::RedrawRequested),
                ThenModel::AboutToWait,
                app.main_events_cleared(),
                order,
            )
        },
        ThenModel::AboutToWait => arrival_step(
            seq![EventWrapper::StaticEvent(Event::AboutToWait)],
            ThenModel::Nothing,
            app,
            order,
        ),
    }
}

/// What comes when `events` arrive, with something to follow them.
pub open spec fn arrival_step<H, P>(
    events: Seq<EventWrapper<P>>,
    then: ThenModel,
    app: AppModel<H, P>,
    order: Seq<WindowId>,
) -> (StepModel<H, P>, AppModel<H, P>)
    decreases then.dispatches(), 2nat,
{
    let (dispatch, app) = app.events_arrived(events);
    match dispatch {
        Some(dispatch) => dispatch_step(dispatch, then, app, order),
        None => then_step(then, app, order),
    }
}

/// What comes next of a dispatch that something follows.
pub open spec fn dispatch_step<H, P>(
    dispatch: DispatchModel<H, P>,
    then: ThenModel,
    app: AppModel<H, P>,
    order: Seq<WindowId>,
) -> (StepModel<H, P>, AppModel<H, P>)
    decreases then.dispatches(), 1nat,
{
    let (progress, app) = dispatch.advanced(app);
    match progress {
        ProgressModel::Deliver { dispatch, event, notice } => (
            StepModel::Deliver { task: TaskModel::Dispatching { dispatch, then }, event, notice },
            app,
        ),
        ProgressModel::ResizeView { dispatch, change } => (
            StepModel::ResizeView { task: TaskModel::Dispatching { dispatch, then }, change },
            app,
        ),
        ProgressModel::Finished => then_step(then, app, order),
    }
}

impl<H, P> TaskModel<H, P> {
    pub open spec fn wf(self) -> bool {
        match self {
            TaskModel::Dispatching { dispatch, then } => {
                &&& dispatch.wf()
                &&& then is Redraw ==> !dispatch.processing_redraws
            },
            _ => true,
        }
    }

    /// Whether `app` is as the task left it, apart from what nested calls may
    /// do to it.
    pub open spec fn ready(self, app: AppModel<H, P>) -> bool {
        match self {
            TaskModel::Dispatching { dispatch, .. } => dispatch.ready(app),
            TaskModel::SettingUp { .. } => app.terminating() || app.state is Launching,
            TaskModel::Showing { .. } => true,
        }
    }

    /// Whether the next step begins the redraws.
    pub open spec fn begins_redraws(self, app: AppModel<H, P>) -> bool {
        match self {
            TaskModel::Dispatching { dispatch, then } => {
                let (progress, app) = dispatch.advanced(app);
                then is Redraw && progress is Finished && !app.terminating()
            },
            _ => false,
        }
    }

    /// The next step, once the driver has performed the one before and left
    /// the loop in `app`; and what becomes of `app`.
    pub open spec fn advanced(self, app: AppModel<H, P>, order: Seq<WindowId>) -> (
        StepModel<H, P>,
        AppModel<H, P>,
    ) {
        match self {
            TaskModel::Dispatching { dispatch, then } => dispatch_step(dispatch, then, app, order),
            TaskModel::SettingUp { windows } => if app.terminating() {
                (StepModel::Done, app)
            } else if windows.len() > 0 {
                (
                    StepModel::SetUpWindow {
                        task: TaskModel::SettingUp { windows: windows.drop_first() },
                        window: windows[0],
                    },
                    app,
                )
            } else {
                arrival_step(
                    seq![EventWrapper::StaticEvent(Event::NewEvents(StartCause::Init))]
                        + app.state->Launching_queued_events,
                    ThenModel::ShowWindows(app.state->Launching_queued_windows),
                    app.processing_events(),
                    order,
                )
            },
            TaskModel::Showing { windows } => (show_step(windows, app), app),
        }
    }
}

impl<H, P> StepModel<H, P> {
    /// The task that goes on, if one does.
    pub open spec fn task(self) -> Option<TaskModel<H, P>> {
        match self {
            StepModel::Deliver { task, .. } => Some(task),
            StepModel::ResizeView { task, .. } => Some(task),
            StepModel::SetUpWindow { task, .. } => Some(task),
            StepModel::ShowWindow { task, .. } => Some(task),
            StepModel::Done => None,
        }
    }

    /// Whether the task that goes on, if one does, is in order and `app` is as
    /// it expects.
    pub open spec fn goes_on_in(self, app: AppModel<H, P>) -> bool {
        self.task() matches Some(task) ==> task.wf() && task.ready(app)
    }
}

/// Walks the windows that asked for a redraw, in no particular order.
fn walk_windows(windows: HashSet<u64>) -> (order: Vec<WindowId>)
    ensures
        walks(order@, windows@),
{
    let ghost keys = vstd::std_specs::iter::IteratorSpec::remaining(&windows.iter());
    let mut order: Vec<WindowId> = Vec::new();
    for raw in iter: windows.iter()
        invariant
            iter.seq() == keys,
            order@.len() == iter.index(),
            forall|i: int| 0 <= i < order@.len() ==> (#[trigger] order@[i]).raw == *keys[i],
    {
        order.push(WindowId { raw: *raw });
    }
    proof {
        assert forall|raw: u64| windows@.contains(raw) <==> #[trigger] order@.contains(
            WindowId { raw },
        ) by {
            assert(windows@.contains(raw) <==> keys.unref().contains(raw));
            if keys.unref().contains(raw) {
                let i = choose|i: int| 0 <= i < keys.len() && keys.unref()[i] == raw;
                assert(order@[i] == WindowId { raw });
            }
            if order@.contains(WindowId { raw }) {
                let i = choose|i: int| 0 <= i < order@.len() && order@[i] == WindowId { raw };
                assert(keys.unref()[i] == raw);
            }
        }
    }
    order
}

/// Shows the next of `windows`.
fn show_next<H, P>(windows: VecDeque<WindowId>, app: &AppState<H, P>) -> (step: Step<H, P>)
    requires
        app.wf(),
    ensures
        step@ == show_step(windows@, app@),
{
    if app.is_terminating() {
        return Step::Done;
    }
    let mut windows = windows;
    match windows.pop_front() {
        Some(window) => Step::ShowWindow { task: Task::Showing { windows }, window },
        None => Step::Done,
    }
}

/// Goes on after a dispatch, where no redraws are due.
fn follow<H, P>(then: Then, app: &mut AppState<H, P>, Ghost(order): Ghost<Seq<WindowId>>) -> (step:
    Step<H, P>)
    requires
        old(app).wf(),
        !(then is Redraw),
        then is AboutToWait ==> old(app)@.accepts_events(),
    ensures
        final(app).wf(),
        (step@, final(app)@) == then_step(then@, old(app)@, order),
        step@.goes_on_in(final(app)@),
    decreases then@.dispatches(), 0nat,
{
    match then {
        Then::AboutToWait => {
            let events = vec![EventWrapper::StaticEvent(Event::AboutToWait)];
            assert(events@ =~= seq![EventWrapper::StaticEvent(Event::<P>::AboutToWait)]);
            arrive(events, Then::Nothing, app, Ghost(order))
        },
        Then::ShowWindows(windows) => show_next(windows, app),
        _ => Step::Done,
    }
}

/// Takes in `events`, where no redraws are due after them.
fn arrive<H, P>(
    events: Vec<EventWrapper<P>>,
    then: Then,
    app: &mut AppState<H, P>,
    Ghost(order): Ghost<Seq<WindowId>>,
) -> (step: Step<H, P>)
    requires
        old(app).wf(),
        old(app)@.accepts_events(),
        !(then is Redraw),
    ensures
        final(app).wf(),
        (step@, final(app)@) == arrival_step(events@, then@, old(app)@, order),
        step@.goes_on_in(final(app)@),
    decreases then@.dispatches(), 2nat,
{
    match Dispatch::of_events(app, events) {
        Some(dispatch) => resume(dispatch, then, app, Ghost(order)),
        None => follow(then, app, Ghost(order)),
    }
}

/// Goes on with a dispatch, where no redraws are due after it.
fn resume<H, P>(
    dispatch: Dispatch<H, P>,
    then: Then,
    app: &mut AppState<H, P>,
    Ghost(order): Ghost<Seq<WindowId>>,
) -> (step: Step<H, P>)
    requires
        old(app).wf(),
        dispatch.wf(),
        dispatch@.ready(old(app)@),
        !(then is Redraw),
    ensures
        final(app).wf(),
        (step@, final(app)@) == dispatch_step(dispatch@, then@, old(app)@, order),
        step@.goes_on_in(final(app)@),
    decreases then@.dispatches(), 1nat,
{
    match dispatch.advance(app) {
        Progress::Deliver { dispatch, event, notice } => Step::Deliver {
            task: Task::Dispatching { dispatch, then },
            event,
            notice,
        },
        Progress::ResizeView { dispatch, change } => Step::ResizeView {
            task: Task::Dispatching { dispatch, then },
            change,
        },
        Progress::Finished => follow(then, app, Ghost(order)),
    }
}

/// Asks the windows to redraw in the given order, then tells the application
/// that the loop is about to wait.
pub fn redraw_in_order<H, P>(windows: Vec<WindowId>, app: &mut AppState<H, P>) -> (step: Step<H, P>)
    requires
        old(app).wf(),
        old(app)@.accepts_events(),
    ensures
        final(app).wf(),
        (step@, final(app)@) == arrival_step(
            crate::event::each_window(windows@, WindowEvent::RedrawRequested),
            ThenModel::AboutToWait,
            old(app)@,
            windows@,
        ),
        step@.goes_on_in(final(app)@),
{
    let ghost order = windows@;
    arrive(redraw_events(windows), Then::AboutToWait, app, Ghost(order))
}

impl<H, P> Task<H, P> {
    pub open spec fn wf(&self) -> bool {
        self@.wf()
    }

    /// Whether the loop's state is as the task left it, apart from what
    /// nested calls may do to it.
    pub fn is_ready(&self, app: &AppState<H, P>) -> (ready: bool)
        requires
            app.wf(),
        ensures
            ready == self@.ready(app@),
    {
        match self {
            Task::Dispatching { dispatch, .. } => dispatch.is_ready(app),
            Task::SettingUp { .. } => {
                app.is_terminating() || matches!(app.state(), AppStateImpl::Launching { .. })
            },
            Task::Showing { .. } => true,
        }
    }

    /// The handler to call, while events are delivered.
    pub fn handler(&mut self) -> (handler: Option<&mut H>)
        ensures
            match old(self)@ {
                TaskModel::Dispatching { dispatch, then } => {
                    &&& handler matches Some(handler)
                    &&& *handler == dispatch.handler
                    &&& final(self)@ == (TaskModel::Dispatching {
                        dispatch: DispatchModel { handler: *final(handler), ..dispatch },
                        then,
                    })
                },
                _ => handler is None && final(self)@ == old(self)@,
            },
    {
        match self {
            Task::Dispatching { dispatch, .. } => Some(dispatch.handler()),
            _ => None,
        }
    }

    /// Goes on after the driver has performed the last step.
    pub fn advance(self, app: &mut AppState<H, P>) -> (step: Step<H, P>)
        requires
            old(app).wf(),
            self.wf(),
            self@.ready(old(app)@),
        ensures
            final(app).wf(),
            exists|order: Seq<WindowId>|
                {
                    &&& (step@, final(app)@) == #[trigger] self@.advanced(old(app)@, order)
                    &&& self@.begins_redraws(old(app)@) ==> walks(
                        order,
                        old(app)@.queued_gpu_redraws,
                    )
                },
            step@.goes_on_in(final(app)@),
    {
        let ghost task = self@;
        let ghost before = app@;
        match self {
            Task::Dispatching { dispatch, then: Then::Redraw } => match dispatch.advance(app) {
                Progress::Deliver { dispatch, event, notice } => {
                    let step = Step::Deliver {
                        task: Task::Dispatching { dispatch, then: Then::Redraw },
                        event,
                        notice,
                    };
                    assert((step@, app@) == task.advanced(before, Seq::empty()));
                    step
                },
                Progress::ResizeView { dispatch, change } => {
                    let step = Step::ResizeView {
                        task: Task::Dispatching { dispatch, then: Then::Redraw },
                        change,
                    };
                    assert((step@, app@) == task.advanced(before, Seq::empty()));
                    step
                },
                Progress::Finished => {
                    if app.is_terminating() {
                        assert((StepModel::<H, P>::Done, app@) == task.advanced(
                            before,
                            Seq::empty(),
                        ));
                        return Step::Done;
                    }
                    let windows = walk_windows(app.main_events_cleared_transition());
                    let ghost order = windows@;
                    let step = redraw_in_order(windows, app);
                    assert((step@, app@) == task.advanced(before, order));
                    step
                },
            },
            Task::Dispatching { dispatch, then } => {
                let step = resume(dispatch, then, app, Ghost(Seq::empty()));
                assert((step@, app@) == task.advanced(before, Seq::empty()));
                step
            },
            Task::SettingUp { windows } => {
                let step = set_up_next(windows, app);
                assert((step@, app@) == task.advanced(before, Seq::empty()));
                step
            },
            Task::Showing { windows } => {
                let step = show_next(windows, app);
                assert((step@, app@) == task.advanced(before, Seq::empty()));
                step
            },
        }
    }
}

/// Sets up the next of `windows`; after the last one the loop begins to
/// process events.
fn set_up_next<H, P>(windows: VecDeque<WindowId>, app: &mut AppState<H, P>) -> (step: Step<H, P>)
    requires
        old(app).wf(),
        old(app)@.terminating() || old(app)@.state is Launching,
    ensures
        final(app).wf(),
        (step@, final(app)@) == (TaskModel::SettingUp { windows: windows@ }).advanced(
            old(app)@,
            Seq::empty(),
        ),
        step@.goes_on_in(final(app)@),
{
    if app.is_terminating() {
        return Step::Done;
    }
    let mut windows = windows;
    if let Some(window) = windows.pop_front() {
        return Step::SetUpWindow { task: Task::SettingUp { windows }, window };
    }
    let ghost launching = app@.state;
    let (new_windows, kept_events) = app.did_finish_launching_transition();
    let mut show: VecDeque<WindowId> = VecDeque::new();
    extend_queue(&mut show, new_windows);
    let mut events = vec![EventWrapper::StaticEvent(Event::NewEvents(StartCause::Init))];
    let mut kept_events = kept_events;
    events.append(&mut kept_events);
    assert(events@ =~= seq![EventWrapper::StaticEvent(Event::NewEvents(StartCause::Init))]
        + launching->Launching_queued_events);
    assert(show@ =~= launching->Launching_queued_windows);
    arrive(events, Then::ShowWindows(show), app, Ghost(Seq::empty()))
}

impl<H, P> AppModel<H, P> {
    /// What arriving `events` make the loop do.
    pub open spec fn handling(self, events: Seq<EventWrapper<P>>) -> (
        Option<TaskModel<H, P>>,
        Self,
    ) {
        let (dispatch, app) = self.events_arrived(events);
        match dispatch {
            Some(dispatch) => (
                Some(TaskModel::Dispatching { dispatch, then: ThenModel::Nothing }),
                app,
            ),
            None => (None, app),
        }
    }

    /// What waking up at the time `now` makes the loop do.
    pub open spec fn woken(self, now: Instant) -> (Option<TaskModel<H, P>>, Self) {
        if !self.running() || self.in_callback() {
            (None, self)
        } else {
            self.processing_events().handling(
                seq![EventWrapper::StaticEvent(Event::NewEvents(self.wakeup_cause(now)->0))],
            )
        }
    }

    /// What the end of the main events makes the loop do.
    pub open spec fn main_events_over(self) -> (Option<TaskModel<H, P>>, Self) {
        if !self.running() || self.in_callback() {
            (None, self)
        } else {
            (
                Some(
                    TaskModel::Dispatching {
                        dispatch: self.user_events_dispatch(),
                        then: ThenModel::Redraw,
                    },
                ),
                self.callback_started(),
            )
        }
    }

    /// What the end of all events, at the time `now`, makes of the loop.
    pub open spec fn all_events_over(self, now: Instant) -> Self {
        if self.in_callback() {
            self
        } else {
            self.events_cleared(now)
        }
    }

    /// What the end of the launch makes the loop do.
    pub open spec fn launch_finished(self) -> (Option<TaskModel<H, P>>, Self) {
        if self.terminating() {
            (None, self)
        } else {
            (
                Some(TaskModel::SettingUp { windows: self.state->Launching_queued_windows }),
                self.windows_taken().waker_updated(),
            )
        }
    }

    /// What the application's termination makes the loop do, with `listed`
    /// windows.
    pub open spec fn application_terminated(self, listed: Seq<Option<WindowId>>) -> (
        Option<TaskModel<H, P>>,
        Self,
    ) {
        let events = crate::event::each_window(
            crate::event::own_windows(listed),
            WindowEvent::Destroyed,
        );
        let task = if self.terminating() || self.in_callback() {
            None
        } else {
            Some(
                TaskModel::Dispatching {
                    dispatch: DispatchModel {
                        handler: self.state.held_handler()->0,
                        processing_redraws: false,
                        pending: events,
                        phase: Phase::Exiting,
                        scale_change: None,
                    },
                    then: ThenModel::Nothing,
                },
            )
        };
        (task, self.termination_requested(events))
    }
}

/// Whether `task`, if there is one, is in order and `app` is as it expects.
pub open spec fn begins_in<H, P>(task: Option<TaskModel<H, P>>, app: AppModel<H, P>) -> bool {
    task matches Some(task) ==> task.wf() && task.ready(app)
}

/// Takes in events: they are delivered, kept for later, or dropped because the
/// loop ends.
pub fn handle_nonuser_events<H, P>(
    app: &mut AppState<H, P>,
    events: Vec<EventWrapper<P>>,
) -> (task: Option<Task<H, P>>)
    requires
        old(app).wf(),
        old(app)@.accepts_events(),
    ensures
        final(app).wf(),
        (task_model(task), final(app)@) == old(app)@.handling(events@),
        begins_in(task_model(task), final(app)@),
{
    match Dispatch::of_events(app, events) {
        Some(dispatch) => Some(Task::Dispatching { dispatch, then: Then::Nothing }),
        None => None,
    }
}

/// Takes in one event.
pub fn handle_nonuser_event<H, P>(app: &mut AppState<H, P>, event: EventWrapper<P>) -> (task:
    Option<Task<H, P>>)
    requires
        old(app).wf(),
        old(app)@.accepts_events(),
    ensures
        final(app).wf(),
        (task_model(task), final(app)@) == old(app)@.handling(seq![event]),
        begins_in(task_model(task), final(app)@),
{
    let events = vec![event];
    assert(events@ =~= seq![event]);
    handle_nonuser_events(app, events)
}

/// The platform has finished launching the application.
pub fn did_finish_launching<H, P>(app: &mut AppState<H, P>) -> (task: Option<Task<H, P>>)
    requires
        old(app).wf(),
        old(app)@.terminating() || old(app)@.state is Launching,
    ensures
        final(app).wf(),
        (task_model(task), final(app)@) == old(app)@.launch_finished(),
        begins_in(task_model(task), final(app)@),
{
    match app.begin_window_setup() {
        Some(queued_windows) => {
            let mut windows: VecDeque<WindowId> = VecDeque::new();
            extend_queue(&mut windows, queued_windows);
            assert(windows@ =~= queued_windows@);
            Some(Task::SettingUp { windows })
        },
        None => None,
    }
}

/// The application has come to the foreground.
pub fn did_become_active<H, P>(app: &mut AppState<H, P>) -> (task: Option<Task<H, P>>)
    requires
        old(app).wf(),
        old(app)@.accepts_events(),
    ensures
        final(app).wf(),
        (task_model(task), final(app)@) == old(app)@.application_active_set(true).handling(
            seq![EventWrapper::StaticEvent(Event::Resumed)],
        ),
        begins_in(task_model(task), final(app)@),
{
    app.set_application_active(true);
    handle_nonuser_event(app, EventWrapper::StaticEvent(Event::Resumed))
}

/// The application is about to leave the foreground.
pub fn will_resign_active<H, P>(app: &mut AppState<H, P>) -> (task: Option<Task<H, P>>)
    requires
        old(app).wf(),
        old(app)@.accepts_events(),
    ensures
        final(app).wf(),
        (task_model(task), final(app)@) == old(app)@.application_active_set(false).handling(
            seq![EventWrapper::StaticEvent(Event::Suspended)],
        ),
        begins_in(task_model(task), final(app)@),
{
    app.set_application_active(false);
    handle_nonuser_event(app, EventWrapper::StaticEvent(Event::Suspended))
}

/// The run loop has woken up, at the time `now`.
pub fn handle_wakeup_transition_at<H, P>(app: &mut AppState<H, P>, now: Instant) -> (task: Option<
    Task<H, P>,
>)
    requires
        old(app).wf(),
        old(app)@.running() && !old(app)@.in_callback() ==> old(app)@.expects_wakeup(),
    ensures
        final(app).wf(),
        (task_model(task), final(app)@) == old(app)@.woken(now),
        begins_in(task_model(task), final(app)@),
{
    if app.control_flow_observers_suppressed() {
        return None;
    }
    match app.wakeup_transition_at(now) {
        None => None,
        Some(wakeup_event) => handle_nonuser_event(app, wakeup_event),
    }
}

/// As [`handle_wakeup_transition_at`], at the time that `clock` reads.
pub fn handle_wakeup_transition<H, P>(app: &mut AppState<H, P>, clock: &Clock) -> (task: Option<
    Task<H, P>,
>)
    requires
        old(app).wf(),
        old(app)@.running() && !old(app)@.in_callback() ==> old(app)@.expects_wakeup(),
    ensures
        final(app).wf(),
        exists|now: Instant|
            clock.reads(now) && (task_model(task), final(app)@) == #[trigger] old(app)@.woken(now),
        begins_in(task_model(task), final(app)@),
{
    handle_wakeup_transition_at(app, clock.now())
}

/// Tells all windows whether they are occluded. `listed` are the windows that
/// the platform lists, `None` for each that is foreign to this loop.
pub fn send_occluded_event_for_all_windows<H, P>(
    app: &mut AppState<H, P>,
    listed: Vec<Option<WindowId>>,
    occluded: bool,
) -> (task: Option<Task<H, P>>)
    requires
        old(app).wf(),
        old(app)@.accepts_events(),
    ensures
        final(app).wf(),
        (task_model(task), final(app)@) == old(app)@.handling(
            crate::event::each_window(
                crate::event::own_windows(listed@),
                WindowEvent::Occluded(occluded),
            ),
        ),
        begins_in(task_model(task), final(app)@),
{
    handle_nonuser_events(app, occluded_events(keep_own_windows(listed), occluded))
}

/// The run loop has no more main events: the handler is told of its user
/// events, then the windows are redrawn, then the application is told that the
/// loop is about to wait.
pub fn handle_main_events_cleared<H, P>(app: &mut AppState<H, P>) -> (task: Option<Task<H, P>>)
    requires
        old(app).wf(),
        old(app)@.running() && !old(app)@.in_callback() ==> old(app)@.state is ProcessingEvents,
    ensures
        final(app).wf(),
        (task_model(task), final(app)@) == old(app)@.main_events_over(),
        begins_in(task_model(task), final(app)@),
{
    if app.control_flow_observers_suppressed() {
        return None;
    }
    if !app.has_launched() || app.has_terminated() {
        return None;
    }
    let dispatch = Dispatch::of_user_events(app);
    Some(Task::Dispatching { dispatch, then: Then::Redraw })
}

/// The run loop is about to wait, at the time `now`.
pub fn handle_events_cleared_at<H, P>(app: &mut AppState<H, P>, now: Instant)
    requires
        old(app).wf(),
        old(app)@.running() && !old(app)@.in_callback() ==> old(app)@.state is ProcessingRedraws,
    ensures
        final(app).wf(),
        final(app)@ == old(app)@.all_events_over(now),
{
    if !app.control_flow_observers_suppressed() {
        app.events_cleared_transition_at(now);
    }
}

/// As [`handle_events_cleared_at`], at the time that `clock` reads.
pub fn handle_events_cleared<H, P>(app: &mut AppState<H, P>, clock: &Clock)
    requires
        old(app).wf(),
        old(app)@.running() && !old(app)@.in_callback() ==> old(app)@.state is ProcessingRedraws,
    ensures
        final(app).wf(),
        exists|now: Instant|
            clock.reads(now) && final(app)@ == #[trigger] old(app)@.all_events_over(now),
{
    handle_events_cleared_at(app, clock.now())
}

/// The application is about to terminate. `listed` are the windows that the
/// platform lists, `None` for each that is foreign to this loop.
pub fn terminated<H, P>(app: &mut AppState<H, P>, listed: Vec<Option<WindowId>>) -> (task: Option<
    Task<H, P>,
>)
    requires
        old(app).wf(),
        !(old(app)@.state is NotLaunched),
    ensures
        final(app).wf(),
        (task_model(task), final(app)@) == old(app)@.application_terminated(listed@),
        begins_in(task_model(task), final(app)@),
{
    if app.is_terminating() {
        return None;
    }
    let events = destroyed_events(keep_own_windows(listed));
    match app.terminated_transition(events) {
        TerminationTransition::Immediate { handler, events } => {
            let dispatch = Dispatch::of_last_events(handler, events);
            Some(Task::Dispatching { dispatch, then: Then::Nothing })
        },
        TerminationTransition::Deferred | TerminationTransition::AlreadyTerminated => None,
    }
}

} // verus!
