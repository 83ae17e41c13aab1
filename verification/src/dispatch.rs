//! Delivering a run of events to the application's handler.
//!
//! A [`Dispatch`] owns the handler while callbacks run. Whoever drives it
//! performs the step that it gives, which may call back into the loop, and
//! then advances it again.

use std::collections::VecDeque;

use vstd::prelude::*;

use crate::app_state::{AppState, UserCallbackTransitionResult};
use crate::callback_state::{extend_queue, CallbackAction, CallbackModel};
use crate::event::{Event, EventWrapper, HandlePendingUserEvents, Notice, ScaleFactorChanged};
use crate::model::{AppModel, StateModel};

verus! {

/// How far a dispatch has come.
#[derive(Debug, Clone, Copy, PartialEq, Eq, Structural)]
pub enum Phase {
    /// The pending events are delivered one by one.
    Events,
    /// So many of the pending events are delivered before the handler is told
    /// again of its user events.
    UserBatch { remaining: usize },
    /// The handler has just been told of its user events.
    UserPolled,
    /// The loop has ended: the pending events are delivered, then the last one.
    Exiting,
    /// The last event has been delivered.
    Exited,
}

/// A run of events under way to the handler.
#[derive(Debug)]
pub struct Dispatch<H, P> {
    handler: H,
    processing_redraws: bool,
    pending: VecDeque<EventWrapper<P>>,
    phase: Phase,
    scale_change: Option<ScaleFactorChanged>,
}

/// The mathematical value of a [`Dispatch`].
#[verifier::ext_equal]
pub struct DispatchModel<H, P> {
    pub handler: H,
    /// Whether the handler was taken from the redraw stage.
    pub processing_redraws: bool,
    /// The events that are known to be due, oldest first.
    pub pending: Seq<EventWrapper<P>>,
    pub phase: Phase,
    /// The change of scale to settle once the handler has returned.
    pub scale_change: Option<ScaleFactorChanged>,
}

/// What the driver of a dispatch does next.
#[derive(Debug)]
#[must_use]
pub enum Progress<H, P> {
    /// Calls the handler with the event, then advances.
    Deliver { dispatch: Dispatch<H, P>, event: Event<P>, notice: Notice },
    /// Fits the window's view to the size that the handler settled on, then advances.
    ResizeView { dispatch: Dispatch<H, P>, change: ScaleFactorChanged },
    /// Nothing: the handler is back in the state, or gone if the loop has ended.
    Finished,
}

/// The mathematical value of a [`Progress`].
#[verifier::ext_equal]
pub enum ProgressModel<H, P> {
    Deliver { dispatch: DispatchModel<H, P>, event: Event<P>, notice: Notice },
    ResizeView { dispatch: DispatchModel<H, P>, change: ScaleFactorChanged },
    Finished,
}

impl<H, P> View for Dispatch<H, P> {
    type V = DispatchModel<H, P>;

    closed spec fn view(&self) -> DispatchModel<H, P> {
        DispatchModel {
            handler: self.handler,
            processing_redraws: self.processing_redraws,
            pending: self.pending@,
            phase: self.phase,
            scale_change: self.scale_change,
        }
    }
}

impl<H, P> View for Progress<H, P> {
    type V = ProgressModel<H, P>;

    open spec fn view(&self) -> ProgressModel<H, P> {
        match *self {
            Progress::Deliver { dispatch, event, notice } => ProgressModel::Deliver {
                dispatch: dispatch@,
                event,
                notice,
            },
            Progress::ResizeView { dispatch, change } => ProgressModel::ResizeView {
                dispatch: dispatch@,
                change,
            },
            Progress::Finished => ProgressModel::Finished,
        }
    }
}

impl<H, P> DispatchModel<H, P> {
    /// Whether the loop has ended and only the last events are delivered.
    pub open spec fn exiting(self) -> bool {
        self.phase is Exiting || self.phase is Exited
    }

    /// A batch is no longer than what is pending, and only plain events are
    /// delivered in the redraw stage.
    pub open spec fn wf(self) -> bool {
        &&& self.phase matches Phase::UserBatch { remaining } ==> remaining <= self.pending.len()
        &&& self.processing_redraws ==> self.phase is Events
    }

    /// Whether `app` is as the dispatch left it, apart from what nested calls
    /// may do to it.
    pub open spec fn ready(self, app: AppModel<H, P>) -> bool {
        if self.exiting() {
            app.terminated()
        } else {
            app.in_callback()
        }
    }

    /// The next pending event goes to the handler.
    pub open spec fn deliver_next(self) -> ProgressModel<H, P> {
        let next = self.pending[0];
        ProgressModel::Deliver {
            dispatch: DispatchModel {
                pending: self.pending.drop_first(),
                scale_change: next.scale_change(),
                ..self
            },
            event: next.delivered(),
            notice: next.notice(self.processing_redraws),
        }
    }

    /// An event of the loop's own goes to the handler.
    pub open spec fn deliver_own(self, event: Event<P>) -> ProgressModel<H, P> {
        ProgressModel::Deliver { dispatch: self, event, notice: Notice::Usual }
    }

    pub open spec fn in_phase(self, phase: Phase) -> Self {
        DispatchModel { phase, ..self }
    }

    /// What is next while the loop goes on.
    pub open spec fn next_step(self) -> ProgressModel<H, P> {
        match self.phase {
            Phase::UserBatch { remaining } => if remaining == 0 {
                self.in_phase(Phase::UserPolled).deliver_own(
                    Event::UserEvent(HandlePendingUserEvents),
                )
            } else {
                self.in_phase(Phase::UserBatch { remaining: (remaining - 1) as usize }).deliver_next()
            },
            Phase::UserPolled => if self.pending.len() == 0 {
                ProgressModel::Finished
            } else {
                self.in_phase(
                    Phase::UserBatch { remaining: (self.pending.len() - 1) as usize },
                ).deliver_next()
            },
            _ => if self.pending.len() == 0 {
                ProgressModel::Finished
            } else {
                self.deliver_next()
            },
        }
    }

    /// What is next once the loop has ended.
    pub open spec fn exit_step(self) -> ProgressModel<H, P> {
        if self.phase is Exited {
            ProgressModel::Finished
        } else if self.pending.len() == 0 {
            self.in_phase(Phase::Exited).deliver_own(Event::LoopExiting)
        } else {
            self.deliver_next()
        }
    }

    /// The dispatch once the loop has ended, with `due` still to be delivered.
    pub open spec fn ended(self, due: Seq<EventWrapper<P>>) -> Self {
        DispatchModel {
            processing_redraws: false,
            pending: due,
            phase: Phase::Exiting,
            ..self
        }
    }

    pub open spec fn settled(self) -> Self {
        DispatchModel { scale_change: None, ..self }
    }

    /// What is next after the handler has returned and left the loop in
    /// `app`, and what becomes of `app`.
    pub open spec fn advanced(self, app: AppModel<H, P>) -> (ProgressModel<H, P>, AppModel<H, P>) {
        if self.scale_change is Some && !app.terminating() {
            let change = self.scale_change->0;
            (ProgressModel::ResizeView { dispatch: self.settled(), change }, app)
        } else if self.exiting() {
            (self.settled().exit_step(), app)
        } else {
            match app.state->InUserCallback_callback {
                CallbackModel::Running(queue) => {
                    let resumed = DispatchModel { pending: self.pending + queue, ..self.settled() };
                    let progress = resumed.next_step();
                    if progress is Finished {
                        (
                            progress,
                            app.with_state(
                                StateModel::processing(self.handler, self.processing_redraws),
                            ),
                        )
                    } else {
                        (progress, app.action_taken())
                    }
                },
                CallbackModel::Terminating(due) => (
                    self.settled().ended(due).exit_step(),
                    app.shut_down(),
                ),
            }
        }
    }
}

impl<H, P> ProgressModel<H, P> {
    /// Whether the dispatch that goes on, if one does, is in order and `app`
    /// is as it expects.
    pub open spec fn goes_on_in(self, app: AppModel<H, P>) -> bool {
        match self {
            ProgressModel::Deliver { dispatch, .. } => dispatch.wf() && dispatch.ready(app),
            ProgressModel::ResizeView { dispatch, .. } => dispatch.wf() && dispatch.ready(app),
            ProgressModel::Finished => true,
        }
    }
}

impl<H, P> AppModel<H, P> {
    /// What becomes of `events` that arrive: the dispatch that delivers them,
    /// if it can begin at once, and the loop's state.
    pub open spec fn events_arrived(self, events: Seq<EventWrapper<P>>) -> (
        Option<DispatchModel<H, P>>,
        Self,
    ) {
        if self.terminating() {
            (None, self)
        } else if self.ready_for_callback() {
            let dispatch = DispatchModel {
                handler: self.state.held_handler()->0,
                processing_redraws: self.state is ProcessingRedraws,
                pending: events,
                phase: Phase::Events,
                scale_change: None,
            };
            (Some(dispatch), self.callback_started())
        } else {
            (None, self.events_kept(events))
        }
    }

    /// The dispatch that tells the handler of its user events.
    pub open spec fn user_events_dispatch(self) -> DispatchModel<H, P> {
        DispatchModel {
            handler: self.state.held_handler()->0,
            processing_redraws: false,
            pending: Seq::empty(),
            phase: Phase::UserBatch { remaining: 0 },
            scale_change: None,
        }
    }
}

impl<H, P> Dispatch<H, P> {
    pub open spec fn wf(&self) -> bool {
        self@.wf()
    }

    /// Begins to deliver `events`, if a callback can start.
    pub(crate) fn of_events(app: &mut AppState<H, P>, events: Vec<EventWrapper<P>>) -> (dispatch:
        Option<Self>)
        requires
            old(app).wf(),
            old(app)@.accepts_events(),
        ensures
            final(app).wf(),
            final(app)@ == old(app)@.events_arrived(events@).1,
            match dispatch {
                Some(dispatch) => dispatch.wf() && Some(dispatch@) == old(app)@.events_arrived(
                    events@,
                ).0,
                None => old(app)@.events_arrived(events@).0 is None,
            },
    {
        if app.is_terminating() {
            return None;
        }
        match app.try_user_callback_transition() {
            UserCallbackTransitionResult::ReentrancyPrevented => {
                app.queue_callback_events(events);
                None
            },
            UserCallbackTransitionResult::Success { handler, processing_redraws } => {
                let mut pending: VecDeque<EventWrapper<P>> = VecDeque::new();
                extend_queue(&mut pending, events);
                let dispatch = Dispatch {
                    handler,
                    processing_redraws,
                    pending,
                    phase: Phase::Events,
                    scale_change: None,
                };
                assert(dispatch@.pending =~= events@);
                Some(dispatch)
            },
        }
    }

    /// Begins to tell the handler of its user events.
    pub(crate) fn of_user_events(app: &mut AppState<H, P>) -> (dispatch: Self)
        requires
            old(app).wf(),
            old(app)@.state is ProcessingEvents,
        ensures
            final(app).wf(),
            final(app)@ == old(app)@.callback_started(),
            dispatch.wf(),
            dispatch@ == old(app)@.user_events_dispatch(),
    {
        match app.try_user_callback_transition() {
            UserCallbackTransitionResult::Success { handler, processing_redraws } => Dispatch {
                handler,
                processing_redraws,
                pending: VecDeque::new(),
                phase: Phase::UserBatch { remaining: 0 },
                scale_change: None,
            },
            UserCallbackTransitionResult::ReentrancyPrevented => vstd::pervasive::unreached(),
        }
    }

    /// Begins to deliver the last events, of a loop that has ended.
    pub(crate) fn of_last_events(handler: H, events: Vec<EventWrapper<P>>) -> (dispatch: Self)
        ensures
            dispatch.wf(),
            dispatch@ == (DispatchModel {
                handler,
                processing_redraws: false,
                pending: events@,
                phase: Phase::Exiting,
                scale_change: None,
            }),
    {
        let mut pending: VecDeque<EventWrapper<P>> = VecDeque::new();
        extend_queue(&mut pending, events);
        let dispatch = Dispatch {
            handler,
            processing_redraws: false,
            pending,
            phase: Phase::Exiting,
            scale_change: None,
        };
        assert(dispatch@.pending =~= events@);
        dispatch
    }

    /// Whether the loop's state is as the dispatch left it, apart from what
    /// nested calls may do to it.
    pub fn is_ready(&self, app: &AppState<H, P>) -> (ready: bool)
        requires
            app.wf(),
        ensures
            ready == self@.ready(app@),
    {
        match self.phase {
            Phase::Exiting | Phase::Exited => app.has_terminated(),
            _ => app.control_flow_observers_suppressed(),
        }
    }

    /// The handler to call.
    pub fn handler(&mut self) -> (handler: &mut H)
        ensures
            *handler == old(self)@.handler,
            final(self)@ == (DispatchModel { handler: *final(handler), ..old(self)@ }),
    {
        &mut self.handler
    }

    fn deliver_next(self) -> (progress: Progress<H, P>)
        requires
            self@.pending.len() > 0,
        ensures
            progress@ == self@.deliver_next(),
    {
        let mut dispatch = self;
        match dispatch.pending.pop_front() {
            Some(wrapper) => {
                let (event, notice, scale_change) = wrapper.unwrap_for_handler(
                    dispatch.processing_redraws,
                );
                dispatch.scale_change = scale_change;
                Progress::Deliver { dispatch, event, notice }
            },
            None => vstd::pervasive::unreached(),
        }
    }

    fn exit_step(self) -> (progress: Progress<H, P>)
        requires
            self@.exiting(),
        ensures
            progress@ == self@.exit_step(),
    {
        let mut dispatch = self;
        if let Phase::Exited = dispatch.phase {
            Progress::Finished
        } else if dispatch.pending.len() == 0 {
            dispatch.phase = Phase::Exited;
            Progress::Deliver { dispatch, event: Event::LoopExiting, notice: Notice::Usual }
        } else {
            dispatch.deliver_next()
        }
    }

    /// Goes on after the handler has returned.
    pub fn advance(self, app: &mut AppState<H, P>) -> (progress: Progress<H, P>)
        requires
            old(app).wf(),
            self.wf(),
            self@.ready(old(app)@),
        ensures
            final(app).wf(),
            (progress@, final(app)@) == self@.advanced(old(app)@),
            progress@.goes_on_in(final(app)@),
    {
        let mut dispatch = self;
        if let Some(change) = dispatch.scale_change {
            dispatch.scale_change = None;
            if !app.is_terminating() {
                return Progress::ResizeView { dispatch, change };
            }
        }
        match dispatch.phase {
            Phase::Exiting | Phase::Exited => return dispatch.exit_step(),
            _ => {},
        }
        match app.take_callback_action(&mut dispatch.pending) {
            CallbackAction::Terminate(events) => {
                app.finish_callback_termination();
                extend_queue(&mut dispatch.pending, events);
                dispatch.processing_redraws = false;
                dispatch.phase = Phase::Exiting;
                return dispatch.exit_step();
            },
            CallbackAction::Continue => {},
        }
        match dispatch.phase {
            Phase::UserBatch { remaining } if remaining == 0 => {
                dispatch.phase = Phase::UserPolled;
                Progress::Deliver {
                    dispatch,
                    event: Event::UserEvent(HandlePendingUserEvents),
                    notice: Notice::Usual,
                }
            },
            Phase::UserBatch { remaining } => {
                dispatch.phase = Phase::UserBatch { remaining: remaining - 1 };
                dispatch.deliver_next()
            },
            _ => {
                if dispatch.pending.len() == 0 {
                    app.restore_callback_handler(dispatch.handler, dispatch.processing_redraws);
                    Progress::Finished
                } else {
                    if let Phase::UserPolled = dispatch.phase {
                        dispatch.phase = Phase::UserBatch { remaining: dispatch.pending.len() - 1 };
                    }
                    dispatch.deliver_next()
                }
            },
        }
    }
}

} // verus!
