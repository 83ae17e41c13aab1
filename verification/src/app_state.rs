//! The state machine of the application's lifecycle.

use std::collections::{HashSet, VecDeque};

use vstd::prelude::*;

use crate::callback_state::{CallbackAction, CallbackModel, CallbackState};
use crate::event::{Event, EventWrapper, StartCause, WindowId};
use crate::model::{AppModel, StateModel};
use crate::time::{Clock, Instant};
use crate::waker::{EventLoopWaker, FireDate, TimerSetting};

verus! {

broadcast use vstd::std_specs::hash::group_hash_axioms;

/// What the loop does once all events are delivered.
#[derive(Debug, Clone, Copy, PartialEq, Eq, Structural)]
pub enum ControlFlow {
    /// Begin the next iteration at once.
    Poll,
    /// Wait for an event.
    Wait,
    /// Wait for an event or for that instant.
    WaitUntil(Instant),
}

impl Default for ControlFlow {
    fn default() -> (control_flow: ControlFlow)
        ensures
            control_flow == ControlFlow::Wait,
    {
        ControlFlow::Wait
    }
}

/// The lifecycle states. `H` is the application's handler, `P` the payload of
/// the events that the loop only carries.
#[derive(Debug)]
#[must_use]
pub enum AppStateImpl<H, P> {
    NotLaunched { queued_windows: Vec<WindowId>, queued_events: Vec<EventWrapper<P>> },
    Launching {
        queued_windows: Vec<WindowId>,
        queued_events: Vec<EventWrapper<P>>,
        queued_handler: H,
    },
    ProcessingEvents { handler: H },
    /// The handler runs: it is not in the state, and nested calls leave
    /// their events here.
    InUserCallback { callback: CallbackState<EventWrapper<P>> },
    ProcessingRedraws { handler: H },
    Waiting { waiting_handler: H, start: Instant },
    PollFinished { waiting_handler: H },
    Terminated,
}

impl<H, P> View for AppStateImpl<H, P> {
    type V = StateModel<H, P>;

    open spec fn view(&self) -> StateModel<H, P> {
        match *self {
            AppStateImpl::NotLaunched { queued_windows, queued_events } => StateModel::NotLaunched {
                queued_windows: queued_windows@,
                queued_events: queued_events@,
            },
            AppStateImpl::Launching { queued_windows, queued_events, queued_handler } =>
                StateModel::Launching {
                queued_windows: queued_windows@,
                queued_events: queued_events@,
                queued_handler,
            },
            AppStateImpl::ProcessingEvents { handler } => StateModel::ProcessingEvents { handler },
            AppStateImpl::InUserCallback { callback } => StateModel::InUserCallback {
                callback: callback@,
            },
            AppStateImpl::ProcessingRedraws { handler } => StateModel::ProcessingRedraws { handler },
            AppStateImpl::Waiting { waiting_handler, start } => StateModel::Waiting {
                waiting_handler,
                start,
            },
            AppStateImpl::PollFinished { waiting_handler } => StateModel::PollFinished {
                waiting_handler,
            },
            AppStateImpl::Terminated => StateModel::Terminated,
        }
    }
}

/// Whether a callback can start.
#[derive(Debug)]
pub enum UserCallbackTransitionResult<H> {
    /// It can: this is the handler to call.
    Success { handler: H, processing_redraws: bool },
    /// Another one runs, or the loop has not launched.
    ReentrancyPrevented,
}

/// What became of a termination request.
#[derive(Debug)]
pub enum TerminationTransition<H, P> {
    /// The loop has ended: the handler gets these events, then the last one.
    Immediate { handler: H, events: Vec<EventWrapper<P>> },
    /// The loop ends when the callback returns.
    Deferred,
    /// It had been requested before.
    AlreadyTerminated,
}

/// The state of the event loop.
#[derive(Debug)]
pub struct AppState<H, P> {
    /// `None` only in the middle of a transition.
    app_state: Option<AppStateImpl<H, P>>,
    application_active: bool,
    control_flow: ControlFlow,
    queued_gpu_redraws: HashSet<u64>,
    waker: EventLoopWaker,
}

impl<H, P> View for AppState<H, P> {
    type V = AppModel<H, P>;

    closed spec fn view(&self) -> AppModel<H, P> {
        AppModel {
            state: self.app_state->0@,
            application_active: self.application_active,
            control_flow: self.control_flow,
            queued_gpu_redraws: self.queued_gpu_redraws@,
            waker: self.waker@,
        }
    }
}

impl<H, P> AppState<H, P> {
    /// Whether a transition has begun and not ended.
    pub closed spec fn mid_transition(&self) -> bool {
        self.app_state is None
    }

    /// What holds whenever no transition is under way.
    pub open spec fn wf(&self) -> bool {
        !self.mid_transition() && self@.valid()
    }

    /// An event loop that has not been launched.
    pub fn new() -> (app: Self)
        ensures
            app.wf(),
            app@ == AppModel::<H, P>::initial(),
    {
        AppState {
            app_state: Some(
                AppStateImpl::NotLaunched { queued_windows: Vec::new(), queued_events: Vec::new() },
            ),
            application_active: false,
            control_flow: ControlFlow::default(),
            queued_gpu_redraws: HashSet::new(),
            waker: EventLoopWaker::new(),
        }
    }

    /// The lifecycle state.
    pub fn state(&self) -> (state: &AppStateImpl<H, P>)
        requires
            !self.mid_transition(),
        ensures
            state@ == self@.state,
    {
        match &self.app_state {
            Some(state) => state,
            None => vstd::pervasive::unreached(),
        }
    }

    fn state_mut(&mut self) -> (state: &mut AppStateImpl<H, P>)
        requires
            !old(self).mid_transition(),
        ensures
            *state == old(self).app_state->0,
            final(self).app_state == Some(*final(state)),
            final(self)@ == old(self)@.with_state(final(state)@),
    {
        match &mut self.app_state {
            Some(state) => state,
            None => vstd::pervasive::unreached(),
        }
    }

    fn take_state(&mut self) -> (state: AppStateImpl<H, P>)
        requires
            !old(self).mid_transition(),
        ensures
            final(self).mid_transition(),
            state@ == old(self)@.state,
            final(self)@ == old(self)@.with_state(final(self)@.state),
    {
        match self.app_state.take() {
            Some(state) => state,
            None => vstd::pervasive::unreached(),
        }
    }

    fn set_state(&mut self, new_state: AppStateImpl<H, P>)
        requires
            old(self).mid_transition(),
        ensures
            !final(self).mid_transition(),
            final(self)@ == old(self)@.with_state(new_state@),
    {
        self.app_state = Some(new_state)
    }

    fn replace_state(&mut self, new_state: AppStateImpl<H, P>) -> (state: AppStateImpl<H, P>)
        requires
            !old(self).mid_transition(),
        ensures
            !final(self).mid_transition(),
            state@ == old(self)@.state,
            final(self)@ == old(self)@.with_state(new_state@),
    {
        let state = self.take_state();
        self.set_state(new_state);
        state
    }

    /// Whether the loop has launched, also where it has ended since.
    pub fn has_launched(&self) -> (launched: bool)
        requires
            !self.mid_transition(),
        ensures
            launched == self@.launched(),
    {
        !matches!(self.state(), AppStateImpl::NotLaunched { .. } | AppStateImpl::Launching { .. })
    }

    /// Whether the loop has ended.
    pub fn has_terminated(&self) -> (terminated: bool)
        requires
            !self.mid_transition(),
        ensures
            terminated == self@.terminated(),
    {
        matches!(self.state(), AppStateImpl::Terminated)
    }

    /// Whether the loop has ended, or ends when the callback returns.
    pub fn is_terminating(&self) -> (terminating: bool)
        requires
            !self.mid_transition(),
        ensures
            terminating == self@.terminating(),
    {
        match self.state() {
            AppStateImpl::InUserCallback { callback } => callback.is_terminating(),
            AppStateImpl::Terminated => true,
            _ => false,
        }
    }

    /// Whether the run-loop observers are to do nothing.
    ///
    /// They also run in nested loops, and must not enter this one again while
    /// it is in a callback.
    pub fn control_flow_observers_suppressed(&self) -> (suppressed: bool)
        requires
            !self.mid_transition(),
        ensures
            suppressed == self@.in_callback(),
    {
        matches!(self.state(), AppStateImpl::InUserCallback { .. })
    }

    /// Whether an event may arrive now.
    pub fn accepts_events(&self) -> (accepts: bool)
        requires
            !self.mid_transition(),
        ensures
            accepts == self@.accepts_events(),
    {
        !matches!(self.state(), AppStateImpl::Waiting { .. } | AppStateImpl::PollFinished { .. })
    }

    /// Whether a new window can be taken in now.
    pub fn accepts_windows(&self) -> (accepts: bool)
        requires
            !self.mid_transition(),
        ensures
            accepts == self@.accepts_windows(),
    {
        !self.is_terminating() && !matches!(
            self.state(),
            AppStateImpl::Launching { .. } | AppStateImpl::Waiting { .. }
                | AppStateImpl::PollFinished { .. }
        )
    }

    /// Whether the loop waits in the way that its control flow asks for.
    pub fn expects_wakeup(&self) -> (expects: bool)
        requires
            !self.mid_transition(),
        ensures
            expects == self@.expects_wakeup(),
    {
        match self.control_flow {
            ControlFlow::Poll => matches!(self.state(), AppStateImpl::PollFinished { .. }),
            ControlFlow::Wait | ControlFlow::WaitUntil(_) => {
                matches!(self.state(), AppStateImpl::Waiting { .. })
            },
        }
    }

    /// Hands the loop the handler that it will call.
    pub fn will_launch_transition(&mut self, queued_handler: H)
        requires
            old(self).wf(),
            old(self)@.state is NotLaunched,
        ensures
            final(self).wf(),
            final(self)@ == old(self)@.launching(queued_handler),
    {
        if let AppStateImpl::NotLaunched { queued_windows, queued_events } = self.take_state() {
            self.set_state(
                AppStateImpl::Launching { queued_windows, queued_events, queued_handler },
            );
        }
    }

    /// The loop begins to process events. Gives the windows and the events
    /// that were kept for this moment.
    pub fn did_finish_launching_transition(&mut self) -> (kept: (
        Vec<WindowId>,
        Vec<EventWrapper<P>>,
    ))
        requires
            old(self).wf(),
            old(self)@.state is Launching,
        ensures
            final(self).wf(),
            kept.0@ == old(self)@.state->Launching_queued_windows,
            kept.1@ == old(self)@.state->Launching_queued_events,
            final(self)@ == old(self)@.processing_events(),
    {
        match self.take_state() {
            AppStateImpl::Launching { queued_windows, queued_events, queued_handler } => {
                self.set_state(AppStateImpl::ProcessingEvents { handler: queued_handler });
                (queued_windows, queued_events)
            },
            _ => vstd::pervasive::unreached(),
        }
    }

    /// The loop wakes up at the time `now`. Gives the event that begins the
    /// iteration; before the launch and after the end there is none.
    pub fn wakeup_transition_at(&mut self, now: Instant) -> (event: Option<EventWrapper<P>>)
        requires
            old(self).wf(),
            old(self)@.running() ==> old(self)@.expects_wakeup(),
        ensures
            final(self).wf(),
            !old(self)@.running() ==> event is None && final(self)@ == old(self)@,
            old(self)@.running() ==> {
                &&& event == Some(
                    EventWrapper::StaticEvent(
                        Event::<P>::NewEvents(old(self)@.wakeup_cause(now)->0),
                    ),
                )
                &&& final(self)@ == old(self)@.processing_events()
            },
    {
        if !self.has_launched() || self.has_terminated() {
            return None;
        }
        let (handler, cause) = match (self.control_flow, self.take_state()) {
            (ControlFlow::Poll, AppStateImpl::PollFinished { waiting_handler }) => {
                (waiting_handler, StartCause::Poll)
            },
            (ControlFlow::Wait, AppStateImpl::Waiting { waiting_handler, start }) => {
                (waiting_handler, StartCause::WaitCancelled { start, requested_resume: None })
            },
            (
                ControlFlow::WaitUntil(requested_resume),
                AppStateImpl::Waiting { waiting_handler, start },
            ) => {
                let cause = if requested_resume.reached(now) {
                    StartCause::ResumeTimeReached { start, requested_resume }
                } else {
                    StartCause::WaitCancelled { start, requested_resume: Some(requested_resume) }
                };
                (waiting_handler, cause)
            },
            _ => vstd::pervasive::unreached(),
        };
        self.set_state(AppStateImpl::ProcessingEvents { handler });
        Some(EventWrapper::StaticEvent(Event::NewEvents(cause)))
    }

    /// As [`wakeup_transition_at`](Self::wakeup_transition_at), at the time that `clock` reads.
    pub fn wakeup_transition(&mut self, clock: &Clock) -> (event: Option<EventWrapper<P>>)
        requires
            old(self).wf(),
            old(self)@.running() ==> old(self)@.expects_wakeup(),
        ensures
            final(self).wf(),
            !old(self)@.running() ==> event is None && final(self)@ == old(self)@,
            old(self)@.running() ==> {
                &&& exists|now: Instant|
                    clock.reads(now) && event == Some(
                        EventWrapper::StaticEvent(
                            Event::<P>::NewEvents((#[trigger] old(self)@.wakeup_cause(now))->0),
                        ),
                    )
                &&& final(self)@ == old(self)@.processing_events()
            },
    {
        self.wakeup_transition_at(clock.now())
    }

    /// Starts a callback, if none runs and the loop has launched.
    pub fn try_user_callback_transition(&mut self) -> (result: UserCallbackTransitionResult<H>)
        requires
            old(self).wf(),
            old(self)@.accepts_events(),
            !old(self)@.terminated(),
        ensures
            final(self).wf(),
            match result {
                UserCallbackTransitionResult::Success { handler, processing_redraws } => {
                    &&& old(self)@.state == StateModel::<H, P>::processing(
                        handler,
                        processing_redraws,
                    )
                    &&& final(self)@ == old(self)@.callback_started()
                },
                UserCallbackTransitionResult::ReentrancyPrevented => {
                    &&& !old(self)@.ready_for_callback()
                    &&& final(self)@ == old(self)@
                },
            },
    {
        match self.state() {
            AppStateImpl::Launching { .. }
            | AppStateImpl::NotLaunched { .. }
            | AppStateImpl::InUserCallback { .. } => {
                return UserCallbackTransitionResult::ReentrancyPrevented;
            },
            _ => {},
        }
        let (handler, processing_redraws) = match self.take_state() {
            AppStateImpl::ProcessingEvents { handler } => (handler, false),
            AppStateImpl::ProcessingRedraws { handler } => (handler, true),
            _ => vstd::pervasive::unreached(),
        };
        self.set_state(AppStateImpl::InUserCallback { callback: CallbackState::new() });
        UserCallbackTransitionResult::Success { handler, processing_redraws }
    }

    /// Keeps events that cannot be delivered yet.
    pub fn queue_callback_events(&mut self, events: Vec<EventWrapper<P>>)
        requires
            old(self).wf(),
            old(self)@.state is NotLaunched || old(self)@.state is Launching
                || old(self)@.in_callback(),
        ensures
            final(self).wf(),
            final(self)@ == old(self)@.events_kept(events@),
    {
        match self.state_mut() {
            AppStateImpl::Launching { queued_events, .. } => {
                let mut events = events;
                queued_events.append(&mut events);
            },
            AppStateImpl::NotLaunched { queued_events, .. } => {
                let mut events = events;
                queued_events.append(&mut events);
            },
            AppStateImpl::InUserCallback { callback } => callback.queue(events),
            _ => {},
        }
    }

    /// The main events are delivered; the loop turns to the redraws. Gives
    /// the windows that asked for one.
    pub fn main_events_cleared_transition(&mut self) -> (windows: HashSet<u64>)
        requires
            old(self).wf(),
            old(self)@.state is ProcessingEvents,
        ensures
            final(self).wf(),
            windows@ == old(self)@.queued_gpu_redraws,
            final(self)@ == old(self)@.main_events_cleared(),
    {
        match self.take_state() {
            AppStateImpl::ProcessingEvents { handler } => {
                self.set_state(AppStateImpl::ProcessingRedraws { handler });
            },
            _ => vstd::pervasive::unreached(),
        }
        let mut windows: HashSet<u64> = HashSet::new();
        std::mem::swap(&mut self.queued_gpu_redraws, &mut windows);
        windows
    }

    /// All events are delivered at the time `now`; the loop waits, as its
    /// control flow says.
    pub fn events_cleared_transition_at(&mut self, now: Instant)
        requires
            old(self).wf(),
            old(self)@.running() ==> old(self)@.state is ProcessingRedraws,
        ensures
            final(self).wf(),
            final(self)@ == old(self)@.events_cleared(now),
    {
        if !self.has_launched() || self.has_terminated() {
            return;
        }
        let waiting_handler = match self.take_state() {
            AppStateImpl::ProcessingRedraws { handler } => handler,
            _ => vstd::pervasive::unreached(),
        };
        let state = match self.control_flow {
            ControlFlow::Wait | ControlFlow::WaitUntil(_) => {
                AppStateImpl::Waiting { waiting_handler, start: now }
            },
            // The waker is told also where the loop goes on polling.
            ControlFlow::Poll => AppStateImpl::PollFinished { waiting_handler },
        };
        self.set_state(state);
        self.update_waker();
    }

    /// As [`events_cleared_transition_at`](Self::events_cleared_transition_at), at the time
    /// that `clock` reads.
    pub fn events_cleared_transition(&mut self, clock: &Clock)
        requires
            old(self).wf(),
            old(self)@.running() ==> old(self)@.state is ProcessingRedraws,
        ensures
            final(self).wf(),
            exists|now: Instant|
                clock.reads(now) && final(self)@ == #[trigger] old(self)@.events_cleared(now),
    {
        self.events_cleared_transition_at(clock.now())
    }

    /// The application is to terminate, after `events`.
    pub fn terminated_transition(&mut self, events: Vec<EventWrapper<P>>) -> (transition:
        TerminationTransition<H, P>)
        requires
            old(self).wf(),
            !(old(self)@.state is NotLaunched),
        ensures
            final(self).wf(),
            final(self)@ == old(self)@.termination_requested(events@),
            match transition {
                TerminationTransition::Immediate { handler, events: due } => {
                    &&& !old(self)@.terminating()
                    &&& old(self)@.state.held_handler() == Some(handler)
                    &&& due@ == events@
                },
                TerminationTransition::Deferred => !old(self)@.terminating()
                    && old(self)@.in_callback(),
                TerminationTransition::AlreadyTerminated => old(self)@.terminating(),
            },
    {
        match self.state_mut() {
            AppStateImpl::InUserCallback { callback } => {
                if callback.request_termination(events) {
                    self.queued_gpu_redraws.clear();
                    self.waker.stop();
                    return TerminationTransition::Deferred;
                }
                return TerminationTransition::AlreadyTerminated;
            },
            AppStateImpl::Terminated => return TerminationTransition::AlreadyTerminated,
            _ => {},
        }
        let handler = match self.replace_state(AppStateImpl::Terminated) {
            AppStateImpl::Launching { queued_handler, .. } => queued_handler,
            AppStateImpl::ProcessingEvents { handler }
            | AppStateImpl::ProcessingRedraws { handler } => handler,
            AppStateImpl::Waiting { waiting_handler, .. }
            | AppStateImpl::PollFinished { waiting_handler } => waiting_handler,
            _ => vstd::pervasive::unreached(),
        };
        self.queued_gpu_redraws.clear();
        self.waker.stop();
        TerminationTransition::Immediate { handler, events }
    }

    /// Sets what the loop does once all events are delivered.
    pub fn set_control_flow(&mut self, control_flow: ControlFlow)
        requires
            old(self).wf(),
        ensures
            final(self).wf(),
            final(self)@ == (AppModel { control_flow, ..old(self)@ }),
    {
        self.control_flow = control_flow;
    }

    fn update_waker(&mut self)
        requires
            !old(self).mid_transition(),
        ensures
            !final(self).mid_transition(),
            final(self)@ == old(self)@.waker_updated(),
    {
        if self.is_terminating() {
            self.waker.stop();
            return;
        }
        match (self.application_active, self.queued_gpu_redraws.is_empty(), self.control_flow) {
            (false, _, _) | (true, true, ControlFlow::Wait) => self.waker.stop(),
            (true, false, _) | (true, true, ControlFlow::Poll) => self.waker.start(),
            (true, true, ControlFlow::WaitUntil(instant)) => self.waker.start_at(instant),
        }
    }

    /// The application comes to the foreground, or leaves it.
    pub fn set_application_active(&mut self, active: bool)
        requires
            old(self).wf(),
        ensures
            final(self).wf(),
            final(self)@ == old(self)@.application_active_set(active),
    {
        self.application_active = active;
        self.update_waker();
    }

    /// What the loop does once all events are delivered.
    pub fn control_flow(&self) -> (control_flow: ControlFlow)
        ensures
            control_flow == self@.control_flow,
    {
        self.control_flow
    }

    /// Takes the loop's action after a callback has returned: the events of
    /// nested calls go behind the pending ones, unless the loop is to end.
    pub fn take_callback_action(
        &mut self,
        pending_events: &mut VecDeque<EventWrapper<P>>,
    ) -> (action: CallbackAction<EventWrapper<P>>)
        requires
            old(self).wf(),
            old(self)@.in_callback(),
        ensures
            final(self).wf(),
            final(self)@ == old(self)@.action_taken(),
            ({
                let callback = old(self)@.state->InUserCallback_callback;
                &&& final(pending_events)@ == callback.pending_after_action(old(pending_events)@)
                &&& match callback {
                    CallbackModel::Running(_) => action is Continue,
                    CallbackModel::Terminating(due) => action matches CallbackAction::Terminate(
                        events,
                    ) && events@ == due,
                }
            }),
    {
        match self.state_mut() {
            AppStateImpl::InUserCallback { callback } => callback.take_action(pending_events),
            _ => vstd::pervasive::unreached(),
        }
    }

    /// The last callback of a dispatch has returned: the handler goes back
    /// where it came from.
    pub fn restore_callback_handler(&mut self, handler: H, processing_redraws: bool)
        requires
            old(self).wf(),
            old(self)@.in_callback(),
        ensures
            final(self).wf(),
            final(self)@ == old(self)@.with_state(
                StateModel::processing(handler, processing_redraws),
            ),
    {
        let _ = self.replace_state(
            if processing_redraws {
                AppStateImpl::ProcessingRedraws { handler }
            } else {
                AppStateImpl::ProcessingEvents { handler }
            },
        );
    }

    /// The callback during which termination was requested has returned: the
    /// loop ends.
    pub fn finish_callback_termination(&mut self)
        requires
            old(self).wf(),
            old(self)@.in_callback(),
        ensures
            final(self).wf(),
            final(self)@ == old(self)@.shut_down(),
    {
        let _ = self.replace_state(AppStateImpl::Terminated);
        self.queued_gpu_redraws.clear();
        self.waker.stop();
    }

    /// Begins to set up the windows that were made before the launch, unless
    /// the loop ends.
    pub(crate) fn begin_window_setup(&mut self) -> (windows: Option<Vec<WindowId>>)
        requires
            old(self).wf(),
            old(self)@.terminating() || old(self)@.state is Launching,
        ensures
            final(self).wf(),
            old(self)@.terminating() ==> windows is None && final(self)@ == old(self)@,
            !old(self)@.terminating() ==> {
                &&& windows matches Some(windows)
                &&& windows@ == old(self)@.state->Launching_queued_windows
                &&& final(self)@ == old(self)@.windows_taken().waker_updated()
            },
    {
        if self.is_terminating() {
            return None;
        }
        let mut windows: Vec<WindowId> = Vec::new();
        if let AppStateImpl::Launching { queued_windows, .. } = self.state_mut() {
            std::mem::swap(queued_windows, &mut windows);
        }
        self.update_waker();
        Some(windows)
    }

    /// The timer's latest setting.
    pub fn timer_setting(&self) -> (setting: TimerSetting)
        ensures
            setting == self@.waker.setting,
    {
        self.waker.setting()
    }

    /// Hands over the date to program the platform's timer with at the time
    /// `now`, if the setting changed since it was last handed over.
    pub fn take_fire_date_at(&mut self, now: Instant) -> (date: Option<FireDate>)
        requires
            old(self).wf(),
        ensures
            final(self).wf(),
            final(self)@ == (AppModel { waker: old(self)@.waker.programmed(), ..old(self)@ }),
            date is Some <==> old(self)@.waker.unprogrammed,
            date matches Some(date) ==> crate::waker::carries_out(date, old(self)@.waker.setting, now),
    {
        self.waker.take_fire_date_at(now)
    }

    /// As [`take_fire_date_at`](Self::take_fire_date_at), at the time that `clock` reads.
    pub fn take_fire_date(&mut self, clock: &Clock) -> (date: Option<FireDate>)
        requires
            old(self).wf(),
        ensures
            final(self).wf(),
            final(self)@ == (AppModel { waker: old(self)@.waker.programmed(), ..old(self)@ }),
            date is Some <==> old(self)@.waker.unprogrammed,
            date matches Some(date) ==> exists|now: Instant|
                clock.reads(now) && #[trigger] crate::waker::carries_out(
                    date,
                    old(self)@.waker.setting,
                    now,
                ),
    {
        self.waker.take_fire_date(clock)
    }
}

/// Takes in a new window. Before the launch it is kept; afterwards it is to be
/// shown at once.
#[must_use]
pub fn set_key_window<H, P>(app: &mut AppState<H, P>, window: WindowId) -> (show: Option<WindowId>)
    requires
        old(app).wf(),
        old(app)@.accepts_windows(),
    ensures
        final(app).wf(),
        final(app)@ == old(app)@.window_kept(window),
        show == (if old(app)@.state is NotLaunched {
            None::<WindowId>
        } else {
            Some(window)
        }),
{
    match app.state_mut() {
        AppStateImpl::NotLaunched { queued_windows, .. } => {
            queued_windows.push(window);
            None
        },
        _ => Some(window),
    }
}

/// A window asks to be redrawn on the GPU. Answers whether the loop will do so.
pub fn queue_gl_or_metal_redraw<H, P>(app: &mut AppState<H, P>, window: WindowId) -> (accepted:
    bool)
    requires
        old(app).wf(),
    ensures
        final(app).wf(),
        final(app)@ == old(app)@.redraw_queued(window),
        accepted == !old(app)@.terminating(),
{
    if app.is_terminating() {
        return false;
    }
    let _ = app.queued_gpu_redraws.insert(window.raw);
    app.update_waker();
    true
}

/// Hands the loop the handler that it will call.
pub fn will_launch<H, P>(app: &mut AppState<H, P>, queued_handler: H)
    requires
        old(app).wf(),
        old(app)@.state is NotLaunched,
    ensures
        final(app).wf(),
        final(app)@ == old(app)@.launching(queued_handler),
{
    app.will_launch_transition(queued_handler)
}

} // verus!
