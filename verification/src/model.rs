//! The lifecycle of the event loop as mathematical values: the states, and
//! what each transition makes of them.

use vstd::prelude::*;

use crate::app_state::ControlFlow;
use crate::callback_state::CallbackModel;
use crate::event::{EventWrapper, StartCause, WindowId};
use crate::time::Instant;
use crate::waker::{TimerSetting, WakerModel};

verus! {

/// The mathematical value of a lifecycle state. `H` is the application's
/// handler, `P` the payload of the events that the loop only carries.
#[verifier::ext_equal]
pub enum StateModel<H, P> {
    NotLaunched { queued_windows: Seq<WindowId>, queued_events: Seq<EventWrapper<P>> },
    Launching {
        queued_windows: Seq<WindowId>,
        queued_events: Seq<EventWrapper<P>>,
        queued_handler: H,
    },
    ProcessingEvents { handler: H },
    InUserCallback { callback: CallbackModel<EventWrapper<P>> },
    ProcessingRedraws { handler: H },
    Waiting { waiting_handler: H, start: Instant },
    PollFinished { waiting_handler: H },
    Terminated,
}

/// The mathematical value of the loop's whole state.
#[verifier::ext_equal]
pub struct AppModel<H, P> {
    pub state: StateModel<H, P>,
    pub application_active: bool,
    pub control_flow: ControlFlow,
    /// The windows that asked to be redrawn on the GPU.
    pub queued_gpu_redraws: Set<u64>,
    pub waker: WakerModel,
}

impl<H, P> StateModel<H, P> {
    /// The handler that this state holds. None is held before the loop is
    /// handed one, while one runs, and after the end.
    pub open spec fn held_handler(self) -> Option<H> {
        match self {
            StateModel::Launching { queued_handler, .. } => Some(queued_handler),
            StateModel::ProcessingEvents { handler } => Some(handler),
            StateModel::ProcessingRedraws { handler } => Some(handler),
            StateModel::Waiting { waiting_handler, .. } => Some(waiting_handler),
            StateModel::PollFinished { waiting_handler } => Some(waiting_handler),
            _ => None,
        }
    }

    /// The state in which a handler is kept between two callbacks.
    pub open spec fn processing(handler: H, processing_redraws: bool) -> Self {
        if processing_redraws {
            StateModel::ProcessingRedraws { handler }
        } else {
            StateModel::ProcessingEvents { handler }
        }
    }
}

impl<H, P> AppModel<H, P> {
    /// A loop that has not been launched, and of which nothing was asked.
    pub open spec fn initial() -> Self {
        AppModel {
            state: StateModel::NotLaunched {
                queued_windows: Seq::empty(),
                queued_events: Seq::empty(),
            },
            application_active: false,
            control_flow: ControlFlow::Wait,
            queued_gpu_redraws: Set::empty(),
            waker: WakerModel { setting: TimerSetting::Never, unprogrammed: false },
        }
    }

    pub open spec fn launched(self) -> bool {
        !(self.state is NotLaunched || self.state is Launching)
    }

    pub open spec fn terminated(self) -> bool {
        self.state is Terminated
    }

    /// The loop has launched and has not ended.
    pub open spec fn running(self) -> bool {
        self.launched() && !self.terminated()
    }

    pub open spec fn in_callback(self) -> bool {
        self.state is InUserCallback
    }

    /// The loop has ended, or ends when the callback returns.
    pub open spec fn terminating(self) -> bool {
        match self.state {
            StateModel::InUserCallback { callback } => callback.terminating(),
            StateModel::Terminated => true,
            _ => false,
        }
    }

    /// What holds between any two transitions: a loop that ends has nothing
    /// left to redraw and does not wake up.
    pub open spec fn valid(self) -> bool {
        self.terminating() ==> self.queued_gpu_redraws == Set::<u64>::empty() && self.waker.setting
            == TimerSetting::Never
    }

    pub open spec fn with_state(self, state: StateModel<H, P>) -> Self {
        AppModel { state, ..self }
    }

    /// When the loop is to be woken next.
    pub open spec fn wanted_setting(self) -> TimerSetting {
        if self.terminating() || !self.application_active {
            TimerSetting::Never
        } else if self.queued_gpu_redraws != Set::<u64>::empty() {
            TimerSetting::Immediately
        } else {
            match self.control_flow {
                ControlFlow::Wait => TimerSetting::Never,
                ControlFlow::Poll => TimerSetting::Immediately,
                ControlFlow::WaitUntil(instant) => TimerSetting::At(instant),
            }
        }
    }

    pub open spec fn waker_updated(self) -> Self {
        AppModel { waker: WakerModel::set_to(self.wanted_setting()), ..self }
    }

    pub open spec fn application_active_set(self, active: bool) -> Self {
        AppModel { application_active: active, ..self }.waker_updated()
    }

    /// Nothing is left to redraw, and the loop is not woken any more.
    pub open spec fn silenced(self) -> Self {
        AppModel {
            queued_gpu_redraws: Set::empty(),
            waker: WakerModel::set_to(TimerSetting::Never),
            ..self
        }
    }

    /// A redraw request; it comes to nothing when the loop ends.
    pub open spec fn redraw_queued(self, window: WindowId) -> Self {
        if self.terminating() {
            self
        } else {
            AppModel {
                queued_gpu_redraws: self.queued_gpu_redraws.insert(window.raw),
                ..self
            }.waker_updated()
        }
    }

    /// Why the loop wakes up at the time `now`: `None` where it does not
    /// expect to.
    pub open spec fn wakeup_cause(self, now: Instant) -> Option<StartCause> {
        match (self.control_flow, self.state) {
            (ControlFlow::Poll, StateModel::PollFinished { .. }) => Some(StartCause::Poll),
            (ControlFlow::Wait, StateModel::Waiting { start, .. }) => Some(
                StartCause::WaitCancelled { start, requested_resume: None },
            ),
            (ControlFlow::WaitUntil(requested_resume), StateModel::Waiting { start, .. }) => Some(
                if requested_resume.reached_at(now) {
                    StartCause::ResumeTimeReached { start, requested_resume }
                } else {
                    StartCause::WaitCancelled { start, requested_resume: Some(requested_resume) }
                },
            ),
            _ => None,
        }
    }

    /// Whether the loop waits in the way that its control flow asks for.
    pub open spec fn expects_wakeup(self) -> bool {
        match self.control_flow {
            ControlFlow::Poll => self.state is PollFinished,
            ControlFlow::Wait | ControlFlow::WaitUntil(_) => self.state is Waiting,
        }
    }

    /// The loop processes events again, with the handler that it holds.
    pub open spec fn processing_events(self) -> Self {
        self.with_state(StateModel::processing(self.state.held_handler()->0, false))
    }

    /// The loop has delivered the main events and turns to the redraws, which
    /// have been taken.
    pub open spec fn main_events_cleared(self) -> Self {
        AppModel {
            state: StateModel::processing(self.state.held_handler()->0, true),
            queued_gpu_redraws: Set::empty(),
            ..self
        }
    }

    /// The loop has delivered all events and waits, since `now`.
    pub open spec fn events_cleared(self, now: Instant) -> Self {
        if !self.running() {
            self
        } else {
            let waiting_handler = self.state.held_handler()->0;
            let state = match self.control_flow {
                ControlFlow::Poll => StateModel::PollFinished { waiting_handler },
                _ => StateModel::Waiting { waiting_handler, start: now },
            };
            self.with_state(state).waker_updated()
        }
    }

    /// Whether an event may arrive: it is delivered, kept for later, or
    /// dropped because the loop ends. A loop that waits is woken first.
    pub open spec fn accepts_events(self) -> bool {
        !(self.state is Waiting || self.state is PollFinished)
    }

    /// Events that cannot be delivered yet are kept behind the earlier ones.
    pub open spec fn events_kept(self, events: Seq<EventWrapper<P>>) -> Self {
        match self.state {
            StateModel::NotLaunched { queued_windows, queued_events } => self.with_state(
                StateModel::NotLaunched { queued_windows, queued_events: queued_events + events },
            ),
            StateModel::Launching { queued_windows, queued_events, queued_handler } => self.with_state(
                StateModel::Launching {
                    queued_windows,
                    queued_events: queued_events + events,
                    queued_handler,
                },
            ),
            StateModel::InUserCallback { callback } => self.with_state(
                StateModel::InUserCallback { callback: callback.queued(events) },
            ),
            _ => self,
        }
    }

    /// Whether the state is one in which a callback can start.
    pub open spec fn ready_for_callback(self) -> bool {
        self.state is ProcessingEvents || self.state is ProcessingRedraws
    }

    /// A callback starts; its handler has left the state.
    pub open spec fn callback_started(self) -> Self {
        self.with_state(
            StateModel::InUserCallback { callback: CallbackModel::Running(Seq::empty()) },
        )
    }

    /// The loop has taken its action after a callback.
    pub open spec fn action_taken(self) -> Self {
        match self.state {
            StateModel::InUserCallback { callback } => self.with_state(
                StateModel::InUserCallback { callback: callback.action_taken() },
            ),
            _ => self,
        }
    }

    /// The loop has ended.
    pub open spec fn shut_down(self) -> Self {
        self.with_state(StateModel::Terminated).silenced()
    }

    /// The application is to terminate, after `events`. Inside a callback this
    /// waits for the callback to return.
    pub open spec fn termination_requested(self, events: Seq<EventWrapper<P>>) -> Self {
        if self.terminating() {
            self
        } else {
            match self.state {
                StateModel::InUserCallback { callback } => self.with_state(
                    StateModel::InUserCallback { callback: callback.termination_requested(events) },
                ).silenced(),
                _ => self.shut_down(),
            }
        }
    }

    /// Whether a new window can be taken in.
    pub open spec fn accepts_windows(self) -> bool {
        !self.terminating() && !(self.state is Launching || self.state is Waiting
            || self.state is PollFinished)
    }

    /// A window that was made before the launch is kept for it.
    pub open spec fn window_kept(self, window: WindowId) -> Self {
        match self.state {
            StateModel::NotLaunched { queued_windows, queued_events } => self.with_state(
                StateModel::NotLaunched {
                    queued_windows: queued_windows.push(window),
                    queued_events,
                },
            ),
            _ => self,
        }
    }

    /// The loop has been handed its handler.
    pub open spec fn launching(self, queued_handler: H) -> Self {
        self.with_state(
            StateModel::Launching {
                queued_windows: self.state->NotLaunched_queued_windows,
                queued_events: self.state->NotLaunched_queued_events,
                queued_handler,
            },
        )
    }

    /// The windows that were kept for the launch have been taken.
    pub open spec fn windows_taken(self) -> Self {
        match self.state {
            StateModel::Launching { queued_windows, queued_events, queued_handler } => self.with_state(
                StateModel::Launching {
                    queued_windows: Seq::empty(),
                    queued_events,
                    queued_handler,
                },
            ),
            _ => self,
        }
    }
}

} // verus!
