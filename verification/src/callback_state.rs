//! What may happen to the event loop while an application callback runs.

use std::collections::VecDeque;

use vstd::prelude::*;

verus! {

/// What the event loop does after an application callback has returned.
#[derive(Debug, PartialEq, Eq)]
pub enum CallbackAction<E> {
    /// Carry on with the pending events.
    Continue,
    /// Shut down, after delivering these events.
    Terminate(Vec<E>),
}

/// The part of the loop's state that nested calls may touch while an
/// application callback runs.
#[derive(Debug)]
pub enum CallbackState<E> {
    /// Events that nested calls have produced, oldest first.
    Running(VecDeque<E>),
    /// Termination was requested; these events are due before the loop exits.
    Terminating(Vec<E>),
}

/// The mathematical value of a [`CallbackState`].
#[verifier::ext_equal]
pub enum CallbackModel<E> {
    Running(Seq<E>),
    Terminating(Seq<E>),
}

impl<E> CallbackModel<E> {
    pub open spec fn terminating(self) -> bool {
        self is Terminating
    }

    /// Nested events line up behind the earlier ones, unless the loop is
    /// already shutting down, in which case they are dropped.
    pub open spec fn queued(self, events: Seq<E>) -> Self {
        match self {
            CallbackModel::Running(queue) => CallbackModel::Running(queue + events),
            CallbackModel::Terminating(due) => CallbackModel::Terminating(due),
        }
    }

    /// The first termination request discards the queue; later ones are ignored.
    pub open spec fn termination_requested(self, events: Seq<E>) -> Self {
        match self {
            CallbackModel::Running(_) => CallbackModel::Terminating(events),
            CallbackModel::Terminating(due) => CallbackModel::Terminating(due),
        }
    }

    /// What is left once the loop has taken its action.
    pub open spec fn action_taken(self) -> Self {
        match self {
            CallbackModel::Running(_) => CallbackModel::Running(Seq::empty()),
            CallbackModel::Terminating(_) => CallbackModel::Terminating(Seq::empty()),
        }
    }

    /// The loop's pending events once it has taken its action.
    pub open spec fn pending_after_action(self, pending: Seq<E>) -> Seq<E> {
        match self {
            CallbackModel::Running(queue) => pending + queue,
            CallbackModel::Terminating(_) => Seq::empty(),
        }
    }
}

impl<E> View for CallbackState<E> {
    type V = CallbackModel<E>;

    open spec fn view(&self) -> CallbackModel<E> {
        match self {
            CallbackState::Running(queue) => CallbackModel::Running(queue@),
            CallbackState::Terminating(events) => CallbackModel::Terminating(events@),
        }
    }
}

/// Moves every element of `events`, in order, behind those of `queue`.
pub(crate) fn extend_queue<E>(queue: &mut VecDeque<E>, events: Vec<E>)
    ensures
        final(queue)@ == old(queue)@ + events@,
{
    let ghost before = queue@;
    for event in iter: events
        invariant
            queue@ == before + iter.seq().take(iter.index()),
            iter.seq() == events@,
    {
        queue.push_back(event);
    }
}

impl<E> CallbackState<E> {
    /// A callback has just started.
    pub fn new() -> (state: Self)
        ensures
            state@ == CallbackModel::<E>::Running(Seq::empty()),
    {
        Self::Running(VecDeque::new())
    }

    /// Keeps nested events for when the callback returns.
    pub fn queue(&mut self, events: Vec<E>)
        ensures
            final(self)@ == old(self)@.queued(events@),
    {
        if let Self::Running(queued_events) = self {
            extend_queue(queued_events, events);
        }
    }

    /// Asks the loop to shut down when the callback returns. Answers whether
    /// this was the first such request.
    pub fn request_termination(&mut self, events: Vec<E>) -> (first: bool)
        ensures
            first == !old(self)@.terminating(),
            final(self)@ == old(self)@.termination_requested(events@),
    {
        if self.is_terminating() {
            return false;
        }
        *self = Self::Terminating(events);
        true
    }

    /// Whether termination was requested.
    pub fn is_terminating(&self) -> (terminating: bool)
        ensures
            terminating == self@.terminating(),
    {
        matches!(self, Self::Terminating(_))
    }

    /// Decides how the loop carries on after the callback, and hands over the
    /// events that were kept meanwhile.
    pub fn take_action(&mut self, pending_events: &mut VecDeque<E>) -> (action: CallbackAction<E>)
        ensures
            match old(self)@ {
                CallbackModel::Running(_) => action is Continue,
                CallbackModel::Terminating(due) => action matches CallbackAction::Terminate(events)
                    && events@ == due,
            },
            final(self)@ == old(self)@.action_taken(),
            final(pending_events)@ == old(self)@.pending_after_action(old(pending_events)@),
    {
        match self {
            Self::Terminating(events) => {
                pending_events.clear();
                let mut taken: Vec<E> = Vec::new();
                std::mem::swap(events, &mut taken);
                CallbackAction::Terminate(taken)
            },
            Self::Running(queued_events) => {
                pending_events.append(queued_events);
                CallbackAction::Continue
            },
        }
    }
}

} // verus!
