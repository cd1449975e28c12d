//! The server's lifecycle: `Created`, `Listening`, `Draining`, `Stopped`.
//!
//! The server binds, serves calls until the interrupt signal arrives, then
//! stops accepting new work and lets the calls in flight finish, up to a
//! deadline. The decisions are made here, as a function from the present
//! state and an event to the next state and an action; whoever owns the
//! socket, the signal and the timer performs the action and reports the
//! next event.
//!
//! A server that is interrupted with nothing in flight has nothing to drain
//! and stops at once. A server whose bind fails has not begun its life: it
//! stays `Created`, accepts nothing, and the failure is handed back.

use vstd::prelude::*;
use crate::diagnostics::{DiagnosticEvent, EventView};

verus! {

/// The phase of a server's life.
#[derive(Debug, Clone, Copy, PartialEq, Eq, Structural)]
pub enum Phase {
    /// Constructed, not yet bound.
    Created,
    /// Bound and accepting connections.
    Listening,
    /// Interrupted: no new connections, calls in flight may finish.
    Draining,
    /// Terminated.
    Stopped,
}

impl Phase {
    /// The position of the phase in the order in which phases are passed.
    pub open spec fn rank(self) -> nat {
        match self {
            Phase::Created => 0,
            Phase::Listening => 1,
            Phase::Draining => 2,
            Phase::Stopped => 3,
        }
    }
}

/// Why the server could not start.
#[derive(Debug, Clone, Copy, PartialEq, Eq, Structural)]
pub enum BindError {
    /// The bind address could not be parsed.
    Malformed,
    /// The bind address is already in use.
    InUse,
}

/// What can happen to a server.
#[derive(Debug, Clone, Copy, PartialEq, Eq, Structural)]
pub enum LifecycleEvent {
    /// The listening socket was bound.
    BindSucceeded,
    /// The listening socket could not be bound.
    BindFailed(BindError),
    /// A call arrived.
    CallArrived,
    /// A call that was being served has produced its reply.
    CallCompleted,
    /// The interrupt signal arrived.
    Interrupted,
    /// The drain deadline passed.
    DrainDeadlineElapsed,
}

/// What is to be done in response to an event.
#[derive(Debug, Clone, Copy, PartialEq, Eq, Structural)]
pub enum LifecycleAction {
    /// Nothing: the event has no meaning in the present phase.
    Ignore,
    /// Begin accepting connections.
    Accept,
    /// Report the failure and return it without waiting for a signal: the
    /// server was never bound and stays as it was constructed.
    FailStartup(BindError),
    /// Hand the call to a handler.
    Serve,
    /// Turn the call away: the server is not accepting.
    Refuse,
    /// Send the reply to its caller.
    Deliver,
    /// Send the reply to its caller, then terminate: it was the last call
    /// in flight of a draining server.
    DeliverAndExit,
    /// Drop the reply: its call was abandoned.
    Discard,
    /// Stop accepting connections and start the drain timer.
    BeginDrain,
    /// Stop accepting connections and terminate: nothing is in flight.
    Exit,
    /// Give up on the calls still in flight and terminate.
    AbandonAndExit { abandoned: u64 },
}

/// The largest number of calls that can be in flight at once.
pub const CAPACITY: u64 = u64::MAX;

/// The state of a lifecycle as a mathematical value.
pub struct LifecycleView {
    pub phase: Phase,
    pub in_flight: nat,
}

impl LifecycleView {
    /// Only a listening or draining server has calls in flight, a draining
    /// one has at least one, and there are never more than `CAPACITY`.
    pub open spec fn well_formed(self) -> bool {
        &&& self.in_flight <= CAPACITY
        &&& match self.phase {
            Phase::Created => self.in_flight == 0,
            Phase::Listening => true,
            Phase::Draining => self.in_flight > 0,
            Phase::Stopped => self.in_flight == 0,
        }
    }

    /// The state that follows `self` on `event`. There are three ways
    /// forward: from `Created` to `Listening` on a successful bind, from
    /// `Listening` on the interrupt signal, and from `Draining` to
    /// `Stopped`. Every other event leaves the phase as it is.
    pub open spec fn next(self, event: LifecycleEvent) -> LifecycleView {
        match (self.phase, event) {
            (Phase::Created, LifecycleEvent::BindSucceeded) => LifecycleView {
                phase: Phase::Listening,
                in_flight: 0,
            },
            (Phase::Listening, LifecycleEvent::CallArrived) => if self.in_flight < CAPACITY {
                LifecycleView { phase: Phase::Listening, in_flight: self.in_flight + 1 }
            } else {
                self
            },
            (Phase::Listening, LifecycleEvent::CallCompleted) => if self.in_flight > 0 {
                LifecycleView { phase: Phase::Listening, in_flight: (self.in_flight - 1) as nat }
            } else {
                self
            },
            (Phase::Listening, LifecycleEvent::Interrupted) => if self.in_flight > 0 {
                LifecycleView { phase: Phase::Draining, in_flight: self.in_flight }
            } else {
                LifecycleView { phase: Phase::Stopped, in_flight: 0 }
            },
            (Phase::Draining, LifecycleEvent::CallCompleted) => if self.in_flight > 1 {
                LifecycleView { phase: Phase::Draining, in_flight: (self.in_flight - 1) as nat }
            } else {
                LifecycleView { phase: Phase::Stopped, in_flight: 0 }
            },
            (Phase::Draining, LifecycleEvent::DrainDeadlineElapsed) => LifecycleView {
                phase: Phase::Stopped,
                in_flight: 0,
            },
            _ => self,
        }
    }

    /// The action that `event` calls for in the state `self`.
    pub open spec fn action(self, event: LifecycleEvent) -> LifecycleAction {
        match (self.phase, event) {
            (Phase::Created, LifecycleEvent::BindSucceeded) => LifecycleAction::Accept,
            (Phase::Created, LifecycleEvent::BindFailed(error)) => LifecycleAction::FailStartup(
                error,
            ),
            (Phase::Listening, LifecycleEvent::CallArrived) => if self.in_flight < CAPACITY {
                LifecycleAction::Serve
            } else {
                LifecycleAction::Refuse
            },
            (_, LifecycleEvent::CallArrived) => LifecycleAction::Refuse,
            (Phase::Listening, LifecycleEvent::CallCompleted) => if self.in_flight > 0 {
                LifecycleAction::Deliver
            } else {
                LifecycleAction::Ignore
            },
            (Phase::Draining, LifecycleEvent::CallCompleted) => if self.in_flight > 1 {
                LifecycleAction::Deliver
            } else {
                LifecycleAction::DeliverAndExit
            },
            (Phase::Stopped, LifecycleEvent::CallCompleted) => LifecycleAction::Discard,
            (Phase::Listening, LifecycleEvent::Interrupted) => if self.in_flight > 0 {
                LifecycleAction::BeginDrain
            } else {
                LifecycleAction::Exit
            },
            (Phase::Draining, LifecycleEvent::DrainDeadlineElapsed) => {
                LifecycleAction::AbandonAndExit { abandoned: self.in_flight as u64 }
            },
            _ => LifecycleAction::Ignore,
        }
    }

    /// The state reached from `self` after the events of `trace`, in order.
    pub open spec fn after(self, trace: Seq<LifecycleEvent>) -> LifecycleView
        decreases trace.len(),
    {
        if trace.len() == 0 {
            self
        } else {
            self.after(trace.drop_last()).next(trace.last())
        }
    }

    /// The action that the last event of a non-empty `trace` calls for,
    /// when the events before it have been taken in from `self`.
    pub open spec fn last_action(self, trace: Seq<LifecycleEvent>) -> LifecycleAction
        recommends
            trace.len() > 0,
    {
        self.after(trace.drop_last()).action(trace.last())
    }

    /// How many calls are handed to a handler over `trace`.
    pub open spec fn served(self, trace: Seq<LifecycleEvent>) -> nat
        decreases trace.len(),
    {
        if trace.len() == 0 {
            0
        } else {
            self.served(trace.drop_last()) + served_by(self.last_action(trace))
        }
    }

    /// How many replies are sent to their callers over `trace`.
    pub open spec fn delivered(self, trace: Seq<LifecycleEvent>) -> nat
        decreases trace.len(),
    {
        if trace.len() == 0 {
            0
        } else {
            self.delivered(trace.drop_last()) + delivered_by(self.last_action(trace))
        }
    }

    /// How many calls are given up over `trace`.
    pub open spec fn abandoned(self, trace: Seq<LifecycleEvent>) -> nat
        decreases trace.len(),
    {
        if trace.len() == 0 {
            0
        } else {
            self.abandoned(trace.drop_last()) + abandoned_by(self.last_action(trace))
        }
    }

    /// How many interrupt signals take effect over `trace`.
    pub open spec fn signals_taken(self, trace: Seq<LifecycleEvent>) -> nat
        decreases trace.len(),
    {
        if trace.len() == 0 {
            0
        } else {
            self.signals_taken(trace.drop_last()) + signals_taken_by(self.last_action(trace))
        }
    }
}

/// The number of calls that an action hands to a handler.
pub open spec fn served_by(action: LifecycleAction) -> nat {
    if action is Serve {
        1
    } else {
        0
    }
}

/// The number of replies that an action sends to their callers.
pub open spec fn delivered_by(action: LifecycleAction) -> nat {
    if action is Deliver || action is DeliverAndExit {
        1
    } else {
        0
    }
}

/// The number of calls that an action gives up.
pub open spec fn abandoned_by(action: LifecycleAction) -> nat {
    match action {
        LifecycleAction::AbandonAndExit { abandoned } => abandoned as nat,
        _ => 0,
    }
}

/// The number of interrupt signals that an action acts upon.
pub open spec fn signals_taken_by(action: LifecycleAction) -> nat {
    if action is BeginDrain || action is Exit {
        1
    } else {
        0
    }
}

/// The event for the diagnostics sink that goes with an action, if any: the
/// interrupt signal that ends listening is reported, and so is a drain
/// deadline that leaves calls behind.
pub open spec fn diagnostic_of(action: LifecycleAction) -> Option<EventView> {
    match action {
        LifecycleAction::BeginDrain => Some(EventView::ShutdownSignalReceived),
        LifecycleAction::Exit => Some(EventView::ShutdownSignalReceived),
        LifecycleAction::AbandonAndExit { abandoned } => Some(
            EventView::DrainDeadlineExceeded { abandoned: abandoned as nat },
        ),
        _ => None,
    }
}

impl LifecycleAction {
    /// The event for the diagnostics sink that goes with this action.
    pub fn diagnostic(&self) -> (event: Option<DiagnosticEvent>)
        ensures
            match event {
                Some(e) => diagnostic_of(*self) == Some(e@),
                None => diagnostic_of(*self) is None,
            },
    {
        match self {
            LifecycleAction::BeginDrain => Some(DiagnosticEvent::ShutdownSignalReceived),
            LifecycleAction::Exit => Some(DiagnosticEvent::ShutdownSignalReceived),
            LifecycleAction::AbandonAndExit { abandoned } => Some(
                DiagnosticEvent::DrainDeadlineExceeded { abandoned: *abandoned },
            ),
            _ => None,
        }
    }

    /// Whether the process ends with this action.
    pub fn terminates(&self) -> (ends: bool)
        ensures
            ends <==> (*self is FailStartup || *self is DeliverAndExit || *self is Exit || *self
                is AbandonAndExit),
    {
        match self {
            LifecycleAction::FailStartup(_) => true,
            LifecycleAction::DeliverAndExit => true,
            LifecycleAction::Exit => true,
            LifecycleAction::AbandonAndExit { .. } => true,
            _ => false,
        }
    }
}

/// A server's lifecycle: its phase and the number of calls in flight.
#[derive(Debug, Clone, Copy, PartialEq, Eq)]
pub struct ServerLifecycle {
    phase: Phase,
    in_flight: u64,
}

impl View for ServerLifecycle {
    type V = LifecycleView;

    closed spec fn view(&self) -> LifecycleView {
        LifecycleView { phase: self.phase, in_flight: self.in_flight as nat }
    }
}

impl ServerLifecycle {
    #[verifier::type_invariant]
    closed spec fn valid(&self) -> bool {
        self@.well_formed()
    }

    /// The lifecycle of a server that has just been constructed.
    pub fn new() -> (lifecycle: ServerLifecycle)
        ensures
            lifecycle@ == (LifecycleView { phase: Phase::Created, in_flight: 0 }),
    {
        ServerLifecycle { phase: Phase::Created, in_flight: 0 }
    }

    /// The present phase.
    pub fn phase(&self) -> (phase: Phase)
        ensures
            phase == self@.phase,
    {
        self.phase
    }

    /// The number of calls in flight.
    pub fn in_flight(&self) -> (in_flight: u64)
        ensures
            in_flight == self@.in_flight,
            self@.well_formed(),
    {
        proof {
            use_type_invariant(self);
        }
        self.in_flight
    }

    /// The event that announces the server before it binds `address`. It
    /// is due as long as the server has not been bound, and never after.
    pub fn announce(&self, address: &str) -> (event: Option<DiagnosticEvent>)
        ensures
            event is Some <==> self@.phase == Phase::Created,
            event matches Some(e) ==> e@ == (EventView::ServerStarting { address: address@ }),
    {
        match self.phase {
            Phase::Created => Some(DiagnosticEvent::server_starting(address)),
            _ => None,
        }
    }

    /// Whether a call that arrives now would be served.
    pub fn is_accepting(&self) -> (accepting: bool)
        ensures
            accepting <==> self@.phase == Phase::Listening,
    {
        match self.phase {
            Phase::Listening => true,
            _ => false,
        }
    }

    /// Takes `event` in, moves to the state that follows, and says what is
    /// to be done.
    ///
    /// A listening server that already has `CAPACITY` calls in flight turns
    /// a further call away.
    pub fn step(&mut self, event: LifecycleEvent) -> (action: LifecycleAction)
        ensures
            final(self)@ == old(self)@.next(event),
            action == old(self)@.action(event),
            final(self)@.well_formed(),
    {
        proof {
            use_type_invariant(&*self);
        }
        match (self.phase, event) {
            (Phase::Created, LifecycleEvent::BindSucceeded) => {
                self.phase = Phase::Listening;
                LifecycleAction::Accept
            },
            (Phase::Created, LifecycleEvent::BindFailed(error)) => LifecycleAction::FailStartup(
                error,
            ),
            (Phase::Listening, LifecycleEvent::CallArrived) => {
                if self.in_flight < CAPACITY {
                    self.in_flight = self.in_flight + 1;
                    LifecycleAction::Serve
                } else {
                    LifecycleAction::Refuse
                }
            },
            (_, LifecycleEvent::CallArrived) => LifecycleAction::Refuse,
            (Phase::Listening, LifecycleEvent::CallCompleted) => {
                if self.in_flight > 0 {
                    self.in_flight = self.in_flight - 1;
                    LifecycleAction::Deliver
                } else {
                    LifecycleAction::Ignore
                }
            },
            (Phase::Draining, LifecycleEvent::CallCompleted) => {
                if self.in_flight > 1 {
                    self.in_flight = self.in_flight - 1;
                    LifecycleAction::Deliver
                } else {
                    *self = ServerLifecycle { phase: Phase::Stopped, in_flight: 0 };
                    LifecycleAction::DeliverAndExit
                }
            },
            (Phase::Stopped, LifecycleEvent::CallCompleted) => LifecycleAction::Discard,
            (Phase::Listening, LifecycleEvent::Interrupted) => {
                if self.in_flight > 0 {
                    self.phase = Phase::Draining;
                    LifecycleAction::BeginDrain
                } else {
                    self.phase = Phase::Stopped;
                    LifecycleAction::Exit
                }
            },
            (Phase::Draining, LifecycleEvent::DrainDeadlineElapsed) => {
                let abandoned = self.in_flight;
                *self = ServerLifecycle { phase: Phase::Stopped, in_flight: 0 };
                LifecycleAction::AbandonAndExit { abandoned }
            },
            _ => LifecycleAction::Ignore,
        }
    }
}

/// Every step keeps the state well formed.
pub proof fn lemma_step_keeps_well_formed(state: LifecycleView, event: LifecycleEvent)
    requires
        state.well_formed(),
    ensures
        state.next(event).well_formed(),
{
}

/// No step leads back: the phase after an event is the phase before it or a
/// later one. In particular a server that has left `Listening` never
/// listens again.
pub proof fn lemma_phase_never_regresses(state: LifecycleView, event: LifecycleEvent)
    ensures
        state.phase.rank() <= state.next(event).phase.rank(),
        state.next(event).phase == Phase::Listening ==> state.phase == Phase::Created
            || state.phase == Phase::Listening,
{
}

/// Over any sequence of events the phase only moves forward.
pub proof fn lemma_trace_never_regresses(state: LifecycleView, trace: Seq<LifecycleEvent>)
    ensures
        state.phase.rank() <= state.after(trace).phase.rank(),
    decreases trace.len(),
{
    if trace.len() > 0 {
        lemma_trace_never_regresses(state, trace.drop_last());
        lemma_phase_never_regresses(state.after(trace.drop_last()), trace.last());
    }
}

/// Over any sequence of events the state stays well formed.
pub proof fn lemma_trace_keeps_well_formed(state: LifecycleView, trace: Seq<LifecycleEvent>)
    requires
        state.well_formed(),
    ensures
        state.after(trace).well_formed(),
    decreases trace.len(),
{
    if trace.len() > 0 {
        lemma_trace_keeps_well_formed(state, trace.drop_last());
    }
}

/// No call is lost without notice: over any sequence of events, every call
/// that was in flight at the start or was handed to a handler since has
/// had its reply delivered, has been abandoned at the deadline, or is still
/// in flight.
pub proof fn lemma_calls_are_accounted_for(state: LifecycleView, trace: Seq<LifecycleEvent>)
    requires
        state.well_formed(),
    ensures
        state.in_flight + state.served(trace) == state.after(trace).in_flight + state.delivered(
            trace,
        ) + state.abandoned(trace),
    decreases trace.len(),
{
    if trace.len() > 0 {
        lemma_calls_are_accounted_for(state, trace.drop_last());
        lemma_trace_keeps_well_formed(state, trace.drop_last());
    }
}

/// The interrupt signal takes effect exactly once: over any sequence of
/// events at most one signal is acted upon, and a server that was created
/// or listening at the start is draining or stopped at the end exactly when
/// one has been.
pub proof fn lemma_signal_taken_once(state: LifecycleView, trace: Seq<LifecycleEvent>)
    ensures
        state.signals_taken(trace) <= 1,
        state.phase.rank() >= 2 ==> state.signals_taken(trace) == 0,
        state.phase.rank() < 2 ==> (state.signals_taken(trace) == 1 <==> state.after(
            trace,
        ).phase.rank() >= 2),
    decreases trace.len(),
{
    if trace.len() > 0 {
        lemma_signal_taken_once(state, trace.drop_last());
        lemma_phase_never_regresses(state.after(trace.drop_last()), trace.last());
        lemma_trace_never_regresses(state, trace.drop_last());
    }
}

/// A bind that fails leaves the server as it was constructed: the failure
/// is handed back, the phase stays `Created`, and a call that arrives
/// afterwards is turned away.
pub proof fn lemma_failed_bind_changes_nothing(state: LifecycleView, error: BindError)
    requires
        state.phase == Phase::Created,
    ensures
        state.action(LifecycleEvent::BindFailed(error)) == LifecycleAction::FailStartup(error),
        state.next(LifecycleEvent::BindFailed(error)) == state,
        state.action(LifecycleEvent::CallArrived) == LifecycleAction::Refuse,
{
}

/// A stopped server stays as it is, whatever happens.
pub proof fn lemma_stopped_is_final(state: LifecycleView, event: LifecycleEvent)
    requires
        state.phase == Phase::Stopped,
    ensures
        state.next(event) == state,
{
}

/// Once the interrupt signal has been taken, no call is accepted any more
/// and further signals change nothing.
pub proof fn lemma_after_signal(state: LifecycleView)
    requires
        state.phase == Phase::Draining || state.phase == Phase::Stopped,
    ensures
        state.action(LifecycleEvent::CallArrived) == LifecycleAction::Refuse,
        state.next(LifecycleEvent::CallArrived) == state,
        state.action(LifecycleEvent::Interrupted) == LifecycleAction::Ignore,
        state.next(LifecycleEvent::Interrupted) == state,
{
}

/// A draining server stops exactly when its last call in flight completes
/// or the deadline passes, whichever comes first; until then each
/// completed call is delivered.
pub proof fn lemma_drain_ends(state: LifecycleView, event: LifecycleEvent)
    requires
        state.well_formed(),
        state.phase == Phase::Draining,
    ensures
        state.next(event).phase == Phase::Stopped <==> (event
            == LifecycleEvent::DrainDeadlineElapsed || (event == LifecycleEvent::CallCompleted
            && state.in_flight == 1)),
        event == LifecycleEvent::CallCompleted ==> (state.action(event) == LifecycleAction::Deliver
            || state.action(event) == LifecycleAction::DeliverAndExit),
{
}

} // verus!
