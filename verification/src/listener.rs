//! The listener: which role this process plays, and what it does with
//! connections and with payloads of its own.
//!
//! A listener starts uninitialized. The outcome of its claim makes it the
//! owner or a secondary, or leaves it closed and the process unguarded. An
//! owner listens or is paused. Whatever the role, a listener ends closed.

use crate::claim::{ClaimAttempt, ClaimOutcome};
use crate::error::{ListenerError, Recovery};
use crate::handoff::HandoffEnd;
use crate::payload::Payload;
use crate::policy::ChannelPolicy;
use crate::queue::DeliveryQueue;
use crate::text::same_text;
use crate::wire::Greeting;
use vstd::prelude::*;

verus! {

/// The role of this process.
#[derive(Clone, Copy, Debug, PartialEq, Eq, Structural)]
pub enum ListenerState {
    /// Nothing was claimed yet.
    Uninitialized,
    /// This process owns the address and admits handoffs.
    Listening,
    /// This process owns the address and turns handoffs away for now.
    Paused,
    /// Another process owns the address.
    Secondary,
    /// The listener holds no claim and takes part in nothing.
    Closed,
}

/// What a listener is, as a plain value.
#[derive(Clone, Copy, Debug, PartialEq, Eq, Structural)]
pub struct ListenerModel {
    /// The role.
    pub state: ListenerState,
    /// Whether the accept loop was asked for.
    pub accepting: bool,
    /// Whether this process goes on without the single-instance guarantee.
    pub unguarded: bool,
}

/// What the application is told once the claim ended.
#[derive(Clone, Copy, Debug, PartialEq, Eq, Structural)]
pub enum InitReport {
    /// This process owns the address.
    BecameOwner { reclaimed: bool },
    /// A live owner is there: hand the payload over and exit.
    BecameSecondary,
    /// A warning: the address could not be claimed, and this process goes on
    /// without the single-instance guarantee.
    Unguarded(ListenerError),
    /// The listener was initialized before; nothing changed.
    AlreadyInitialized,
}

/// What the application does after `listen`.
#[derive(Clone, Copy, Debug, PartialEq, Eq, Structural)]
pub enum ListenAction {
    /// Start the accept loop.
    SpawnAcceptLoop,
    /// The accept loop was asked for before.
    AlreadyAccepting,
}

/// What a control signal did.
#[derive(Clone, Copy, Debug, PartialEq, Eq, Structural)]
pub enum ControlEffect {
    /// The owner went from listening to paused, or back.
    Switched,
    /// The owner was there already.
    Unchanged,
    /// This process is no owner: the signal means nothing to it.
    Ignored,
}

/// What the application does after `close`.
#[derive(Clone, Copy, Debug, PartialEq, Eq, Structural)]
pub enum CloseAction {
    /// Stop the accept loop and release the address.
    ReleaseEndpoint,
    /// Nothing is held.
    Nothing,
}

/// What `send` did with a payload.
#[derive(Clone, Copy, Debug, PartialEq, Eq, Structural)]
pub enum SendStep {
    /// The payload is in this process's own queue.
    Delivered,
    /// The payload has to go over the channel: run a handoff.
    HandOff,
    /// The listener is in no state to send.
    Refused(ListenerError),
}

/// Where a payload went.
#[derive(Clone, Copy, Debug, PartialEq, Eq, Structural)]
pub enum SendReport {
    /// The owner has it; this process may exit silently.
    HandedOver,
    /// This process has it in its own queue.
    DeliveredHere,
}

/// How a connection ended.
#[derive(Clone, Copy, Debug, PartialEq, Eq, Structural)]
pub enum ConnectionEnd {
    /// The payload is in the queue.
    Delivered,
    /// The peer was told to come back later; nothing was consumed.
    TurnedAway,
    /// The connection was dropped. The accept loop goes on.
    Dropped(ListenerError),
}

/// What the accept loop does after an error.
#[derive(Clone, Copy, Debug, PartialEq, Eq, Structural)]
pub enum AcceptVerdict {
    /// Go on accepting.
    Continue,
    /// The channel is unusable: stop, release the address and tell the
    /// application that ownership is lost.
    OwnershipLost,
    /// The accept loop is not wanted any more: stop.
    Stop,
}

/// The two control signals of the application.
#[derive(Clone, Copy, Debug, PartialEq, Eq, Structural)]
pub enum ControlSignal {
    /// Begin accepting.
    Start,
    /// Pause accepting.
    Pause,
}

impl ListenerModel {
    /// A listener that has claimed nothing yet.
    pub open spec fn initial() -> ListenerModel {
        ListenerModel { state: ListenerState::Uninitialized, accepting: false, unguarded: false }
    }

    /// Whether this process owns the address.
    pub open spec fn is_owner(self) -> bool {
        self.state == ListenerState::Listening || self.state == ListenerState::Paused
    }

    /// Whether payloads of this process go to its own application: it is
    /// the owner, or it goes on alone.
    pub open spec fn delivers_locally(self) -> bool {
        self.is_owner() || self.unguarded
    }

    /// What holds of every listener: only an owner accepts, and only a
    /// closed listener is unguarded.
    pub open spec fn wf(self) -> bool {
        &&& self.accepting ==> self.is_owner()
        &&& self.unguarded ==> self.state == ListenerState::Closed
    }

    /// The listener after its claim ended with `outcome`.
    pub open spec fn after_init(self, outcome: ClaimOutcome) -> ListenerModel {
        if self.state != ListenerState::Uninitialized {
            self
        } else {
            match outcome {
                ClaimOutcome::Claimed { .. } => ListenerModel {
                    state: ListenerState::Listening,
                    accepting: false,
                    unguarded: false,
                },
                ClaimOutcome::Occupied => ListenerModel {
                    state: ListenerState::Secondary,
                    accepting: false,
                    unguarded: false,
                },
                ClaimOutcome::Failed(_) => ListenerModel {
                    state: ListenerState::Closed,
                    accepting: false,
                    unguarded: true,
                },
            }
        }
    }

    /// What the application is told about that claim.
    pub open spec fn init_report(self, outcome: ClaimOutcome) -> InitReport {
        if self.state != ListenerState::Uninitialized {
            InitReport::AlreadyInitialized
        } else {
            match outcome {
                ClaimOutcome::Claimed { reclaimed } => InitReport::BecameOwner { reclaimed },
                ClaimOutcome::Occupied => InitReport::BecameSecondary,
                ClaimOutcome::Failed(e) => InitReport::Unguarded(e),
            }
        }
    }

    /// The listener after `listen`.
    pub open spec fn after_listen(self) -> ListenerModel {
        if self.is_owner() {
            ListenerModel { accepting: true, ..self }
        } else {
            self
        }
    }

    /// The listener after `start`.
    pub open spec fn after_start(self) -> ListenerModel {
        if self.state == ListenerState::Paused {
            ListenerModel { state: ListenerState::Listening, ..self }
        } else {
            self
        }
    }

    /// The listener after `pause`.
    pub open spec fn after_pause(self) -> ListenerModel {
        if self.state == ListenerState::Listening {
            ListenerModel { state: ListenerState::Paused, ..self }
        } else {
            self
        }
    }

    /// What a control signal does to a listener in state `self` that ends
    /// in state `next`.
    pub open spec fn control_effect(self, next: ListenerModel) -> ControlEffect {
        if !self.is_owner() {
            ControlEffect::Ignored
        } else if next == self {
            ControlEffect::Unchanged
        } else {
            ControlEffect::Switched
        }
    }

    /// The listener after a control signal.
    pub open spec fn after_signal(self, signal: ControlSignal) -> ListenerModel {
        match signal {
            ControlSignal::Start => self.after_start(),
            ControlSignal::Pause => self.after_pause(),
        }
    }

    /// The listener after `close`.
    pub open spec fn after_close(self) -> ListenerModel {
        ListenerModel { state: ListenerState::Closed, accepting: false, unguarded: false }
    }

    /// What the application does on `close`.
    pub open spec fn close_action(self) -> CloseAction {
        if self.is_owner() {
            CloseAction::ReleaseEndpoint
        } else {
            CloseAction::Nothing
        }
    }

    /// The listener after its accept loop met `error`.
    pub open spec fn after_accept_error(self, error: ListenerError) -> ListenerModel {
        if self.accepting && error.recovery_of() == Recovery::RunUnguarded {
            ListenerModel { state: ListenerState::Closed, accepting: false, unguarded: true }
        } else {
            self
        }
    }

    /// What the accept loop does after `error`.
    pub open spec fn accept_verdict(self, error: ListenerError) -> AcceptVerdict {
        if !self.accepting {
            AcceptVerdict::Stop
        } else if error.recovery_of() == Recovery::RunUnguarded {
            AcceptVerdict::OwnershipLost
        } else {
            AcceptVerdict::Continue
        }
    }

    /// The greeting for a connection that arrives now, if it is accepted at
    /// all.
    pub open spec fn greeting(self) -> Option<Greeting> {
        match self.state {
            ListenerState::Listening => Some(Greeting::Admit),
            ListenerState::Paused => Some(Greeting::RetryLater),
            _ => None,
        }
    }

    /// What `send` does in this state.
    pub open spec fn send_step(self) -> SendStep {
        if self.delivers_locally() {
            SendStep::Delivered
        } else if self.state == ListenerState::Secondary {
            SendStep::HandOff
        } else if self.state == ListenerState::Uninitialized {
            SendStep::Refused(ListenerError::NotOwner)
        } else {
            SendStep::Refused(ListenerError::Closed)
        }
    }

    /// The queue after `send`.
    pub open spec fn send_queue(self, queue: Seq<Seq<Seq<char>>>, payload: Seq<Seq<char>>) -> Seq<
        Seq<Seq<char>>,
    > {
        if self.delivers_locally() {
            queue.push(payload)
        } else {
            queue
        }
    }

    /// The listener after a handoff that ended with `end`.
    pub open spec fn after_handoff(self, end: HandoffEnd) -> ListenerModel {
        if self.state != ListenerState::Secondary {
            self
        } else {
            match end {
                HandoffEnd::TakeOver { .. } => ListenerModel {
                    state: ListenerState::Listening,
                    accepting: false,
                    unguarded: false,
                },
                HandoffEnd::Unguarded(_) => ListenerModel {
                    state: ListenerState::Closed,
                    accepting: false,
                    unguarded: true,
                },
                _ => self,
            }
        }
    }

    /// What the caller of `send` is told once the handoff ended.
    pub open spec fn handoff_result(self, end: HandoffEnd) -> Result<SendReport, ListenerError> {
        if self.state != ListenerState::Secondary {
            Err(ListenerError::Closed)
        } else {
            match end {
                HandoffEnd::Sent => Ok(SendReport::HandedOver),
                HandoffEnd::TakeOver { .. } => Ok(SendReport::DeliveredHere),
                HandoffEnd::Unguarded(_) => Ok(SendReport::DeliveredHere),
                HandoffEnd::Failed(e) => Err(e),
            }
        }
    }

    /// The queue after that handoff.
    pub open spec fn handoff_queue(
        self,
        end: HandoffEnd,
        queue: Seq<Seq<Seq<char>>>,
        payload: Seq<Seq<char>>,
    ) -> Seq<Seq<Seq<char>>> {
        if self.state == ListenerState::Secondary && end.delivers_here() {
            queue.push(payload)
        } else {
            queue
        }
    }
}

/// The queue of an owner once a connection ended.
pub open spec fn queue_after_connection(
    greeting: Greeting,
    received: Result<Seq<Seq<char>>, ListenerError>,
    queue: Seq<Seq<Seq<char>>>,
) -> Seq<Seq<Seq<char>>> {
    match (greeting, received) {
        (Greeting::Admit, Ok(payload)) => queue.push(payload),
        _ => queue,
    }
}

/// How a connection ends.
pub open spec fn end_of_connection(
    greeting: Greeting,
    received: Result<Seq<Seq<char>>, ListenerError>,
) -> ConnectionEnd {
    match (greeting, received) {
        (Greeting::RetryLater, _) => ConnectionEnd::TurnedAway,
        (Greeting::Admit, Ok(_)) => ConnectionEnd::Delivered,
        (Greeting::Admit, Err(e)) => ConnectionEnd::Dropped(e),
    }
}

/// What was received, with the payload as a plain value.
pub open spec fn received_view(received: Result<Payload, ListenerError>) -> Result<
    Seq<Seq<char>>,
    ListenerError,
> {
    match received {
        Ok(p) => Ok(p@),
        Err(e) => Err(e),
    }
}

/// The name of the signal that begins accepting.
pub open spec fn start_signal_name() -> Seq<char> {
    "listener-start"@
}

/// The name of the signal that pauses accepting.
pub open spec fn pause_signal_name() -> Seq<char> {
    "listener-pause"@
}

impl ControlSignal {
    /// The signal that a name stands for.
    pub open spec fn named(name: Seq<char>) -> Option<ControlSignal> {
        if name == start_signal_name() {
            Some(ControlSignal::Start)
        } else if name == pause_signal_name() {
            Some(ControlSignal::Pause)
        } else {
            None
        }
    }

    /// The name under which the application sends this signal.
    pub fn name(self) -> (name: &'static str)
        ensures
            ControlSignal::named(name@) == Some(self),
    {
        proof {
            reveal_strlit("listener-start");
            reveal_strlit("listener-pause");
            assert("listener-start"@[9] != "listener-pause"@[9]);
        }
        match self {
            ControlSignal::Start => "listener-start",
            ControlSignal::Pause => "listener-pause",
        }
    }

    /// The signal that `name` stands for, if it is one of the two.
    pub fn from_name(name: &str) -> (signal: Option<ControlSignal>)
        ensures
            signal == ControlSignal::named(name@),
    {
        if same_text(name, "listener-start") {
            Some(ControlSignal::Start)
        } else if same_text(name, "listener-pause") {
            Some(ControlSignal::Pause)
        } else {
            None
        }
    }
}

/// One accepted connection, from the greeting to its end.
///
/// What a connection is told is settled when it is accepted. A pause that
/// comes later does not touch it: a connection that was admitted is honored.
#[derive(Debug)]
pub struct Connection {
    greeting: Greeting,
}

impl Connection {
    /// The greeting that was settled when the connection was accepted.
    pub closed spec fn greeting_of(&self) -> Greeting {
        self.greeting
    }

    /// The greeting to send to the peer.
    pub fn greeting(&self) -> (g: Greeting)
        ensures
            g == self.greeting_of(),
    {
        self.greeting
    }

    /// Whether a frame is to be read from the peer.
    pub fn expects_frame(&self) -> (b: bool)
        ensures
            b == (self.greeting_of() == Greeting::Admit),
    {
        match self.greeting {
            Greeting::Admit => true,
            Greeting::RetryLater => false,
        }
    }

    /// Ends the connection with what was received on it.
    ///
    /// The payload of an admitted connection goes to the end of the queue,
    /// untouched. An error drops this connection and nothing else. A
    /// connection that was turned away leaves the queue as it was, whatever
    /// the peer sent.
    pub fn complete(self, received: Result<Payload, ListenerError>, queue: &mut DeliveryQueue) -> (end:
        ConnectionEnd)
        ensures
            end == end_of_connection(self.greeting_of(), received_view(received)),
            final(queue)@ == queue_after_connection(
                self.greeting_of(),
                received_view(received),
                old(queue)@,
            ),
    {
        match self.greeting {
            Greeting::RetryLater => ConnectionEnd::TurnedAway,
            Greeting::Admit => match received {
                Ok(payload) => {
                    queue.push(payload);
                    ConnectionEnd::Delivered
                },
                Err(e) => ConnectionEnd::Dropped(e),
            },
        }
    }
}

/// The listener of this process.
#[derive(Debug)]
pub struct Listener {
    state: ListenerState,
    accepting: bool,
    unguarded: bool,
}

impl View for Listener {
    type V = ListenerModel;

    closed spec fn view(&self) -> ListenerModel {
        ListenerModel { state: self.state, accepting: self.accepting, unguarded: self.unguarded }
    }
}

impl Listener {
    #[verifier::type_invariant]
    spec fn well_formed(self) -> bool {
        self@.wf()
    }

    /// A listener that has claimed nothing yet.
    pub fn new() -> (listener: Listener)
        ensures
            listener@ == ListenerModel::initial(),
    {
        Listener { state: ListenerState::Uninitialized, accepting: false, unguarded: false }
    }

    /// The listener as a plain value.
    pub fn model(&self) -> (m: ListenerModel)
        ensures
            m == self@,
            m.wf(),
    {
        proof {
            use_type_invariant(self);
        }
        ListenerModel { state: self.state, accepting: self.accepting, unguarded: self.unguarded }
    }

    /// The role of this process.
    pub fn state(&self) -> (s: ListenerState)
        ensures
            s == self@.state,
    {
        self.state
    }

    /// Whether this process owns the address.
    pub fn is_owner(&self) -> (b: bool)
        ensures
            b == self@.is_owner(),
    {
        match self.state {
            ListenerState::Listening | ListenerState::Paused => true,
            _ => false,
        }
    }

    /// Whether the accept loop is to go on: it was asked for and this
    /// process still owns the address.
    pub fn is_accepting(&self) -> (b: bool)
        ensures
            b == self@.accepting,
            b ==> self@.is_owner(),
    {
        proof {
            use_type_invariant(self);
        }
        self.accepting
    }

    /// Whether this process goes on without the single-instance guarantee.
    pub fn is_unguarded(&self) -> (b: bool)
        ensures
            b == self@.unguarded,
            b ==> self@.state == ListenerState::Closed,
    {
        proof {
            use_type_invariant(self);
        }
        self.unguarded
    }

    /// Whether payloads of this process go to its own application, which
    /// therefore shows its window.
    pub fn delivers_locally(&self) -> (b: bool)
        ensures
            b == self@.delivers_locally(),
    {
        self.is_owner() || self.unguarded
    }

    /// The claim to run for `init`, where one is due: a listener claims
    /// once, when it is uninitialized.
    pub fn begin_init(&self, policy: &ChannelPolicy) -> (attempt: Option<ClaimAttempt>)
        ensures
            attempt == (if self@.state == ListenerState::Uninitialized {
                Some(ClaimAttempt::fresh(*policy))
            } else {
                None::<ClaimAttempt>
            }),
    {
        match self.state {
            ListenerState::Uninitialized => Some(ClaimAttempt::begin(policy)),
            _ => None,
        }
    }

    /// Ends `init` with the outcome of the claim.
    ///
    /// A claimed address makes this process the owner, listening. A live
    /// owner makes it a secondary. A claim that failed closes the listener,
    /// and the application is warned that it goes on unguarded. A listener
    /// that was initialized before stays as it is.
    pub fn complete_init(&mut self, outcome: ClaimOutcome) -> (report: InitReport)
        ensures
            final(self)@ == old(self)@.after_init(outcome),
            report == old(self)@.init_report(outcome),
    {
        match self.state {
            ListenerState::Uninitialized => match outcome {
                ClaimOutcome::Claimed { reclaimed } => {
                    *self = Listener {
                        state: ListenerState::Listening,
                        accepting: false,
                        unguarded: false,
                    };
                    InitReport::BecameOwner { reclaimed }
                },
                ClaimOutcome::Occupied => {
                    *self = Listener {
                        state: ListenerState::Secondary,
                        accepting: false,
                        unguarded: false,
                    };
                    InitReport::BecameSecondary
                },
                ClaimOutcome::Failed(e) => {
                    *self = Listener {
                        state: ListenerState::Closed,
                        accepting: false,
                        unguarded: true,
                    };
                    InitReport::Unguarded(e)
                },
            },
            _ => InitReport::AlreadyInitialized,
        }
    }

    /// Asks for the accept loop. Only an owner may listen.
    pub fn listen(&mut self) -> (r: Result<ListenAction, ListenerError>)
        ensures
            final(self)@ == old(self)@.after_listen(),
            r == (if !old(self)@.is_owner() {
                Err::<ListenAction, ListenerError>(ListenerError::NotOwner)
            } else if old(self)@.accepting {
                Ok::<ListenAction, ListenerError>(ListenAction::AlreadyAccepting)
            } else {
                Ok::<ListenAction, ListenerError>(ListenAction::SpawnAcceptLoop)
            }),
    {
        proof {
            use_type_invariant(&*self);
        }
        if !self.is_owner() {
            Err(ListenerError::NotOwner)
        } else if self.accepting {
            Ok(ListenAction::AlreadyAccepting)
        } else {
            self.accepting = true;
            Ok(ListenAction::SpawnAcceptLoop)
        }
    }

    /// Begins accepting: a paused owner listens again. Nothing happens to a
    /// listener that listens already, or that is no owner.
    pub fn start(&mut self) -> (effect: ControlEffect)
        ensures
            final(self)@ == old(self)@.after_start(),
            effect == old(self)@.control_effect(final(self)@),
    {
        proof {
            use_type_invariant(&*self);
        }
        match self.state {
            ListenerState::Paused => {
                self.state = ListenerState::Listening;
                ControlEffect::Switched
            },
            ListenerState::Listening => ControlEffect::Unchanged,
            _ => ControlEffect::Ignored,
        }
    }

    /// Pauses accepting: a listening owner turns new connections away.
    /// Connections that were admitted before are not touched. Nothing
    /// happens to a listener that is paused already, or that is no owner.
    pub fn pause(&mut self) -> (effect: ControlEffect)
        ensures
            final(self)@ == old(self)@.after_pause(),
            effect == old(self)@.control_effect(final(self)@),
    {
        proof {
            use_type_invariant(&*self);
        }
        match self.state {
            ListenerState::Listening => {
                self.state = ListenerState::Paused;
                ControlEffect::Switched
            },
            ListenerState::Paused => ControlEffect::Unchanged,
            _ => ControlEffect::Ignored,
        }
    }

    /// Applies a control signal of the application.
    pub fn on_signal(&mut self, signal: ControlSignal) -> (effect: ControlEffect)
        ensures
            final(self)@ == old(self)@.after_signal(signal),
            effect == old(self)@.control_effect(final(self)@),
    {
        match signal {
            ControlSignal::Start => self.start(),
            ControlSignal::Pause => self.pause(),
        }
    }

    /// Closes the listener. An owner is told to release the address, so
    /// that a later launch can claim it.
    pub fn close(&mut self) -> (action: CloseAction)
        ensures
            final(self)@ == old(self)@.after_close(),
            action == old(self)@.close_action(),
    {
        let action = if self.is_owner() {
            CloseAction::ReleaseEndpoint
        } else {
            CloseAction::Nothing
        };
        *self = Listener { state: ListenerState::Closed, accepting: false, unguarded: false };
        action
    }

    /// Takes an error of the accept loop.
    ///
    /// No error of a connection ends the loop. Only a channel that is
    /// unusable does: the listener is then closed, the process goes on
    /// unguarded, and the application is told that ownership is lost. A
    /// listener whose accept loop is not wanted stops it.
    pub fn on_accept_error(&mut self, error: ListenerError) -> (verdict: AcceptVerdict)
        ensures
            final(self)@ == old(self)@.after_accept_error(error),
            verdict == old(self)@.accept_verdict(error),
    {
        if !self.accepting {
            AcceptVerdict::Stop
        } else {
            match error.recovery() {
                Recovery::RunUnguarded => {
                    *self = Listener {
                        state: ListenerState::Closed,
                        accepting: false,
                        unguarded: true,
                    };
                    AcceptVerdict::OwnershipLost
                },
                _ => AcceptVerdict::Continue,
            }
        }
    }

    /// Accepts a connection that just arrived, and settles what it is told:
    /// a listening owner admits it, a paused owner turns it away. A listener
    /// that is no owner accepts nothing.
    pub fn accept(&self) -> (connection: Option<Connection>)
        ensures
            match connection {
                Some(c) => self@.greeting() == Some(c.greeting_of()),
                None => self@.greeting() is None,
            },
    {
        match self.state {
            ListenerState::Listening => Some(Connection { greeting: Greeting::Admit }),
            ListenerState::Paused => Some(Connection { greeting: Greeting::RetryLater }),
            _ => None,
        }
    }

    /// Sends a payload of this process.
    ///
    /// Where this process delivers locally, the payload goes to the end of
    /// its own queue, untouched, without going over the channel. A secondary
    /// is told to run a handoff. A listener that was never initialized, or
    /// that was closed, refuses.
    pub fn send(&self, payload: &Payload, queue: &mut DeliveryQueue) -> (step: SendStep)
        ensures
            step == self@.send_step(),
            final(queue)@ == self@.send_queue(old(queue)@, payload@),
    {
        if self.delivers_locally() {
            queue.push(payload.duplicate());
            SendStep::Delivered
        } else {
            match self.state {
                ListenerState::Secondary => SendStep::HandOff,
                ListenerState::Uninitialized => SendStep::Refused(ListenerError::NotOwner),
                _ => SendStep::Refused(ListenerError::Closed),
            }
        }
    }

    /// Ends the `send` of a secondary with the end of its handoff.
    ///
    /// A payload that was sent is with the owner. After a takeover this
    /// process is the owner, listening, and the payload is in its own queue;
    /// the accept loop is still to be asked for. Where the address could not
    /// be claimed either, the listener is closed, the process goes on
    /// unguarded, and the payload is in its own queue as well. A handoff that
    /// failed changes nothing and its error goes to the caller.
    pub fn finish_handoff(
        &mut self,
        end: HandoffEnd,
        payload: &Payload,
        queue: &mut DeliveryQueue,
    ) -> (r: Result<SendReport, ListenerError>)
        ensures
            final(self)@ == old(self)@.after_handoff(end),
            r == old(self)@.handoff_result(end),
            final(queue)@ == old(self)@.handoff_queue(end, old(queue)@, payload@),
    {
        match self.state {
            ListenerState::Secondary => match end {
                HandoffEnd::Sent => Ok(SendReport::HandedOver),
                HandoffEnd::TakeOver { .. } => {
                    *self = Listener {
                        state: ListenerState::Listening,
                        accepting: false,
                        unguarded: false,
                    };
                    queue.push(payload.duplicate());
                    Ok(SendReport::DeliveredHere)
                },
                HandoffEnd::Unguarded(_) => {
                    *self = Listener {
                        state: ListenerState::Closed,
                        accepting: false,
                        unguarded: true,
                    };
                    queue.push(payload.duplicate());
                    Ok(SendReport::DeliveredHere)
                },
                HandoffEnd::Failed(e) => Err(e),
            },
            _ => Err(ListenerError::Closed),
        }
    }
}

/// Every transition leaves a listener well formed.
pub proof fn lemma_transitions_keep_wf(
    m: ListenerModel,
    outcome: ClaimOutcome,
    end: HandoffEnd,
    signal: ControlSignal,
)
    requires
        m.wf(),
    ensures
        ListenerModel::initial().wf(),
        m.after_init(outcome).wf(),
        m.after_listen().wf(),
        m.after_signal(signal).wf(),
        m.after_close().wf(),
        m.after_handoff(end).wf(),
        forall|e: ListenerError| (#[trigger] m.after_accept_error(e)).wf(),
{
}

/// A payload that an owner sends for itself is delivered as it is: it
/// stands in the queue behind everything that waited before, which is not
/// disturbed, and it is the same entries in the same order. The same holds
/// of a process that goes on unguarded.
pub proof fn lemma_own_send_is_delivered_intact(
    m: ListenerModel,
    queue: Seq<Seq<Seq<char>>>,
    payload: Seq<Seq<char>>,
)
    requires
        m.delivers_locally(),
    ensures
        m.send_step() == SendStep::Delivered,
        m.send_queue(queue, payload).len() == queue.len() + 1,
        m.send_queue(queue, payload).take(queue.len() as int) == queue,
        m.send_queue(queue, payload)[queue.len() as int] == payload,
{
    assert(m.send_queue(queue, payload).take(queue.len() as int) =~= queue);
}

/// Nothing but an admitted, well received payload enters the queue: a
/// connection that was turned away, or that failed, leaves the queue as it
/// was, and ends as turned away or dropped.
pub proof fn lemma_failed_connection_touches_nothing(
    greeting: Greeting,
    received: Result<Seq<Seq<char>>, ListenerError>,
    queue: Seq<Seq<Seq<char>>>,
)
    requires
        greeting == Greeting::RetryLater || received is Err,
    ensures
        queue_after_connection(greeting, received, queue) == queue,
        end_of_connection(greeting, received) != ConnectionEnd::Delivered,
{
}

/// The errors of one connection are kept to that connection: they leave
/// the listener as it was and the accept loop running. The accept loop of an
/// owner ends on its own account only when the channel itself is unusable.
pub proof fn lemma_connection_errors_are_isolated(m: ListenerModel, error: ListenerError)
    requires
        m.accepting,
    ensures
        error.per_connection() ==> m.after_accept_error(error) == m && m.accept_verdict(error)
            == AcceptVerdict::Continue,
        m.accept_verdict(error) == AcceptVerdict::OwnershipLost <==> error
            == ListenerError::IoFatal,
        m.accept_verdict(error) == AcceptVerdict::OwnershipLost ==> !m.after_accept_error(
            error,
        ).is_owner() && m.after_accept_error(error).unguarded,
{
}

/// Starting a listener that listens, and pausing one that is paused, does
/// nothing at all; and doing either twice is doing it once.
pub proof fn lemma_controls_are_idempotent(m: ListenerModel)
    ensures
        m.state == ListenerState::Listening ==> m.after_start() == m && m.control_effect(
            m.after_start(),
        ) == ControlEffect::Unchanged,
        m.state == ListenerState::Paused ==> m.after_pause() == m && m.control_effect(
            m.after_pause(),
        ) == ControlEffect::Unchanged,
        m.after_start().after_start() == m.after_start(),
        m.after_pause().after_pause() == m.after_pause(),
{
}

/// The two controls undo each other on an owner, and touch nothing but the
/// state.
pub proof fn lemma_controls_toggle(m: ListenerModel)
    requires
        m.is_owner(),
    ensures
        m.after_pause().state == ListenerState::Paused,
        m.after_start().state == ListenerState::Listening,
        m.after_pause().after_start() == m.after_start(),
        m.after_start().after_pause() == m.after_pause(),
        m.after_pause().accepting == m.accepting,
        m.after_start().accepting == m.accepting,
{
}

/// The controls, `listen` and the accept loop mean nothing to a process
/// that is no owner: a secondary or a closed listener stays as it is and
/// accepts nothing.
pub proof fn lemma_controls_need_ownership(m: ListenerModel, signal: ControlSignal)
    requires
        !m.is_owner(),
    ensures
        m.after_signal(signal) == m,
        m.control_effect(m.after_signal(signal)) == ControlEffect::Ignored,
        m.after_listen() == m,
        m.greeting() is None,
{
}

/// A pause concerns the connections that come after it only: before it
/// the owner admits, after it the owner turns away, and after the next start
/// it admits again.
pub proof fn lemma_pause_turns_newcomers_away(m: ListenerModel)
    requires
        m.state == ListenerState::Listening,
    ensures
        m.greeting() == Some(Greeting::Admit),
        m.after_pause().greeting() == Some(Greeting::RetryLater),
        m.after_pause().after_start().greeting() == Some(Greeting::Admit),
{
}

/// A listener takes ownership from a claim that ended as claimed, and from
/// nothing else.
pub proof fn lemma_owner_only_by_claim(m: ListenerModel, outcome: ClaimOutcome, end: HandoffEnd)
    requires
        !m.is_owner(),
    ensures
        m.after_init(outcome).is_owner() ==> outcome is Claimed,
        m.after_handoff(end).is_owner() ==> end is TakeOver,
        !m.after_close().is_owner(),
{
}

} // verus!
