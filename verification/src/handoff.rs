//! Handing a payload over from a secondary to the owner.
//!
//! The secondary connects and reads the owner's greeting. An owner that
//! listens admits the frame. An owner that is paused says so, and the
//! secondary waits and connects again, a bounded number of times. Where no
//! owner can be reached the secondary tries once to claim the address for
//! itself: the payload is then delivered in this very process. The decisions
//! are made here; connecting, transmitting, waiting and claiming are done by
//! whoever drives the handoff, which reports back what happened.

use crate::claim::ClaimOutcome;
use crate::error::ListenerError;
use crate::policy::{ChannelPolicy, MAX_TOTAL_BACKOFF_MS};
use crate::wire::Greeting;
use vstd::prelude::*;

verus! {

/// How a handoff ended.
#[derive(Clone, Copy, Debug, PartialEq, Eq, Structural)]
pub enum HandoffEnd {
    /// The owner admitted the frame and all of it was written.
    Sent,
    /// No owner was there and this process claimed the address: it is the
    /// owner now and delivers the payload itself.
    TakeOver { reclaimed: bool },
    /// No owner was reached and the address could not be claimed either:
    /// this process goes on alone and delivers the payload itself.
    Unguarded(ListenerError),
    /// The payload was not delivered. It is still with the caller.
    Failed(ListenerError),
}

/// What the driver reports back.
#[derive(Clone, Copy, Debug, PartialEq, Eq, Structural)]
pub enum HandoffEvent {
    /// The owner accepted the connection and sent this greeting.
    Greeted(Greeting),
    /// No owner answered within the connect timeout.
    Unreachable,
    /// The whole frame was written.
    Transmitted,
    /// Writing the frame failed.
    TransmitFailed(ListenerError),
    /// The wait is over.
    BackoffElapsed,
    /// The claim of the address ended.
    ClaimEnded(ClaimOutcome),
}

/// What the driver is asked to do next.
#[derive(Clone, Copy, Debug, PartialEq, Eq, Structural)]
pub enum HandoffAction {
    /// Connect to the owner, wait this long for it, and read its greeting.
    Connect { timeout_ms: u32 },
    /// Write the frame on the connection just made.
    Transmit,
    /// Drop the connection and wait this long.
    Backoff { ms: u32 },
    /// Run one claim of the address.
    Claim,
    /// Nothing more: the handoff ended.
    Finish(HandoffEnd),
}

/// Where a handoff stands.
#[derive(Clone, Copy, Debug, PartialEq, Eq, Structural)]
pub enum HandoffStage {
    /// Waiting for a connection and its greeting.
    Connecting,
    /// Waiting for the frame to be written.
    Transmitting,
    /// Waiting between two attempts.
    BackingOff,
    /// Waiting for the claim of the address.
    Claiming,
    /// Ended.
    Finished(HandoffEnd),
}

/// One handoff, from the first connect to its end.
#[derive(Clone, Copy, Debug, PartialEq, Eq, Structural)]
pub struct Handoff {
    /// Where the handoff stands.
    pub stage: HandoffStage,
    /// Connection attempts that may still be greeted, the one under way
    /// included.
    pub attempts_left: u8,
    /// Wait between two attempts, in milliseconds.
    pub backoff_ms: u32,
    /// Longest wait for the owner to answer, in milliseconds.
    pub connect_timeout_ms: u32,
}

/// What becomes of a handoff whose claim of the address ended.
pub open spec fn end_of_claim(outcome: ClaimOutcome) -> HandoffEnd {
    match outcome {
        ClaimOutcome::Claimed { reclaimed } => HandoffEnd::TakeOver { reclaimed },
        ClaimOutcome::Occupied => HandoffEnd::Unguarded(ListenerError::ClaimFailed),
        ClaimOutcome::Failed(e) => HandoffEnd::Unguarded(e),
    }
}

impl HandoffEnd {
    /// Whether the payload reached an application: the owner's, or this
    /// process's own.
    pub open spec fn delivered(self) -> bool {
        !(self is Failed)
    }

    /// Whether this process delivers the payload itself.
    pub open spec fn delivers_here(self) -> bool {
        self is TakeOver || self is Unguarded
    }
}

impl Handoff {
    /// A handoff that has not connected yet.
    pub open spec fn fresh(policy: ChannelPolicy) -> Handoff {
        Handoff {
            stage: HandoffStage::Connecting,
            attempts_left: policy.handoff_attempts,
            backoff_ms: policy.backoff_ms,
            connect_timeout_ms: policy.connect_timeout_ms,
        }
    }

    /// The action that the handoff waits on.
    pub open spec fn pending(self) -> HandoffAction {
        match self.stage {
            HandoffStage::Connecting => HandoffAction::Connect {
                timeout_ms: self.connect_timeout_ms,
            },
            HandoffStage::Transmitting => HandoffAction::Transmit,
            HandoffStage::BackingOff => HandoffAction::Backoff { ms: self.backoff_ms },
            HandoffStage::Claiming => HandoffAction::Claim,
            HandoffStage::Finished(end) => HandoffAction::Finish(end),
        }
    }

    /// The attempts left once the one under way was turned away.
    pub open spec fn attempts_after_refusal(self) -> u8 {
        if self.attempts_left > 0 {
            (self.attempts_left - 1) as u8
        } else {
            0
        }
    }

    /// The handoff after `event`.
    pub open spec fn after(self, event: HandoffEvent) -> Handoff {
        match (self.stage, event) {
            (HandoffStage::Finished(_), _) => self,
            (HandoffStage::Connecting, HandoffEvent::Greeted(Greeting::Admit)) => Handoff {
                stage: HandoffStage::Transmitting,
                ..self
            },
            (HandoffStage::Connecting, HandoffEvent::Greeted(Greeting::RetryLater)) => Handoff {
                stage: if self.attempts_after_refusal() > 0 {
                    HandoffStage::BackingOff
                } else {
                    HandoffStage::Finished(HandoffEnd::Failed(ListenerError::Busy))
                },
                attempts_left: self.attempts_after_refusal(),
                ..self
            },
            (HandoffStage::Connecting, HandoffEvent::Unreachable) => Handoff {
                stage: HandoffStage::Claiming,
                ..self
            },
            (HandoffStage::Transmitting, HandoffEvent::Transmitted) => Handoff {
                stage: HandoffStage::Finished(HandoffEnd::Sent),
                ..self
            },
            (HandoffStage::Transmitting, HandoffEvent::TransmitFailed(e)) => Handoff {
                stage: HandoffStage::Finished(HandoffEnd::Failed(e)),
                ..self
            },
            (HandoffStage::BackingOff, HandoffEvent::BackoffElapsed) => Handoff {
                stage: HandoffStage::Connecting,
                ..self
            },
            (HandoffStage::Claiming, HandoffEvent::ClaimEnded(outcome)) => Handoff {
                stage: HandoffStage::Finished(end_of_claim(outcome)),
                ..self
            },
            _ => Handoff {
                stage: HandoffStage::Finished(HandoffEnd::Failed(ListenerError::IoFatal)),
                ..self
            },
        }
    }

    /// The handoff after a run of events, taken in order.
    pub open spec fn after_all(self, events: Seq<HandoffEvent>) -> Handoff
        decreases events.len(),
    {
        if events.len() == 0 {
            self
        } else {
            self.after(events[0]).after_all(events.drop_first())
        }
    }

    /// The most events that the handoff can still take before it ends.
    pub open spec fn budget(self) -> nat {
        match self.stage {
            HandoffStage::Finished(_) => 0,
            HandoffStage::Transmitting => 1,
            HandoffStage::Claiming => 1,
            HandoffStage::Connecting => (2 * self.attempts_left + 2) as nat,
            HandoffStage::BackingOff => (2 * self.attempts_left + 3) as nat,
        }
    }

    /// Whether the handoff ended.
    pub open spec fn finished(self) -> bool {
        self.stage is Finished
    }

    /// How many times the handoff is told to wait in the course of a run of
    /// events.
    pub open spec fn waits_in(self, events: Seq<HandoffEvent>) -> nat
        decreases events.len(),
    {
        if events.len() == 0 {
            0
        } else {
            let next = self.after(events[0]);
            let told: nat = if self.stage != HandoffStage::BackingOff && next.stage
                == HandoffStage::BackingOff {
                1
            } else {
                0
            };
            told + next.waits_in(events.drop_first())
        }
    }

    /// The most waits that the handoff can still be told.
    pub open spec fn waits_left(self) -> nat {
        match self.stage {
            HandoffStage::Connecting | HandoffStage::BackingOff => if self.attempts_left > 0 {
                (self.attempts_left - 1) as nat
            } else {
                0
            },
            _ => 0,
        }
    }

    /// Starts a handoff. Its first action is to connect.
    pub fn begin(policy: &ChannelPolicy) -> (handoff: Handoff)
        ensures
            handoff == Handoff::fresh(*policy),
            handoff.pending() == (HandoffAction::Connect {
                timeout_ms: policy.connect_timeout_ms,
            }),
    {
        Handoff {
            stage: HandoffStage::Connecting,
            attempts_left: policy.handoff_attempts,
            backoff_ms: policy.backoff_ms,
            connect_timeout_ms: policy.connect_timeout_ms,
        }
    }

    /// The action that the handoff waits on.
    pub fn action(&self) -> (action: HandoffAction)
        ensures
            action == self.pending(),
    {
        match self.stage {
            HandoffStage::Connecting => HandoffAction::Connect {
                timeout_ms: self.connect_timeout_ms,
            },
            HandoffStage::Transmitting => HandoffAction::Transmit,
            HandoffStage::BackingOff => HandoffAction::Backoff { ms: self.backoff_ms },
            HandoffStage::Claiming => HandoffAction::Claim,
            HandoffStage::Finished(end) => HandoffAction::Finish(end),
        }
    }

    /// Takes the result of the action asked for last and says what to do
    /// next. A result that does not belong to that action ends the handoff
    /// as failed with `IoFatal`; once ended, a handoff stays as it is.
    pub fn on_event(&mut self, event: HandoffEvent) -> (action: HandoffAction)
        ensures
            *final(self) == old(self).after(event),
            action == final(self).pending(),
            !old(self).finished() ==> final(self).budget() < old(self).budget(),
    {
        match self.stage {
            HandoffStage::Finished(_) => {},
            HandoffStage::Connecting => match event {
                HandoffEvent::Greeted(Greeting::Admit) => {
                    self.stage = HandoffStage::Transmitting;
                },
                HandoffEvent::Greeted(Greeting::RetryLater) => {
                    if self.attempts_left > 0 {
                        self.attempts_left = self.attempts_left - 1;
                    }
                    if self.attempts_left > 0 {
                        self.stage = HandoffStage::BackingOff;
                    } else {
                        self.stage = HandoffStage::Finished(
                            HandoffEnd::Failed(ListenerError::Busy),
                        );
                    }
                },
                HandoffEvent::Unreachable => {
                    self.stage = HandoffStage::Claiming;
                },
                _ => {
                    self.stage = HandoffStage::Finished(
                        HandoffEnd::Failed(ListenerError::IoFatal),
                    );
                },
            },
            HandoffStage::Transmitting => match event {
                HandoffEvent::Transmitted => {
                    self.stage = HandoffStage::Finished(HandoffEnd::Sent);
                },
                HandoffEvent::TransmitFailed(e) => {
                    self.stage = HandoffStage::Finished(HandoffEnd::Failed(e));
                },
                _ => {
                    self.stage = HandoffStage::Finished(
                        HandoffEnd::Failed(ListenerError::IoFatal),
                    );
                },
            },
            HandoffStage::BackingOff => match event {
                HandoffEvent::BackoffElapsed => {
                    self.stage = HandoffStage::Connecting;
                },
                _ => {
                    self.stage = HandoffStage::Finished(
                        HandoffEnd::Failed(ListenerError::IoFatal),
                    );
                },
            },
            HandoffStage::Claiming => match event {
                HandoffEvent::ClaimEnded(outcome) => {
                    let end = match outcome {
                        ClaimOutcome::Claimed { reclaimed } => HandoffEnd::TakeOver { reclaimed },
                        ClaimOutcome::Occupied => HandoffEnd::Unguarded(
                            ListenerError::ClaimFailed,
                        ),
                        ClaimOutcome::Failed(e) => HandoffEnd::Unguarded(e),
                    };
                    self.stage = HandoffStage::Finished(end);
                },
                _ => {
                    self.stage = HandoffStage::Finished(
                        HandoffEnd::Failed(ListenerError::IoFatal),
                    );
                },
            },
        }
        self.action()
    }

    /// The end, once the handoff ended.
    pub fn end(&self) -> (end: Option<HandoffEnd>)
        ensures
            end == (match self.stage {
                HandoffStage::Finished(e) => Some(e),
                _ => None::<HandoffEnd>,
            }),
    {
        match self.stage {
            HandoffStage::Finished(e) => Some(e),
            _ => None,
        }
    }
}

/// `rounds` attempts that a paused owner turned away, each followed by the
/// wait that the secondary was asked for.
pub open spec fn turned_away(rounds: nat) -> Seq<HandoffEvent>
    decreases rounds,
{
    if rounds == 0 {
        Seq::empty()
    } else {
        seq![HandoffEvent::Greeted(Greeting::RetryLater), HandoffEvent::BackoffElapsed]
            + turned_away((rounds - 1) as nat)
    }
}

/// Every event brings a handoff that has not ended closer to its end.
pub proof fn lemma_handoff_progress(handoff: Handoff, event: HandoffEvent)
    requires
        !handoff.finished(),
    ensures
        handoff.after(event).budget() < handoff.budget(),
{
}

/// A handoff ends within its budget, whatever the driver reports.
pub proof fn lemma_handoff_ends(handoff: Handoff, events: Seq<HandoffEvent>)
    requires
        events.len() >= handoff.budget(),
    ensures
        handoff.after_all(events).finished(),
    decreases events.len(),
{
    if events.len() > 0 {
        if !handoff.finished() {
            lemma_handoff_progress(handoff, events[0]);
        }
        lemma_handoff_ends(handoff.after(events[0]), events.drop_first());
    }
}

/// A handoff waits once between two attempts and never else: whatever the
/// driver reports, it is told to wait one time fewer than it has attempts.
pub proof fn lemma_waits_are_bounded(handoff: Handoff, events: Seq<HandoffEvent>)
    ensures
        handoff.waits_in(events) <= handoff.waits_left(),
    decreases events.len(),
{
    if events.len() > 0 {
        lemma_waits_are_bounded(handoff.after(events[0]), events.drop_first());
    }
}

/// Under a valid policy all the waits of one handoff together stay under a
/// second, whatever the driver reports.
pub proof fn lemma_waits_stay_under_a_second(policy: ChannelPolicy, events: Seq<HandoffEvent>)
    requires
        policy.valid(),
    ensures
        Handoff::fresh(policy).waits_in(events) <= policy.handoff_attempts - 1,
        Handoff::fresh(policy).waits_in(events) * policy.backoff_ms <= policy.total_backoff(),
        Handoff::fresh(policy).waits_in(events) * policy.backoff_ms < MAX_TOTAL_BACKOFF_MS,
{
    lemma_waits_are_bounded(Handoff::fresh(policy), events);
    let waits = Handoff::fresh(policy).waits_in(events) as int;
    let most = policy.handoff_attempts - 1;
    let each = policy.backoff_ms as int;
    assert(waits * each <= most * each) by (nonlinear_arith)
        requires
            0 <= waits <= most,
            0 <= each,
    ;
}

/// Running two runs of events in a row is running them as one.
pub proof fn lemma_handoff_runs_compose(
    handoff: Handoff,
    first: Seq<HandoffEvent>,
    second: Seq<HandoffEvent>,
)
    ensures
        handoff.after_all(first + second) == handoff.after_all(first).after_all(second),
    decreases first.len(),
{
    if first.len() == 0 {
        assert(first + second =~= second);
    } else {
        assert((first + second).drop_first() =~= first.drop_first() + second);
        lemma_handoff_runs_compose(handoff.after(first[0]), first.drop_first(), second);
    }
}

/// A secondary that is turned away fewer times than it has attempts is
/// still connecting, with that many attempts fewer, and has lost nothing.
pub proof fn lemma_turned_away_keeps_trying(handoff: Handoff, rounds: nat)
    requires
        handoff.stage == HandoffStage::Connecting,
        rounds < handoff.attempts_left,
    ensures
        handoff.after_all(turned_away(rounds)) == (Handoff {
            attempts_left: (handoff.attempts_left - rounds) as u8,
            ..handoff
        }),
    decreases rounds,
{
    if rounds > 0 {
        let events = turned_away(rounds);
        let refused = handoff.after(events[0]);
        let waited = refused.after(events[1]);
        assert(events.drop_first().drop_first() =~= turned_away((rounds - 1) as nat));
        assert(refused.after_all(events.drop_first()) == waited.after_all(
            events.drop_first().drop_first(),
        ));
        lemma_turned_away_keeps_trying(waited, (rounds - 1) as nat);
    }
}

/// A payload sent to a paused owner is not lost: where the owner resumes
/// before the attempts run out, the attempt that follows is admitted and the
/// handoff ends as sent.
pub proof fn lemma_paused_owner_is_retried(policy: ChannelPolicy, rounds: nat)
    requires
        rounds < policy.handoff_attempts,
    ensures
        Handoff::fresh(policy).after_all(
            turned_away(rounds) + seq![
                HandoffEvent::Greeted(Greeting::Admit),
                HandoffEvent::Transmitted,
            ],
        ).stage == HandoffStage::Finished(HandoffEnd::Sent),
{
    let start = Handoff::fresh(policy);
    let last = seq![HandoffEvent::Greeted(Greeting::Admit), HandoffEvent::Transmitted];
    lemma_turned_away_keeps_trying(start, rounds);
    lemma_handoff_runs_compose(start, turned_away(rounds), last);
    let trying = start.after_all(turned_away(rounds));
    let admitted = trying.after(last[0]);
    let sent = admitted.after(last[1]);
    assert(last.drop_first().drop_first().len() == 0);
    assert(admitted.after_all(last.drop_first()) == sent.after_all(
        last.drop_first().drop_first(),
    ));
}

/// The retries are bounded: an owner that stays paused through every
/// attempt ends the handoff as `Busy`, which tells the caller that the
/// payload is still its own.
pub proof fn lemma_paused_throughout_is_busy(policy: ChannelPolicy)
    requires
        policy.handoff_attempts >= 1,
    ensures
        Handoff::fresh(policy).after_all(
            turned_away((policy.handoff_attempts - 1) as nat) + seq![
                HandoffEvent::Greeted(Greeting::RetryLater),
            ],
        ).stage == HandoffStage::Finished(HandoffEnd::Failed(ListenerError::Busy)),
{
    let start = Handoff::fresh(policy);
    let rounds = (policy.handoff_attempts - 1) as nat;
    let last = seq![HandoffEvent::Greeted(Greeting::RetryLater)];
    lemma_turned_away_keeps_trying(start, rounds);
    lemma_handoff_runs_compose(start, turned_away(rounds), last);
    let trying = start.after_all(turned_away(rounds));
    let refused = trying.after(last[0]);
    assert(last.drop_first().len() == 0);
    assert(trying.after_all(last) == refused.after_all(last.drop_first()));
}

/// Where no owner answers, the secondary claims the address, and what it
/// claims it owns: the handoff ends as a takeover exactly when the claim
/// ended as claimed, and never as failed.
pub proof fn lemma_unreachable_owner_is_replaced(policy: ChannelPolicy, outcome: ClaimOutcome)
    ensures
        Handoff::fresh(policy).after_all(
            seq![HandoffEvent::Unreachable, HandoffEvent::ClaimEnded(outcome)],
        ).stage == HandoffStage::Finished(end_of_claim(outcome)),
        end_of_claim(outcome).delivers_here(),
        end_of_claim(outcome) is TakeOver <==> outcome is Claimed,
{
    let start = Handoff::fresh(policy);
    let events = seq![HandoffEvent::Unreachable, HandoffEvent::ClaimEnded(outcome)];
    let claiming = start.after(events[0]);
    let ended = claiming.after(events[1]);
    assert(events.drop_first().drop_first().len() == 0);
    assert(claiming.after_all(events.drop_first()) == ended.after_all(
        events.drop_first().drop_first(),
    ));
}

} // verus!
