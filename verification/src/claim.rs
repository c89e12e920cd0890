//! Claiming the channel address.
//!
//! The endpoint binds, and where the address is taken it asks whoever holds
//! it. A holder that answers is a live owner. A holder that stays silent has
//! left a stale claim behind, which is evicted a bounded number of times
//! before the address is bound again. The decisions are made here; binding,
//! probing and evicting are done by whoever drives the attempt, which reports
//! back what happened.

use crate::error::ListenerError;
use crate::policy::ChannelPolicy;
use vstd::prelude::*;

verus! {

/// How a claim ended.
#[derive(Clone, Copy, Debug, PartialEq, Eq, Structural)]
pub enum ClaimOutcome {
    /// The address is bound by this process. `reclaimed` tells whether a
    /// stale claim was evicted on the way.
    Claimed { reclaimed: bool },
    /// A live owner holds the address.
    Occupied,
    /// The address could not be claimed.
    Failed(ListenerError),
}

/// What the driver reports back.
#[derive(Clone, Copy, Debug, PartialEq, Eq, Structural)]
pub enum ClaimEvent {
    /// The exclusive bind succeeded.
    Bound,
    /// The bind found the address taken.
    AddressInUse,
    /// The bind failed for another reason.
    BindFailed,
    /// The holder of the address answered the probe.
    ProbeAnswered,
    /// Nobody answered the probe in time.
    ProbeSilent,
    /// The stale claim is gone.
    Evicted,
    /// The claim is not stale any more: it changed hands in the meantime.
    EvictRefused,
    /// The stale claim could not be removed.
    EvictFailed,
}

/// What the driver is asked to do next.
#[derive(Clone, Copy, Debug, PartialEq, Eq, Structural)]
pub enum ClaimAction {
    /// Bind the address exclusively.
    Bind,
    /// Connect to the holder of the address and wait this long for it.
    Probe { timeout_ms: u32 },
    /// Remove the claim, provided that it is still the stale one.
    EvictStale,
    /// Nothing more: the claim ended.
    Finish(ClaimOutcome),
}

/// Where a claim stands.
#[derive(Clone, Copy, Debug, PartialEq, Eq, Structural)]
pub enum ClaimStage {
    /// Waiting for the result of a bind.
    Binding,
    /// Waiting for the result of a probe.
    Probing,
    /// Waiting for the result of an eviction.
    Evicting,
    /// Ended.
    Finished(ClaimOutcome),
}

/// One attempt to claim the address, from the first bind to its outcome.
#[derive(Clone, Copy, Debug, PartialEq, Eq, Structural)]
pub struct ClaimAttempt {
    /// Where the attempt stands.
    pub stage: ClaimStage,
    /// Evictions that may still be tried.
    pub reclaims_left: u8,
    /// Whether a stale claim was evicted.
    pub evicted: bool,
    /// How long a probe waits, in milliseconds.
    pub probe_timeout_ms: u32,
}

impl ClaimAttempt {
    /// An attempt that has not bound yet.
    pub open spec fn fresh(policy: ChannelPolicy) -> ClaimAttempt {
        ClaimAttempt {
            stage: ClaimStage::Binding,
            reclaims_left: policy.reclaim_attempts,
            evicted: false,
            probe_timeout_ms: policy.connect_timeout_ms,
        }
    }

    /// The action that the attempt waits on.
    pub open spec fn pending(self) -> ClaimAction {
        match self.stage {
            ClaimStage::Binding => ClaimAction::Bind,
            ClaimStage::Probing => ClaimAction::Probe { timeout_ms: self.probe_timeout_ms },
            ClaimStage::Evicting => ClaimAction::EvictStale,
            ClaimStage::Finished(outcome) => ClaimAction::Finish(outcome),
        }
    }

    /// The stage that follows `event`, with the evictions left after it.
    pub open spec fn after(self, event: ClaimEvent) -> ClaimAttempt {
        match (self.stage, event) {
            (ClaimStage::Finished(_), _) => self,
            (ClaimStage::Binding, ClaimEvent::Bound) => ClaimAttempt {
                stage: ClaimStage::Finished(ClaimOutcome::Claimed { reclaimed: self.evicted }),
                ..self
            },
            (ClaimStage::Binding, ClaimEvent::AddressInUse) => ClaimAttempt {
                stage: ClaimStage::Probing,
                ..self
            },
            (ClaimStage::Probing, ClaimEvent::ProbeAnswered) => ClaimAttempt {
                stage: ClaimStage::Finished(ClaimOutcome::Occupied),
                ..self
            },
            (ClaimStage::Probing, ClaimEvent::ProbeSilent) => if self.reclaims_left > 0 {
                ClaimAttempt {
                    stage: ClaimStage::Evicting,
                    reclaims_left: (self.reclaims_left - 1) as u8,
                    ..self
                }
            } else {
                ClaimAttempt {
                    stage: ClaimStage::Finished(ClaimOutcome::Failed(ListenerError::StaleLock)),
                    ..self
                }
            },
            (ClaimStage::Evicting, ClaimEvent::Evicted) => ClaimAttempt {
                stage: ClaimStage::Binding,
                evicted: true,
                ..self
            },
            (ClaimStage::Evicting, ClaimEvent::EvictRefused) => ClaimAttempt {
                stage: ClaimStage::Probing,
                ..self
            },
            _ => ClaimAttempt {
                stage: ClaimStage::Finished(ClaimOutcome::Failed(ListenerError::IoFatal)),
                ..self
            },
        }
    }

    /// The attempt after a run of events, taken in order.
    pub open spec fn after_all(self, events: Seq<ClaimEvent>) -> ClaimAttempt
        decreases events.len(),
    {
        if events.len() == 0 {
            self
        } else {
            self.after(events[0]).after_all(events.drop_first())
        }
    }

    /// The most events that the attempt can still take before it ends.
    pub open spec fn budget(self) -> nat {
        match self.stage {
            ClaimStage::Finished(_) => 0,
            ClaimStage::Probing => (3 * self.reclaims_left + 1) as nat,
            ClaimStage::Binding => (3 * self.reclaims_left + 2) as nat,
            ClaimStage::Evicting => (3 * self.reclaims_left + 3) as nat,
        }
    }

    /// Whether the attempt ended.
    pub open spec fn finished(self) -> bool {
        self.stage is Finished
    }

    /// Starts an attempt. Its first action is to bind.
    pub fn begin(policy: &ChannelPolicy) -> (attempt: ClaimAttempt)
        ensures
            attempt == ClaimAttempt::fresh(*policy),
            attempt.pending() == ClaimAction::Bind,
    {
        ClaimAttempt {
            stage: ClaimStage::Binding,
            reclaims_left: policy.reclaim_attempts,
            evicted: false,
            probe_timeout_ms: policy.connect_timeout_ms,
        }
    }

    /// The action that the attempt waits on.
    pub fn action(&self) -> (action: ClaimAction)
        ensures
            action == self.pending(),
    {
        match self.stage {
            ClaimStage::Binding => ClaimAction::Bind,
            ClaimStage::Probing => ClaimAction::Probe { timeout_ms: self.probe_timeout_ms },
            ClaimStage::Evicting => ClaimAction::EvictStale,
            ClaimStage::Finished(outcome) => ClaimAction::Finish(outcome),
        }
    }

    /// Takes the result of the action asked for last and says what to do
    /// next. A result that does not belong to that action ends the attempt as
    /// `IoFatal`; once ended, an attempt stays as it is.
    pub fn on_event(&mut self, event: ClaimEvent) -> (action: ClaimAction)
        ensures
            *final(self) == old(self).after(event),
            action == final(self).pending(),
            !old(self).finished() ==> final(self).budget() < old(self).budget(),
    {
        match self.stage {
            ClaimStage::Finished(_) => {},
            ClaimStage::Binding => match event {
                ClaimEvent::Bound => {
                    self.stage = ClaimStage::Finished(
                        ClaimOutcome::Claimed { reclaimed: self.evicted },
                    );
                },
                ClaimEvent::AddressInUse => {
                    self.stage = ClaimStage::Probing;
                },
                _ => {
                    self.stage = ClaimStage::Finished(
                        ClaimOutcome::Failed(ListenerError::IoFatal),
                    );
                },
            },
            ClaimStage::Probing => match event {
                ClaimEvent::ProbeAnswered => {
                    self.stage = ClaimStage::Finished(ClaimOutcome::Occupied);
                },
                ClaimEvent::ProbeSilent => {
                    if self.reclaims_left > 0 {
                        self.reclaims_left = self.reclaims_left - 1;
                        self.stage = ClaimStage::Evicting;
                    } else {
                        self.stage = ClaimStage::Finished(
                            ClaimOutcome::Failed(ListenerError::StaleLock),
                        );
                    }
                },
                _ => {
                    self.stage = ClaimStage::Finished(
                        ClaimOutcome::Failed(ListenerError::IoFatal),
                    );
                },
            },
            ClaimStage::Evicting => match event {
                ClaimEvent::Evicted => {
                    self.evicted = true;
                    self.stage = ClaimStage::Binding;
                },
                ClaimEvent::EvictRefused => {
                    self.stage = ClaimStage::Probing;
                },
                _ => {
                    self.stage = ClaimStage::Finished(
                        ClaimOutcome::Failed(ListenerError::IoFatal),
                    );
                },
            },
        }
        self.action()
    }

    /// The outcome, once the attempt ended.
    pub fn outcome(&self) -> (outcome: Option<ClaimOutcome>)
        ensures
            outcome == (match self.stage {
                ClaimStage::Finished(o) => Some(o),
                _ => None::<ClaimOutcome>,
            }),
    {
        match self.stage {
            ClaimStage::Finished(o) => Some(o),
            _ => None,
        }
    }
}

/// Every event brings an attempt that has not ended closer to its end.
pub proof fn lemma_claim_progress(attempt: ClaimAttempt, event: ClaimEvent)
    requires
        !attempt.finished(),
    ensures
        attempt.after(event).budget() < attempt.budget(),
{
}

/// An attempt ends within its budget, whatever the driver reports: after
/// three events for each eviction allowed, and two more, nothing is left to
/// do.
pub proof fn lemma_claim_ends(attempt: ClaimAttempt, events: Seq<ClaimEvent>)
    requires
        events.len() >= attempt.budget(),
    ensures
        attempt.after_all(events).finished(),
    decreases events.len(),
{
    if events.len() > 0 {
        if !attempt.finished() {
            lemma_claim_progress(attempt, events[0]);
        }
        lemma_claim_ends(attempt.after(events[0]), events.drop_first());
    }
}

/// The budget of a fresh attempt.
pub proof fn lemma_fresh_claim_budget(policy: ChannelPolicy)
    ensures
        ClaimAttempt::fresh(policy).budget() == 3 * policy.reclaim_attempts + 2,
{
}

/// Ownership comes out of a successful bind and out of nothing else.
pub proof fn lemma_claimed_only_by_bind(attempt: ClaimAttempt, event: ClaimEvent)
    requires
        !attempt.finished(),
        attempt.after(event).stage matches ClaimStage::Finished(ClaimOutcome::Claimed { .. }),
    ensures
        attempt.stage == ClaimStage::Binding,
        event == ClaimEvent::Bound,
{
}

/// An attempt ends as `Occupied` only when a holder answered its probe.
pub proof fn lemma_occupied_only_by_answer(attempt: ClaimAttempt, event: ClaimEvent)
    requires
        !attempt.finished(),
        attempt.after(event).stage == ClaimStage::Finished(ClaimOutcome::Occupied),
    ensures
        attempt.stage == ClaimStage::Probing,
        event == ClaimEvent::ProbeAnswered,
{
}

/// A stale claim is reclaimed: where the address is taken, its holder stays
/// silent, the eviction goes through and the second bind succeeds, an
/// attempt that may evict at least once ends as claimed.
pub proof fn lemma_stale_claim_is_reclaimed(policy: ChannelPolicy)
    requires
        policy.reclaim_attempts >= 1,
    ensures
        ClaimAttempt::fresh(policy).after_all(
            seq![
                ClaimEvent::AddressInUse,
                ClaimEvent::ProbeSilent,
                ClaimEvent::Evicted,
                ClaimEvent::Bound,
            ],
        ).stage == ClaimStage::Finished(ClaimOutcome::Claimed { reclaimed: true }),
{
    let events = seq![
        ClaimEvent::AddressInUse,
        ClaimEvent::ProbeSilent,
        ClaimEvent::Evicted,
        ClaimEvent::Bound,
    ];
    let a0 = ClaimAttempt::fresh(policy);
    let a1 = a0.after(ClaimEvent::AddressInUse);
    let a2 = a1.after(ClaimEvent::ProbeSilent);
    let a3 = a2.after(ClaimEvent::Evicted);
    let a4 = a3.after(ClaimEvent::Bound);
    let e1 = events.drop_first();
    let e2 = e1.drop_first();
    let e3 = e2.drop_first();
    let e4 = e3.drop_first();
    assert(e4.len() == 0);
    assert(a4.after_all(e4) == a4);
    assert(a3.after_all(e3) == a4);
    assert(a2.after_all(e2) == a4);
    assert(a1.after_all(e1) == a4);
    assert(a0.after_all(events) == a4);
}

} // verus!
