//! The channel address as the operating system keeps it, in memory.
//!
//! An address is free or held. Binding is exclusive: it succeeds on a free
//! address only. A holder that was terminated without releasing the address
//! leaves it held and silent. This endpoint does to a slot what an operating
//! system does to a named pipe, a local socket or a lock file, one action at
//! a time, so that launches can be played against each other without a
//! second process.

use crate::claim::{ClaimAction, ClaimAttempt, ClaimEvent, ClaimOutcome, ClaimStage};
use crate::error::ListenerError;
use crate::policy::ChannelPolicy;
use vstd::prelude::*;

verus! {

/// The address, as the operating system sees it.
#[derive(Clone, Copy, Debug, PartialEq, Eq, Structural)]
pub enum Slot {
    /// Nobody holds the address.
    Free,
    /// The process `holder` bound the address. It answers while `alive`.
    Held { holder: u64, alive: bool },
}

impl Slot {
    /// Whether `pid` holds the address and answers on it.
    pub open spec fn owned_by(self, pid: u64) -> bool {
        self == (Slot::Held { holder: pid, alive: true })
    }

    /// Whether a live process holds the address.
    pub open spec fn answers(self) -> bool {
        self matches Slot::Held { alive, .. } && alive
    }

    /// Whether the address is held by a process that is gone.
    pub open spec fn stale(self) -> bool {
        self matches Slot::Held { alive, .. } && !alive
    }

    /// The address after `pid` did `action` to it.
    pub open spec fn after(self, action: ClaimAction, pid: u64) -> Slot {
        match action {
            ClaimAction::Bind => if self == Slot::Free {
                Slot::Held { holder: pid, alive: true }
            } else {
                self
            },
            ClaimAction::EvictStale => if self.stale() {
                Slot::Free
            } else {
                self
            },
            _ => self,
        }
    }

    /// What `pid` is told when it does `action` to the address.
    pub open spec fn answer(self, action: ClaimAction) -> Option<ClaimEvent> {
        match action {
            ClaimAction::Bind => if self == Slot::Free {
                Some(ClaimEvent::Bound)
            } else {
                Some(ClaimEvent::AddressInUse)
            },
            ClaimAction::Probe { .. } => if self.answers() {
                Some(ClaimEvent::ProbeAnswered)
            } else {
                Some(ClaimEvent::ProbeSilent)
            },
            ClaimAction::EvictStale => if self.answers() {
                Some(ClaimEvent::EvictRefused)
            } else {
                Some(ClaimEvent::Evicted)
            },
            ClaimAction::Finish(_) => None,
        }
    }

    /// The address after its holder `pid` released it.
    pub open spec fn after_release(self, pid: u64) -> Slot {
        if self matches Slot::Held { holder, .. } && holder == pid {
            Slot::Free
        } else {
            self
        }
    }

    /// The address after the process `pid` was terminated.
    pub open spec fn after_crash(self, pid: u64) -> Slot {
        if self matches Slot::Held { holder, .. } && holder == pid {
            Slot::Held { holder: pid, alive: false }
        } else {
            self
        }
    }
}

/// Where a claim that is driven to its end on an undisturbed address
/// leaves the address, and how it ends.
pub open spec fn claim_run(slot: Slot, attempt: ClaimAttempt, pid: u64) -> (Slot, ClaimOutcome)
    decreases attempt.budget(),
{
    match attempt.stage {
        ClaimStage::Finished(outcome) => (slot, outcome),
        _ => {
            let action = attempt.pending();
            claim_run(slot.after(action, pid), attempt.after(slot.answer(action)->0), pid)
        },
    }
}

/// The same, told by the address alone: a free address is claimed, a live
/// owner keeps it, and a stale claim is evicted where the policy allows
/// one eviction at least.
pub open spec fn claim_result(slot: Slot, policy: ChannelPolicy, pid: u64) -> (Slot, ClaimOutcome) {
    match slot {
        Slot::Free => (
            Slot::Held { holder: pid, alive: true },
            ClaimOutcome::Claimed { reclaimed: false },
        ),
        Slot::Held { alive: true, .. } => (slot, ClaimOutcome::Occupied),
        Slot::Held { alive: false, .. } => if policy.reclaim_attempts >= 1 {
            (Slot::Held { holder: pid, alive: true }, ClaimOutcome::Claimed { reclaimed: true })
        } else {
            (slot, ClaimOutcome::Failed(ListenerError::StaleLock))
        },
    }
}

/// A claim that nobody disturbs ends as the address alone tells. In
/// particular a stale claim is reclaimed within the evictions allowed.
pub proof fn lemma_undisturbed_claim(slot: Slot, policy: ChannelPolicy, pid: u64)
    ensures
        claim_run(slot, ClaimAttempt::fresh(policy), pid) == claim_result(slot, policy, pid),
{
    reveal_with_fuel(claim_run, 6);
}

/// One channel address, kept in memory.
#[derive(Clone, Copy, Debug, PartialEq, Eq, Structural)]
pub struct SimEndpoint {
    /// Who holds the address.
    pub slot: Slot,
}

impl SimEndpoint {
    /// An address that nobody holds.
    pub fn new() -> (endpoint: SimEndpoint)
        ensures
            endpoint.slot == Slot::Free,
    {
        SimEndpoint { slot: Slot::Free }
    }

    /// Does one action of a claim for the process `pid`, and says what
    /// happened. There is nothing to do for `Finish`.
    pub fn perform(&mut self, action: ClaimAction, pid: u64) -> (event: Option<ClaimEvent>)
        ensures
            final(self).slot == old(self).slot.after(action, pid),
            event == old(self).slot.answer(action),
    {
        match action {
            ClaimAction::Bind => match self.slot {
                Slot::Free => {
                    self.slot = Slot::Held { holder: pid, alive: true };
                    Some(ClaimEvent::Bound)
                },
                _ => Some(ClaimEvent::AddressInUse),
            },
            ClaimAction::Probe { .. } => match self.slot {
                Slot::Held { alive: true, .. } => Some(ClaimEvent::ProbeAnswered),
                _ => Some(ClaimEvent::ProbeSilent),
            },
            ClaimAction::EvictStale => match self.slot {
                Slot::Held { alive: true, .. } => Some(ClaimEvent::EvictRefused),
                Slot::Held { alive: false, .. } => {
                    self.slot = Slot::Free;
                    Some(ClaimEvent::Evicted)
                },
                Slot::Free => Some(ClaimEvent::Evicted),
            },
            ClaimAction::Finish(_) => None,
        }
    }

    /// Runs one whole claim for the process `pid`, with nobody in between.
    pub fn claim(&mut self, pid: u64, policy: &ChannelPolicy) -> (outcome: ClaimOutcome)
        ensures
            (final(self).slot, outcome) == claim_result(old(self).slot, *policy, pid),
            outcome is Claimed <==> final(self).slot.owned_by(pid) && !old(self).slot.answers(),
    {
        let mut attempt = ClaimAttempt::begin(policy);
        proof {
            lemma_undisturbed_claim(self.slot, *policy, pid);
        }
        loop
            invariant
                claim_run(self.slot, attempt, pid) == claim_result(old(self).slot, *policy, pid),
            decreases attempt.budget(),
        {
            match attempt.action() {
                ClaimAction::Finish(outcome) => {
                    return outcome;
                },
                action => {
                    match self.perform(action, pid) {
                        Some(event) => {
                            attempt.on_event(event);
                        },
                        None => {
                            return ClaimOutcome::Failed(ListenerError::IoFatal);
                        },
                    }
                },
            }
        }
    }

    /// The holder `pid` releases the address, as an owner does when it
    /// closes. Nobody else can release it.
    pub fn release(&mut self, pid: u64)
        ensures
            final(self).slot == old(self).slot.after_release(pid),
    {
        match self.slot {
            Slot::Held { holder, .. } => {
                if holder == pid {
                    self.slot = Slot::Free;
                }
            },
            Slot::Free => {},
        }
    }

    /// The process `pid` is terminated without releasing anything: what it
    /// held stays held, and silent.
    pub fn crash(&mut self, pid: u64)
        ensures
            final(self).slot == old(self).slot.after_crash(pid),
    {
        match self.slot {
            Slot::Held { holder, .. } => {
                if holder == pid {
                    self.slot = Slot::Held { holder: pid, alive: false };
                }
            },
            Slot::Free => {},
        }
    }

    /// The process that a connect reaches: the live holder, if there is one.
    pub fn connect(&self) -> (owner: Option<u64>)
        ensures
            owner == (match self.slot {
                Slot::Held { holder, alive: true } => Some(holder),
                _ => None::<u64>,
            }),
    {
        match self.slot {
            Slot::Held { holder, alive: true } => Some(holder),
            _ => None,
        }
    }
}

} // verus!
