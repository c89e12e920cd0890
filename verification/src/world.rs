//! Many launches, one address.
//!
//! The processes of one application contend for one address. Each runs its
//! claim one action at a time, and the actions of different processes fall in
//! any order. Processes pause, resume, close, and are terminated without
//! warning. Whatever the order, the address has one live owner at most, and a
//! process is the owner exactly while the address is bound to it.

use crate::claim::{ClaimAction, ClaimAttempt, ClaimEvent, ClaimOutcome, ClaimStage};
use crate::error::ListenerError;
use crate::handoff::end_of_claim;
use crate::listener::{ListenerModel, ListenerState};
use crate::policy::ChannelPolicy;
use crate::sim::Slot;
use vstd::prelude::*;

verus! {

/// One launched process.
pub struct Process {
    /// Whether the process still runs.
    pub alive: bool,
    /// Its listener.
    pub listener: ListenerModel,
    /// The claim it is in the middle of, if any.
    pub claim: Option<ClaimAttempt>,
}

/// The address and every process that was ever launched for it.
pub struct World {
    /// The address.
    pub slot: Slot,
    /// The processes, by process id.
    pub processes: Map<u64, Process>,
    /// The policy they all run under.
    pub policy: ChannelPolicy,
}

/// One thing that happens.
pub enum Step {
    /// A process is launched and begins its claim.
    Launch { pid: u64 },
    /// A process does the action that its claim waits on. With `fault`, the
    /// action fails on the way and leaves the address as it was.
    Advance { pid: u64, fault: bool },
    /// A secondary that reached no owner begins a claim of its own.
    Takeover { pid: u64 },
    /// The application asks for the accept loop.
    Listen { pid: u64 },
    /// The application pauses accepting.
    Pause { pid: u64 },
    /// The application begins accepting again.
    Start { pid: u64 },
    /// The process closes its listener.
    Close { pid: u64 },
    /// The accept loop of the process finds the channel unusable.
    LoopFails { pid: u64 },
    /// The process is terminated and releases nothing.
    Crash { pid: u64 },
}

/// What a process is told when its action fails on the way.
pub open spec fn fault_of(action: ClaimAction) -> ClaimEvent {
    match action {
        ClaimAction::Probe { .. } => ClaimEvent::ProbeSilent,
        ClaimAction::EvictStale => ClaimEvent::EvictFailed,
        _ => ClaimEvent::BindFailed,
    }
}

/// The listener once a claim ended: the claim of `init` for a listener
/// that was uninitialized, the claim of a takeover for a secondary.
pub open spec fn settle(listener: ListenerModel, outcome: ClaimOutcome) -> ListenerModel {
    if listener.state == ListenerState::Uninitialized {
        listener.after_init(outcome)
    } else {
        listener.after_handoff(end_of_claim(outcome))
    }
}

impl Step {
    /// The process that the step is about.
    pub open spec fn pid(self) -> u64 {
        match self {
            Step::Launch { pid } => pid,
            Step::Advance { pid, .. } => pid,
            Step::Takeover { pid } => pid,
            Step::Listen { pid } => pid,
            Step::Pause { pid } => pid,
            Step::Start { pid } => pid,
            Step::Close { pid } => pid,
            Step::LoopFails { pid } => pid,
            Step::Crash { pid } => pid,
        }
    }
}

impl World {
    /// A world in which nothing was launched yet. The address may be free,
    /// or held by a process of an earlier time.
    pub open spec fn initial(slot: Slot, policy: ChannelPolicy) -> World {
        World { slot, processes: Map::empty(), policy }
    }

    /// Whether `pid` runs.
    pub open spec fn runs(self, pid: u64) -> bool {
        self.processes.contains_key(pid) && self.processes[pid].alive
    }

    /// Whether `pid` runs as the owner, listening or paused.
    pub open spec fn is_owner(self, pid: u64) -> bool {
        self.runs(pid) && self.processes[pid].listener.is_owner()
    }

    /// Whether `step` can happen.
    pub open spec fn enabled(self, step: Step) -> bool {
        match step {
            Step::Launch { pid } => !self.processes.contains_key(pid),
            Step::Advance { pid, .. } => self.runs(pid) && self.processes[pid].claim is Some
                && !self.processes[pid].claim->0.finished(),
            Step::Takeover { pid } => self.runs(pid) && self.processes[pid].claim is None
                && self.processes[pid].listener.state == ListenerState::Secondary,
            _ => self.runs(step.pid()),
        }
    }

    /// The world with `process` in the place of `pid`.
    pub open spec fn with(self, pid: u64, process: Process) -> World {
        World { processes: self.processes.insert(pid, process), ..self }
    }

    /// The world after `step`. A step that cannot happen changes nothing.
    pub open spec fn next(self, step: Step) -> World {
        if !self.enabled(step) {
            self
        } else {
            match step {
                Step::Launch { pid } => self.with(
                    pid,
                    Process {
                        alive: true,
                        listener: ListenerModel::initial(),
                        claim: Some(ClaimAttempt::fresh(self.policy)),
                    },
                ),
                Step::Advance { pid, fault } => {
                    let process = self.processes[pid];
                    let attempt = process.claim->0;
                    let action = attempt.pending();
                    let event = if fault {
                        fault_of(action)
                    } else {
                        self.slot.answer(action)->0
                    };
                    let slot = if fault {
                        self.slot
                    } else {
                        self.slot.after(action, pid)
                    };
                    let ended = attempt.after(event);
                    let process = match ended.stage {
                        ClaimStage::Finished(outcome) => Process {
                            listener: settle(process.listener, outcome),
                            claim: None,
                            ..process
                        },
                        _ => Process { claim: Some(ended), ..process },
                    };
                    World { slot, ..self.with(pid, process) }
                },
                Step::Takeover { pid } => self.with(
                    pid,
                    Process {
                        claim: Some(ClaimAttempt::fresh(self.policy)),
                        ..self.processes[pid]
                    },
                ),
                Step::Listen { pid } => self.with(
                    pid,
                    Process {
                        listener: self.processes[pid].listener.after_listen(),
                        ..self.processes[pid]
                    },
                ),
                Step::Pause { pid } => self.with(
                    pid,
                    Process {
                        listener: self.processes[pid].listener.after_pause(),
                        ..self.processes[pid]
                    },
                ),
                Step::Start { pid } => self.with(
                    pid,
                    Process {
                        listener: self.processes[pid].listener.after_start(),
                        ..self.processes[pid]
                    },
                ),
                Step::Close { pid } => {
                    let process = self.processes[pid];
                    let slot = if process.listener.is_owner() {
                        self.slot.after_release(pid)
                    } else {
                        self.slot
                    };
                    World {
                        slot,
                        ..self.with(
                            pid,
                            Process {
                                listener: process.listener.after_close(),
                                claim: None,
                                ..process
                            },
                        )
                    }
                },
                Step::LoopFails { pid } => {
                    let process = self.processes[pid];
                    let slot = if process.listener.accepting {
                        self.slot.after_release(pid)
                    } else {
                        self.slot
                    };
                    World {
                        slot,
                        ..self.with(
                            pid,
                            Process {
                                listener: process.listener.after_accept_error(
                                    ListenerError::IoFatal,
                                ),
                                ..process
                            },
                        )
                    }
                },
                Step::Crash { pid } => World {
                    slot: self.slot.after_crash(pid),
                    ..self.with(pid, Process { alive: false, ..self.processes[pid] })
                },
            }
        }
    }

    /// The world after a run of steps, taken in order.
    pub open spec fn after_all(self, steps: Seq<Step>) -> World
        decreases steps.len(),
    {
        if steps.len() == 0 {
            self
        } else {
            self.next(steps[0]).after_all(steps.drop_first())
        }
    }

    /// Ownership and the bind are one and the same: a running process is
    /// the owner exactly when the address is bound to it, a process in the
    /// middle of a claim is no owner yet, and every listener is well formed.
    pub open spec fn coherent(self) -> bool {
        &&& forall|pid: u64| #[trigger] self.is_owner(pid) ==> self.slot.owned_by(pid)
        &&& forall|pid: u64| #[trigger] self.slot.owned_by(pid) ==> self.is_owner(pid)
        &&& forall|pid: u64| #[trigger] self.runs(pid) ==> self.processes[pid].listener.wf()
        &&& forall|pid: u64|
            #[trigger] self.runs(pid) && self.processes[pid].claim is Some ==> {
                let state = self.processes[pid].listener.state;
                state == ListenerState::Uninitialized || state == ListenerState::Secondary
            }
    }
}

/// Before anything is launched, the world is coherent, provided that the
/// address is free or stale.
pub proof fn lemma_initial_world_is_coherent(slot: Slot, policy: ChannelPolicy)
    requires
        !slot.answers(),
    ensures
        World::initial(slot, policy).coherent(),
{
}

/// No step breaks coherence, whichever process takes it and whenever.
pub proof fn lemma_step_keeps_coherence(world: World, step: Step)
    requires
        world.coherent(),
    ensures
        world.next(step).coherent(),
{
    let next = world.next(step);
    if world.enabled(step) {
        let me = step.pid();
        assert forall|pid: u64| #[trigger] next.is_owner(pid) implies next.slot.owned_by(pid) by {
            if pid != me {
                assert(world.is_owner(pid));
            } else if world.runs(pid) {
                if world.processes[pid].listener.is_owner() {
                    assert(world.is_owner(pid));
                }
            }
        }
        assert forall|pid: u64| #[trigger] next.slot.owned_by(pid) implies next.is_owner(pid) by {
            if world.slot.owned_by(pid) {
                assert(world.is_owner(pid));
            }
        }
        assert forall|pid: u64| #[trigger] next.runs(pid) implies next.processes[pid].listener.wf() by {
            if pid != me {
                assert(world.runs(pid));
            } else if world.runs(pid) {
                assert(world.processes[pid].listener.wf());
            }
        }
        assert forall|pid: u64| #[trigger]
            next.runs(pid) && next.processes[pid].claim is Some implies {
            let state = next.processes[pid].listener.state;
            state == ListenerState::Uninitialized || state == ListenerState::Secondary
        } by {
            if pid != me {
                assert(world.runs(pid));
            } else if world.runs(pid) {
                if world.processes[pid].listener.is_owner() {
                    assert(world.is_owner(pid));
                }
            }
        }
    }
}

/// Coherence holds after every run of steps.
pub proof fn lemma_run_keeps_coherence(world: World, steps: Seq<Step>)
    requires
        world.coherent(),
    ensures
        world.after_all(steps).coherent(),
    decreases steps.len(),
{
    if steps.len() > 0 {
        lemma_step_keeps_coherence(world, steps[0]);
        lemma_run_keeps_coherence(world.next(steps[0]), steps.drop_first());
    }
}

/// At most one process owns the address at any instant: however the
/// launches, claims, pauses, closes and terminations of any number of
/// processes fall, two running processes that are both owners, listening or
/// paused, are one and the same.
pub proof fn lemma_at_most_one_owner(
    slot: Slot,
    policy: ChannelPolicy,
    steps: Seq<Step>,
    first: u64,
    second: u64,
)
    requires
        !slot.answers(),
        World::initial(slot, policy).after_all(steps).is_owner(first),
        World::initial(slot, policy).after_all(steps).is_owner(second),
    ensures
        first == second,
{
    lemma_initial_world_is_coherent(slot, policy);
    lemma_run_keeps_coherence(World::initial(slot, policy), steps);
}

/// A process becomes the owner by binding the address and in no other way:
/// the step that makes it the owner is a step of its own claim, and the
/// address, which was not bound to it before, is bound to it after.
pub proof fn lemma_owner_only_by_bind(world: World, step: Step, pid: u64)
    requires
        world.coherent(),
        !world.is_owner(pid),
        world.next(step).is_owner(pid),
    ensures
        step matches Step::Advance { pid: by, fault: false } && by == pid,
        world.slot == Slot::Free,
        world.next(step).slot.owned_by(pid),
{
    lemma_step_keeps_coherence(world, step);
    if step.pid() != pid {
        assert(world.runs(pid));
    }
}

} // verus!
