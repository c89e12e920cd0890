//! What becomes of a payload on its way from a secondary to the owner.
//!
//! The secondary runs its handoff against whatever the owner answers, and
//! the owner puts what it receives in its queue. Nothing is lost on the way:
//! the payload arrives intact, or the secondary is told that it did not.

use crate::handoff::{
    lemma_handoff_runs_compose, lemma_turned_away_keeps_trying, turned_away, Handoff, HandoffEnd,
    HandoffEvent, HandoffStage,
};
use crate::listener::{
    end_of_connection, queue_after_connection, ConnectionEnd, ListenerModel, ListenerState,
};
use crate::policy::ChannelPolicy;
use crate::wire::{fits, frame_bytes, frame_payload, lemma_frame_roundtrip, Greeting};
use vstd::prelude::*;

verus! {

/// What a connect is told by a process whose listener is `owner`: its
/// greeting where it accepts, and nothing where it does not.
pub open spec fn answer_of(owner: ListenerModel) -> HandoffEvent {
    match owner.greeting() {
        Some(greeting) => HandoffEvent::Greeted(greeting),
        None => HandoffEvent::Unreachable,
    }
}

/// The queue of a process whose listener is `owner` once a peer connected
/// and sent the frame of `payload`.
pub open spec fn queue_after_frame(
    owner: ListenerModel,
    queue: Seq<Seq<Seq<char>>>,
    payload: Seq<Seq<char>>,
    limit: u32,
) -> Seq<Seq<Seq<char>>> {
    match owner.greeting() {
        Some(greeting) => queue_after_connection(
            greeting,
            frame_payload(frame_bytes(payload), limit),
            queue,
        ),
        None => queue,
    }
}

/// A payload that a secondary hands over is delivered as it is: what the
/// owner decodes from the frame and puts in its queue is the same entries in
/// the same order.
pub proof fn lemma_handoff_is_delivered_intact(
    queue: Seq<Seq<Seq<char>>>,
    payload: Seq<Seq<char>>,
    limit: u32,
)
    requires
        fits(payload, limit),
    ensures
        end_of_connection(Greeting::Admit, frame_payload(frame_bytes(payload), limit))
            == ConnectionEnd::Delivered,
        queue_after_connection(
            Greeting::Admit,
            frame_payload(frame_bytes(payload), limit),
            queue,
        ) == queue.push(payload),
{
    lemma_frame_roundtrip(payload, limit);
}

/// A listening owner gets the payload of a secondary at the first attempt:
/// the handoff ends as sent, and the payload stands at the end of the
/// owner's queue, the same entries in the same order.
pub proof fn lemma_listening_owner_is_handed_the_payload(
    policy: ChannelPolicy,
    owner: ListenerModel,
    queue: Seq<Seq<Seq<char>>>,
    payload: Seq<Seq<char>>,
)
    requires
        owner.state == ListenerState::Listening,
        fits(payload, policy.max_body_len),
    ensures
        Handoff::fresh(policy).after_all(seq![answer_of(owner), HandoffEvent::Transmitted]).stage
            == HandoffStage::Finished(HandoffEnd::Sent),
        queue_after_frame(owner, queue, payload, policy.max_body_len) == queue.push(payload),
{
    lemma_frame_roundtrip(payload, policy.max_body_len);
    let events = seq![answer_of(owner), HandoffEvent::Transmitted];
    let admitted = Handoff::fresh(policy).after(events[0]);
    let sent = admitted.after(events[1]);
    assert(events.drop_first().drop_first().len() == 0);
    assert(admitted.after_all(events.drop_first()) == sent.after_all(
        events.drop_first().drop_first(),
    ));
}

/// A pause loses nothing. While the owner is paused, every attempt of a
/// secondary is turned away and the owner's queue stays as it was. Once the
/// owner was started again, before the attempts of the secondary ran out, the
/// attempt that follows is admitted: the handoff ends as sent, and the
/// payload stands at the end of the owner's queue, the same entries in the
/// same order.
pub proof fn lemma_pause_loses_nothing(
    policy: ChannelPolicy,
    owner: ListenerModel,
    queue: Seq<Seq<Seq<char>>>,
    payload: Seq<Seq<char>>,
    rounds: nat,
)
    requires
        owner.state == ListenerState::Listening,
        fits(payload, policy.max_body_len),
        rounds < policy.handoff_attempts,
    ensures
        answer_of(owner.after_pause()) == HandoffEvent::Greeted(Greeting::RetryLater),
        queue_after_frame(owner.after_pause(), queue, payload, policy.max_body_len) == queue,
        Handoff::fresh(policy).after_all(turned_away(rounds)).stage == HandoffStage::Connecting,
        Handoff::fresh(policy).after_all(
            turned_away(rounds) + seq![
                answer_of(owner.after_pause().after_start()),
                HandoffEvent::Transmitted,
            ],
        ).stage == HandoffStage::Finished(HandoffEnd::Sent),
        queue_after_frame(
            owner.after_pause().after_start(),
            queue,
            payload,
            policy.max_body_len,
        ) == queue.push(payload),
{
    let start = Handoff::fresh(policy);
    let last = seq![answer_of(owner.after_pause().after_start()), HandoffEvent::Transmitted];
    lemma_frame_roundtrip(payload, policy.max_body_len);
    lemma_turned_away_keeps_trying(start, rounds);
    lemma_handoff_runs_compose(start, turned_away(rounds), last);
    let trying = start.after_all(turned_away(rounds));
    let admitted = trying.after(last[0]);
    let sent = admitted.after(last[1]);
    assert(last.drop_first().drop_first().len() == 0);
    assert(admitted.after_all(last.drop_first()) == sent.after_all(
        last.drop_first().drop_first(),
    ));
}

/// A secondary is never told that a payload was sent unless the owner
/// admitted it: a handoff that ends as sent went through an attempt that was
/// greeted with `Admit` and through the whole frame being written.
pub proof fn lemma_sent_means_admitted(handoff: Handoff, event: HandoffEvent)
    requires
        !handoff.finished(),
        handoff.after(event).stage == HandoffStage::Finished(HandoffEnd::Sent),
    ensures
        handoff.stage == HandoffStage::Transmitting,
        event == HandoffEvent::Transmitted,
{
}

/// The frame is written to an owner that admitted it and to nobody else:
/// a handoff begins to transmit only on the greeting `Admit`.
pub proof fn lemma_transmit_means_admitted(handoff: Handoff, event: HandoffEvent)
    requires
        handoff.stage != HandoffStage::Transmitting,
        handoff.after(event).stage == HandoffStage::Transmitting,
    ensures
        handoff.stage == HandoffStage::Connecting,
        event == HandoffEvent::Greeted(Greeting::Admit),
{
}

} // verus!
