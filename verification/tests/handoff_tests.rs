use launch_handoff::claim::ClaimOutcome;
use launch_handoff::error::ListenerError;
use launch_handoff::handoff::{Handoff, HandoffAction, HandoffEnd, HandoffEvent, HandoffStage};
use launch_handoff::policy::ChannelPolicy;
use launch_handoff::wire::Greeting;

fn drive(policy: &ChannelPolicy, events: &[HandoffEvent]) -> (Handoff, Vec<HandoffAction>) {
    let mut handoff = Handoff::begin(policy);
    let mut actions = vec![handoff.action()];
    for e in events {
        actions.push(handoff.on_event(*e));
    }
    (handoff, actions)
}

#[test]
fn listening_owner_takes_the_frame_at_once() {
    let (handoff, actions) = drive(
        &ChannelPolicy::standard(),
        &[HandoffEvent::Greeted(Greeting::Admit), HandoffEvent::Transmitted],
    );
    assert_eq!(
        actions,
        vec![
            HandoffAction::Connect { timeout_ms: 300 },
            HandoffAction::Transmit,
            HandoffAction::Finish(HandoffEnd::Sent)
        ]
    );
    assert_eq!(handoff.end(), Some(HandoffEnd::Sent));
    assert_eq!(handoff.attempts_left, 3);
}

#[test]
fn paused_owner_is_retried_after_the_backoff() {
    let (handoff, actions) = drive(
        &ChannelPolicy::standard(),
        &[
            HandoffEvent::Greeted(Greeting::RetryLater),
            HandoffEvent::BackoffElapsed,
            HandoffEvent::Greeted(Greeting::RetryLater),
            HandoffEvent::BackoffElapsed,
            HandoffEvent::Greeted(Greeting::Admit),
            HandoffEvent::Transmitted,
        ],
    );
    assert_eq!(
        actions,
        vec![
            HandoffAction::Connect { timeout_ms: 300 },
            HandoffAction::Backoff { ms: 200 },
            HandoffAction::Connect { timeout_ms: 300 },
            HandoffAction::Backoff { ms: 200 },
            HandoffAction::Connect { timeout_ms: 300 },
            HandoffAction::Transmit,
            HandoffAction::Finish(HandoffEnd::Sent)
        ]
    );
    assert_eq!(handoff.attempts_left, 1);
}

#[test]
fn owner_paused_through_three_attempts_is_busy() {
    let (handoff, actions) = drive(
        &ChannelPolicy::standard(),
        &[
            HandoffEvent::Greeted(Greeting::RetryLater),
            HandoffEvent::BackoffElapsed,
            HandoffEvent::Greeted(Greeting::RetryLater),
            HandoffEvent::BackoffElapsed,
            HandoffEvent::Greeted(Greeting::RetryLater),
        ],
    );
    assert_eq!(
        actions.last(),
        Some(&HandoffAction::Finish(HandoffEnd::Failed(ListenerError::Busy)))
    );
    let waits = actions
        .iter()
        .filter(|a| matches!(a, HandoffAction::Backoff { .. }))
        .count();
    assert_eq!(waits, 2);
    assert_eq!(handoff.end(), Some(HandoffEnd::Failed(ListenerError::Busy)));
}

#[test]
fn single_attempt_policy_never_waits() {
    let mut once = ChannelPolicy::standard();
    once.handoff_attempts = 1;
    let (handoff, actions) = drive(&once, &[HandoffEvent::Greeted(Greeting::RetryLater)]);
    assert_eq!(
        actions,
        vec![
            HandoffAction::Connect { timeout_ms: 300 },
            HandoffAction::Finish(HandoffEnd::Failed(ListenerError::Busy))
        ]
    );
    assert_eq!(handoff.attempts_left, 0);
    once.handoff_attempts = 0;
    let (handoff, _) = drive(&once, &[HandoffEvent::Greeted(Greeting::RetryLater)]);
    assert_eq!(handoff.end(), Some(HandoffEnd::Failed(ListenerError::Busy)));
}

#[test]
fn unreachable_owner_leads_to_one_claim() {
    let (handoff, actions) = drive(
        &ChannelPolicy::standard(),
        &[
            HandoffEvent::Unreachable,
            HandoffEvent::ClaimEnded(ClaimOutcome::Claimed { reclaimed: true }),
        ],
    );
    assert_eq!(
        actions,
        vec![
            HandoffAction::Connect { timeout_ms: 300 },
            HandoffAction::Claim,
            HandoffAction::Finish(HandoffEnd::TakeOver { reclaimed: true })
        ]
    );
    assert_eq!(handoff.stage, HandoffStage::Finished(HandoffEnd::TakeOver { reclaimed: true }));
}

#[test]
fn failed_takeover_goes_on_unguarded() {
    let p = ChannelPolicy::standard();
    let (h, _) = drive(
        &p,
        &[HandoffEvent::Unreachable, HandoffEvent::ClaimEnded(ClaimOutcome::Occupied)],
    );
    assert_eq!(h.end(), Some(HandoffEnd::Unguarded(ListenerError::ClaimFailed)));
    let (h, _) = drive(
        &p,
        &[
            HandoffEvent::Unreachable,
            HandoffEvent::ClaimEnded(ClaimOutcome::Failed(ListenerError::StaleLock)),
        ],
    );
    assert_eq!(h.end(), Some(HandoffEnd::Unguarded(ListenerError::StaleLock)));
    let (h, _) = drive(
        &p,
        &[
            HandoffEvent::Unreachable,
            HandoffEvent::ClaimEnded(ClaimOutcome::Failed(ListenerError::IoFatal)),
        ],
    );
    assert_eq!(h.end(), Some(HandoffEnd::Unguarded(ListenerError::IoFatal)));
}

#[test]
fn failed_transmit_is_reported_as_it_is() {
    for e in [ListenerError::Closed, ListenerError::Timeout, ListenerError::Oversized] {
        let (h, _) = drive(
            &ChannelPolicy::standard(),
            &[HandoffEvent::Greeted(Greeting::Admit), HandoffEvent::TransmitFailed(e)],
        );
        assert_eq!(h.end(), Some(HandoffEnd::Failed(e)));
    }
}

#[test]
fn event_out_of_turn_fails_the_handoff() {
    let fatal = Some(HandoffEnd::Failed(ListenerError::IoFatal));
    let p = ChannelPolicy::standard();
    assert_eq!(drive(&p, &[HandoffEvent::Transmitted]).0.end(), fatal);
    assert_eq!(drive(&p, &[HandoffEvent::BackoffElapsed]).0.end(), fatal);
    assert_eq!(
        drive(&p, &[HandoffEvent::Greeted(Greeting::Admit), HandoffEvent::Unreachable]).0.end(),
        fatal
    );
    assert_eq!(
        drive(&p, &[HandoffEvent::Greeted(Greeting::RetryLater), HandoffEvent::Transmitted])
            .0
            .end(),
        fatal
    );
    assert_eq!(
        drive(&p, &[HandoffEvent::Unreachable, HandoffEvent::BackoffElapsed]).0.end(),
        fatal
    );
}

#[test]
fn ended_handoff_ignores_further_events() {
    let (mut h, _) = drive(
        &ChannelPolicy::standard(),
        &[HandoffEvent::Greeted(Greeting::Admit), HandoffEvent::Transmitted],
    );
    let before = h;
    assert_eq!(
        h.on_event(HandoffEvent::Unreachable),
        HandoffAction::Finish(HandoffEnd::Sent)
    );
    assert_eq!(h, before);
}

#[test]
fn handoff_under_way_has_no_end() {
    let (h, _) = drive(&ChannelPolicy::standard(), &[HandoffEvent::Greeted(Greeting::Admit)]);
    assert_eq!(h.end(), None);
}
