use launch_handoff::claim::{ClaimAttempt, ClaimOutcome};
use launch_handoff::error::{ListenerError, Recovery};
use launch_handoff::handoff::HandoffEnd;
use launch_handoff::listener::{
    AcceptVerdict, CloseAction, ConnectionEnd, ControlEffect, ControlSignal, InitReport, ListenAction, Listener,
    ListenerModel, ListenerState, SendReport, SendStep,
};
use launch_handoff::payload::Payload;
use launch_handoff::policy::ChannelPolicy;
use launch_handoff::queue::DeliveryQueue;
use launch_handoff::wire::Greeting;

fn payload_with(items: &[&str]) -> Payload {
    Payload::from_vec(items.iter().map(|s| s.to_string()).collect())
}

fn owner() -> Listener {
    let mut l = Listener::new();
    l.complete_init(ClaimOutcome::Claimed { reclaimed: false });
    l
}

fn secondary() -> Listener {
    let mut l = Listener::new();
    l.complete_init(ClaimOutcome::Occupied);
    l
}

#[test]
fn new_listener_is_uninitialized() {
    let l = Listener::new();
    assert_eq!(l.state(), ListenerState::Uninitialized);
    assert!(!l.is_owner());
    assert!(!l.is_accepting());
    assert!(!l.is_unguarded());
    assert!(!l.delivers_locally());
    assert_eq!(
        l.model(),
        ListenerModel { state: ListenerState::Uninitialized, accepting: false, unguarded: false }
    );
}

#[test]
fn init_claims_once() {
    let p = ChannelPolicy::standard();
    let mut l = Listener::new();
    assert_eq!(l.begin_init(&p), Some(ClaimAttempt::begin(&p)));
    assert_eq!(
        l.complete_init(ClaimOutcome::Claimed { reclaimed: true }),
        InitReport::BecameOwner { reclaimed: true }
    );
    assert_eq!(l.state(), ListenerState::Listening);
    assert_eq!(l.begin_init(&p), None);
    assert_eq!(l.complete_init(ClaimOutcome::Occupied), InitReport::AlreadyInitialized);
    assert_eq!(l.state(), ListenerState::Listening);
}

#[test]
fn occupied_address_makes_a_secondary() {
    let mut l = Listener::new();
    assert_eq!(l.complete_init(ClaimOutcome::Occupied), InitReport::BecameSecondary);
    assert_eq!(l.state(), ListenerState::Secondary);
    assert!(!l.is_owner());
    assert!(!l.delivers_locally());
}

#[test]
fn failed_claim_closes_and_warns() {
    let mut l = Listener::new();
    assert_eq!(
        l.complete_init(ClaimOutcome::Failed(ListenerError::IoFatal)),
        InitReport::Unguarded(ListenerError::IoFatal)
    );
    assert_eq!(l.state(), ListenerState::Closed);
    assert!(l.is_unguarded());
    assert!(!l.is_owner());
    assert!(l.delivers_locally());
    assert_eq!(l.listen(), Err(ListenerError::NotOwner));
}

#[test]
fn listen_needs_ownership_and_spawns_once() {
    let mut l = owner();
    assert!(!l.is_accepting());
    assert_eq!(l.listen(), Ok(ListenAction::SpawnAcceptLoop));
    assert!(l.is_accepting());
    assert_eq!(l.listen(), Ok(ListenAction::AlreadyAccepting));
    assert!(l.is_accepting());
    assert_eq!(secondary().listen(), Err(ListenerError::NotOwner));
    assert_eq!(Listener::new().listen(), Err(ListenerError::NotOwner));
}

#[test]
fn start_and_pause_toggle_an_owner() {
    let mut l = owner();
    l.listen().unwrap();
    assert_eq!(l.pause(), ControlEffect::Switched);
    assert_eq!(l.state(), ListenerState::Paused);
    assert!(l.is_owner());
    assert!(l.is_accepting());
    assert_eq!(l.start(), ControlEffect::Switched);
    assert_eq!(l.state(), ListenerState::Listening);
}

#[test]
fn start_when_listening_and_pause_when_paused_do_nothing() {
    let mut l = owner();
    let before = l.model();
    assert_eq!(l.start(), ControlEffect::Unchanged);
    assert_eq!(l.model(), before);
    l.pause();
    let paused = l.model();
    assert_eq!(l.pause(), ControlEffect::Unchanged);
    assert_eq!(l.pause(), ControlEffect::Unchanged);
    assert_eq!(l.model(), paused);
}

#[test]
fn controls_are_ignored_without_ownership() {
    for mut l in [Listener::new(), secondary()] {
        let before = l.model();
        assert_eq!(l.start(), ControlEffect::Ignored);
        assert_eq!(l.pause(), ControlEffect::Ignored);
        assert_eq!(l.on_signal(ControlSignal::Pause), ControlEffect::Ignored);
        assert_eq!(l.model(), before);
    }
    let mut closed = owner();
    closed.close();
    assert_eq!(closed.start(), ControlEffect::Ignored);
    assert_eq!(closed.state(), ListenerState::Closed);
}

#[test]
fn control_signals_have_their_names() {
    assert_eq!(ControlSignal::Start.name(), "listener-start");
    assert_eq!(ControlSignal::Pause.name(), "listener-pause");
    assert_eq!(ControlSignal::from_name("listener-start"), Some(ControlSignal::Start));
    assert_eq!(ControlSignal::from_name("listener-pause"), Some(ControlSignal::Pause));
    assert_eq!(ControlSignal::from_name("listener-stop"), None);
    assert_eq!(ControlSignal::from_name(""), None);
    assert_eq!(ControlSignal::from_name("listener-start "), None);
    let mut l = owner();
    assert_eq!(l.on_signal(ControlSignal::Pause), ControlEffect::Switched);
    assert_eq!(l.on_signal(ControlSignal::Start), ControlEffect::Switched);
    assert_eq!(l.on_signal(ControlSignal::Start), ControlEffect::Unchanged);
}

#[test]
fn close_releases_what_an_owner_holds() {
    let mut l = owner();
    l.listen().unwrap();
    l.pause();
    assert_eq!(l.close(), CloseAction::ReleaseEndpoint);
    assert_eq!(l.state(), ListenerState::Closed);
    assert!(!l.is_accepting());
    assert_eq!(l.close(), CloseAction::Nothing);
    assert_eq!(secondary().close(), CloseAction::Nothing);
    let mut unguarded = Listener::new();
    unguarded.complete_init(ClaimOutcome::Failed(ListenerError::StaleLock));
    assert_eq!(unguarded.close(), CloseAction::Nothing);
    assert!(!unguarded.is_unguarded());
}

#[test]
fn owner_send_lands_in_its_own_queue_unchanged() {
    let l = owner();
    let mut q = DeliveryQueue::new();
    let first = payload_with(&["earlier"]);
    let p = payload_with(&["file1.torrent", "magnet:?xt=...", "file1.torrent"]);
    assert_eq!(l.send(&first, &mut q), SendStep::Delivered);
    assert_eq!(l.send(&p, &mut q), SendStep::Delivered);
    assert_eq!(q.len(), 2);
    assert_eq!(q.pop().unwrap().into_vec(), vec!["earlier"]);
    assert_eq!(
        q.pop().unwrap().into_vec(),
        vec!["file1.torrent", "magnet:?xt=...", "file1.torrent"]
    );
    assert!(q.pop().is_none());
    assert_eq!(p.len(), 3);
}

#[test]
fn owner_send_of_empty_payload_is_delivered_too() {
    let mut l = owner();
    l.pause();
    let mut q = DeliveryQueue::new();
    assert_eq!(l.send(&Payload::new(), &mut q), SendStep::Delivered);
    assert_eq!(q.len(), 1);
    assert!(q.pop().unwrap().is_empty());
    assert!(q.is_empty());
}

#[test]
fn send_is_routed_by_role() {
    let p = payload_with(&["a"]);
    let mut q = DeliveryQueue::new();
    assert_eq!(secondary().send(&p, &mut q), SendStep::HandOff);
    assert_eq!(Listener::new().send(&p, &mut q), SendStep::Refused(ListenerError::NotOwner));
    let mut closed = owner();
    closed.close();
    assert_eq!(closed.send(&p, &mut q), SendStep::Refused(ListenerError::Closed));
    assert!(q.is_empty());
    let mut unguarded = Listener::new();
    unguarded.complete_init(ClaimOutcome::Failed(ListenerError::IoFatal));
    assert_eq!(unguarded.send(&p, &mut q), SendStep::Delivered);
    assert_eq!(q.len(), 1);
}

#[test]
fn accept_settles_the_greeting() {
    let mut l = owner();
    let admitted = l.accept().unwrap();
    assert_eq!(admitted.greeting(), Greeting::Admit);
    assert!(admitted.expects_frame());
    l.pause();
    let turned_away = l.accept().unwrap();
    assert_eq!(turned_away.greeting(), Greeting::RetryLater);
    assert!(!turned_away.expects_frame());
    assert!(secondary().accept().is_none());
    assert!(Listener::new().accept().is_none());
    l.close();
    assert!(l.accept().is_none());
}

#[test]
fn admitted_connection_is_honored_after_a_pause() {
    let mut l = owner();
    let mut q = DeliveryQueue::new();
    let conn = l.accept().unwrap();
    assert_eq!(l.pause(), ControlEffect::Switched);
    assert_eq!(conn.complete(Ok(payload_with(&["x"])), &mut q), ConnectionEnd::Delivered);
    assert_eq!(q.pop().unwrap().into_vec(), vec!["x"]);
}

#[test]
fn turned_away_connection_consumes_nothing() {
    let mut l = owner();
    l.pause();
    let mut q = DeliveryQueue::new();
    let conn = l.accept().unwrap();
    assert_eq!(conn.complete(Ok(payload_with(&["x"])), &mut q), ConnectionEnd::TurnedAway);
    assert!(q.is_empty());
}

#[test]
fn connection_errors_drop_one_connection_only() {
    let l = owner();
    let mut q = DeliveryQueue::new();
    for e in [ListenerError::Malformed, ListenerError::Timeout, ListenerError::Closed] {
        let conn = l.accept().unwrap();
        assert_eq!(conn.complete(Err(e), &mut q), ConnectionEnd::Dropped(e));
        assert!(q.is_empty());
        assert!(l.is_owner());
    }
    let conn = l.accept().unwrap();
    assert_eq!(conn.complete(Ok(payload_with(&["after"])), &mut q), ConnectionEnd::Delivered);
    assert_eq!(q.len(), 1);
}

#[test]
fn finished_handoff_settles_the_secondary() {
    let p = payload_with(&["a", "b"]);
    let mut q = DeliveryQueue::new();

    let mut sent = secondary();
    assert_eq!(sent.finish_handoff(HandoffEnd::Sent, &p, &mut q), Ok(SendReport::HandedOver));
    assert_eq!(sent.state(), ListenerState::Secondary);
    assert!(q.is_empty());

    let mut failed = secondary();
    assert_eq!(
        failed.finish_handoff(HandoffEnd::Failed(ListenerError::Busy), &p, &mut q),
        Err(ListenerError::Busy)
    );
    assert_eq!(failed.state(), ListenerState::Secondary);
    assert!(q.is_empty());

    let mut taking = secondary();
    assert_eq!(
        taking.finish_handoff(HandoffEnd::TakeOver { reclaimed: true }, &p, &mut q),
        Ok(SendReport::DeliveredHere)
    );
    assert_eq!(taking.state(), ListenerState::Listening);
    assert_eq!(taking.listen(), Ok(ListenAction::SpawnAcceptLoop));
    assert_eq!(q.pop().unwrap().into_vec(), vec!["a", "b"]);

    let mut alone = secondary();
    assert_eq!(
        alone.finish_handoff(HandoffEnd::Unguarded(ListenerError::ClaimFailed), &p, &mut q),
        Ok(SendReport::DeliveredHere)
    );
    assert_eq!(alone.state(), ListenerState::Closed);
    assert!(alone.is_unguarded());
    assert!(!alone.is_owner());
    assert_eq!(q.pop().unwrap().into_vec(), vec!["a", "b"]);
}

#[test]
fn handoff_end_means_nothing_to_other_roles() {
    let p = payload_with(&["a"]);
    let mut q = DeliveryQueue::new();
    let mut l = owner();
    assert_eq!(
        l.finish_handoff(HandoffEnd::TakeOver { reclaimed: false }, &p, &mut q),
        Err(ListenerError::Closed)
    );
    assert_eq!(l.state(), ListenerState::Listening);
    assert!(q.is_empty());
}

#[test]
fn queue_is_first_in_first_out() {
    let mut q = DeliveryQueue::new();
    assert!(q.is_empty());
    assert!(q.pop().is_none());
    q.push(payload_with(&["1"]));
    q.push(payload_with(&[]));
    q.push(payload_with(&["3", "3"]));
    assert_eq!(q.len(), 3);
    assert_eq!(q.pop().unwrap().into_vec(), vec!["1"]);
    assert!(q.pop().unwrap().is_empty());
    assert_eq!(q.pop().unwrap().into_vec(), vec!["3", "3"]);
    assert!(q.pop().is_none());
}

#[test]
fn every_error_has_its_recovery() {
    let table = [
        (ListenerError::ClaimFailed, Recovery::BecomeSecondary, false, true),
        (ListenerError::StaleLock, Recovery::Reclaim, false, true),
        (ListenerError::Unreachable, Recovery::ClaimAndDeliverLocally, false, true),
        (ListenerError::Malformed, Recovery::DropConnection, true, true),
        (ListenerError::Timeout, Recovery::DropConnection, true, true),
        (ListenerError::Closed, Recovery::DropConnection, true, true),
        (ListenerError::Busy, Recovery::BackOffAndRetry, false, true),
        (ListenerError::IoFatal, Recovery::RunUnguarded, false, true),
        (ListenerError::Oversized, Recovery::Report, false, false),
        (ListenerError::NotOwner, Recovery::Report, false, false),
    ];
    for (e, recovery, per_connection, recoverable) in table {
        assert_eq!(e.recovery(), recovery);
        assert_eq!(e.is_per_connection(), per_connection);
        assert_eq!(e.is_recoverable(), recoverable);
        assert!(!e.message().is_empty());
    }
    assert_eq!(ListenerError::Busy.message(), "owner is paused");
    assert_eq!(ListenerError::Malformed.message(), "frame could not be decoded");
}

#[test]
fn payload_basics() {
    let mut p = Payload::new();
    assert!(p.is_empty());
    assert_eq!(p.len(), 0);
    p.push("a".to_string());
    p.push("b".to_string());
    assert_eq!(p.len(), 2);
    assert_eq!(p.get(1), "b");
    let copy = p.duplicate();
    assert!(copy.same_as(&p));
    p.push("c".to_string());
    assert!(!copy.same_as(&p));
    assert!(!payload_with(&["a", "x"]).same_as(&copy));
    assert!(!payload_with(&["b", "a"]).same_as(&copy));
    assert_eq!(copy.into_vec(), vec!["a", "b"]);
}

#[test]
fn accept_loop_survives_the_errors_of_connections() {
    let mut l = owner();
    l.listen().unwrap();
    let before = l.model();
    for e in [
        ListenerError::Malformed,
        ListenerError::Timeout,
        ListenerError::Closed,
        ListenerError::Unreachable,
        ListenerError::Busy,
    ] {
        assert_eq!(l.on_accept_error(e), AcceptVerdict::Continue);
        assert_eq!(l.model(), before);
    }
}

#[test]
fn unusable_channel_costs_the_ownership() {
    let mut l = owner();
    l.listen().unwrap();
    l.pause();
    assert_eq!(l.on_accept_error(ListenerError::IoFatal), AcceptVerdict::OwnershipLost);
    assert_eq!(l.state(), ListenerState::Closed);
    assert!(l.is_unguarded());
    assert!(!l.is_accepting());
    assert!(l.delivers_locally());
    assert_eq!(l.on_accept_error(ListenerError::IoFatal), AcceptVerdict::Stop);
}

#[test]
fn accept_loop_that_is_not_wanted_stops() {
    let mut l = owner();
    assert_eq!(l.on_accept_error(ListenerError::Malformed), AcceptVerdict::Stop);
    assert_eq!(l.state(), ListenerState::Listening);
    l.listen().unwrap();
    l.close();
    assert_eq!(l.on_accept_error(ListenerError::Timeout), AcceptVerdict::Stop);
    assert_eq!(secondary().on_accept_error(ListenerError::IoFatal), AcceptVerdict::Stop);
}
