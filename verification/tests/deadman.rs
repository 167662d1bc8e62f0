use daisyway::osk::deadman::{
    erase_after_secs, DeadmanAction, DeadmanEvent, DeadmanRequest, DeadmanWorker, ERASE_GRACE_SECS,
};
use daisyway::osk::{OskUpdate, SetOskReason};

fn fresh(byte: u8) -> DeadmanEvent {
    DeadmanEvent::Request(DeadmanRequest::SetOsk { key: [byte; 32], reason: SetOskReason::Fresh })
}

fn answer(worker: &mut DeadmanWorker, event: DeadmanEvent) -> DeadmanAction {
    worker.on_event(event).expect("a running worker answers every event")
}

#[test]
fn erase_after_is_the_interval_and_thirty_seconds() {
    assert_eq!(ERASE_GRACE_SECS, 30);
    assert_eq!(erase_after_secs(120), 150);
    assert_eq!(erase_after_secs(0), 30);
    assert_eq!(erase_after_secs(u64::MAX - 30), u64::MAX);
}

#[test]
fn start_erases_at_once() {
    let (worker, first) = DeadmanWorker::start(150);
    assert!(worker.is_running());
    assert_eq!(first.update.reason, SetOskReason::Stale);
    assert_eq!(first.wait_secs, Some(150));
}

#[test]
fn deadman_timeout() {
    let (mut worker, first) = DeadmanWorker::start(1);
    assert_eq!(first.update.reason, SetOskReason::Stale);

    // One fresh update arrives in time and is handed on.
    let a = answer(&mut worker, fresh(1));
    assert_eq!(a.update.reason, SetOskReason::Fresh);
    assert_eq!(a.update.key, [1u8; 32]);
    assert_eq!(a.wait_secs, Some(1));

    // Nothing arrives before the wait runs out: one stale update.
    let b = answer(&mut worker, DeadmanEvent::DeadlineElapsed);
    assert_eq!(b.update.reason, SetOskReason::Stale);
    assert_ne!(b.update.key, [1u8; 32]);
    assert_eq!(b.wait_secs, Some(1));

    // Another fresh update is handed on.
    let c = answer(&mut worker, fresh(2));
    assert_eq!(c.update.reason, SetOskReason::Fresh);
    assert_eq!(c.update.key, [2u8; 32]);

    // And again the wait runs out.
    let d = answer(&mut worker, DeadmanEvent::DeadlineElapsed);
    assert_eq!(d.update.reason, SetOskReason::Stale);
    assert!(worker.is_running());
}

#[test]
fn refreshed_in_time_the_sink_sees_only_fresh_updates() {
    let (mut worker, _first) = DeadmanWorker::start(150);
    for byte in 0u8..50 {
        let action = answer(&mut worker, fresh(byte));
        assert_eq!(action.update.reason, SetOskReason::Fresh);
        assert_eq!(action.update.key, [byte; 32]);
        assert_eq!(action.wait_secs, Some(150));
    }
    assert!(worker.is_running());
}

#[test]
fn every_elapsed_deadline_erases_once_with_a_new_key() {
    let (mut worker, first) = DeadmanWorker::start(150);
    let a = answer(&mut worker, DeadmanEvent::DeadlineElapsed);
    let b = answer(&mut worker, DeadmanEvent::DeadlineElapsed);
    assert_eq!(a.update.reason, SetOskReason::Stale);
    assert_eq!(b.update.reason, SetOskReason::Stale);
    assert_ne!(a.update.key, b.update.key);
    assert_ne!(a.update.key, first.update.key);
    assert!(worker.is_running());
}

#[test]
fn requests_are_forwarded_with_their_reason() {
    let (mut worker, _first) = DeadmanWorker::start(150);
    let stale = DeadmanEvent::Request(DeadmanRequest::SetOsk {
        key: [9u8; 32],
        reason: SetOskReason::Stale,
    });
    let action = answer(&mut worker, stale);
    assert_eq!(action.update.reason, SetOskReason::Stale);
    assert_eq!(action.update.key, [9u8; 32]);
}

#[test]
fn closed_channel_erases_once_and_ends_the_worker() {
    let (mut worker, _first) = DeadmanWorker::start(150);
    let last = answer(&mut worker, DeadmanEvent::ChannelClosed);
    assert_eq!(last.update.reason, SetOskReason::Stale);
    assert_eq!(last.wait_secs, None);
    assert!(!worker.is_running());

    assert!(worker.on_event(fresh(1)).is_none());
    assert!(worker.on_event(DeadmanEvent::DeadlineElapsed).is_none());
    assert!(worker.on_event(DeadmanEvent::ChannelClosed).is_none());
    assert!(!worker.is_running());
}

#[test]
fn osk_update_constructors() {
    let set = OskUpdate::set_osk([1u8; 32], SetOskReason::Stale);
    assert_eq!(set.key, [1u8; 32]);
    assert_eq!(set.reason, SetOskReason::Stale);

    let fresh = OskUpdate::set_fresh_osk([2u8; 32]);
    assert_eq!(fresh.key, [2u8; 32]);
    assert_eq!(fresh.reason, SetOskReason::Fresh);

    let a = OskUpdate::erase_stale_osk();
    let b = OskUpdate::erase_stale_osk();
    assert_eq!(a.reason, SetOskReason::Stale);
    assert_eq!(b.reason, SetOskReason::Stale);
    assert_ne!(a.key, b.key);
}

#[test]
fn fresh_comes_before_stale() {
    assert!(SetOskReason::Fresh < SetOskReason::Stale);
    assert_eq!(SetOskReason::Fresh.max(SetOskReason::Stale), SetOskReason::Stale);
    assert_ne!(SetOskReason::Fresh, SetOskReason::Stale);
}
