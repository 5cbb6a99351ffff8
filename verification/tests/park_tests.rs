use copark::park::{
    Continuation, Park, ParkBegin, ParkError, ResumeKind, SubscribeAction, TimerHandle, WakeAction,
};

#[test]
fn unpark_coalesces_to_single_wake() {
    let mut p = Park::new();
    // two producer signals with no wait in between collapse into one pending wake
    assert_eq!(p.unpark(), WakeAction::Nothing);
    let state_after_first = p.state;
    assert_eq!(p.unpark(), WakeAction::Nothing);
    assert_eq!(p.state, state_after_first);
    // the pending wake is consumed without suspending
    assert_eq!(p.park_timeout_begin(None), ParkBegin::Ready);
    // with no further signal, the next wait must really suspend
    assert_eq!(p.park_timeout_begin(None), ParkBegin::Suspend);
}

#[test]
fn wake_delivered_when_producer_signals_first() {
    let mut p = Park::new();
    let co = Continuation { id: 11 };
    assert_eq!(p.park_timeout_begin(None), ParkBegin::Suspend);
    assert_eq!(p.subscribe_begin(), None);
    // the producer signalled before the continuation was published
    assert_eq!(p.unpark(), WakeAction::Nothing);
    // registration re-checks the ready bit and wakes inline at once
    assert_eq!(p.subscribe_finish(co, None, false), SubscribeAction::WakeInline(co));
    assert!(p.yield_back(false) == false);
    let fin = p.park_timeout_finish(None);
    assert_eq!(fin.result, Ok(()));
    assert_eq!(fin.timer_to_delete, None);
}

#[test]
fn wake_delivered_when_consumer_registers_first() {
    let mut p = Park::new();
    let co = Continuation { id: 12 };
    assert_eq!(p.park_timeout_begin(None), ParkBegin::Suspend);
    assert_eq!(p.subscribe_begin(), None);
    assert_eq!(
        p.subscribe_finish(co, None, false),
        SubscribeAction::LinkCancel { deliver: false }
    );
    // the producer signals after registration and gets the continuation
    assert_eq!(p.unpark(), WakeAction::Schedule(co));
    assert!(p.yield_back(false) == false);
    assert_eq!(p.park_timeout_finish(None).result, Ok(()));
}

#[test]
fn timeout_round_classifies_and_arms_timer() {
    let mut p = Park::new();
    let co = Continuation { id: 3 };
    assert_eq!(p.park_timeout_begin(Some(10)), ParkBegin::Suspend);
    // the configured duration is handed out for arming, exactly once
    assert_eq!(p.subscribe_begin(), Some(10));
    assert_eq!(p.subscribe_begin(), None);
    // the timer fired: its entry is already unlinked from the service
    let expired = TimerHandle { id: 7, linked: false };
    assert_eq!(
        p.subscribe_finish(co, Some(expired), false),
        SubscribeAction::LinkCancel { deliver: false }
    );
    assert_eq!(p.unpark(), WakeAction::Schedule(co));
    assert!(p.yield_back(false) == false);
    let fin = p.park_timeout_finish(Some(ResumeKind::TimedOut));
    assert_eq!(fin.result, Err(ParkError::Timeout));
    // an expired, unlinked timer is discarded, not deleted from the service
    assert_eq!(fin.timer_to_delete, None);
    assert_eq!(p.timeout_handle, None);
}

#[test]
fn linked_timer_is_returned_for_deletion() {
    let mut p = Park::new();
    let co = Continuation { id: 4 };
    assert_eq!(p.park_timeout_begin(Some(500)), ParkBegin::Suspend);
    assert_eq!(p.subscribe_begin(), Some(500));
    let armed = TimerHandle { id: 9, linked: true };
    assert_eq!(
        p.subscribe_finish(co, Some(armed), false),
        SubscribeAction::LinkCancel { deliver: false }
    );
    // a genuine producer wake beats the timer
    assert_eq!(p.unpark(), WakeAction::Schedule(co));
    assert!(p.yield_back(false) == false);
    let fin = p.park_timeout_finish(None);
    assert_eq!(fin.result, Ok(()));
    // the still-linked timer must be deleted from the timer service
    assert_eq!(fin.timer_to_delete, Some(armed));
}

#[test]
fn cancellation_observed_on_return() {
    let mut p = Park::new();
    let co = Continuation { id: 5 };
    assert_eq!(p.park_timeout_begin(None), ParkBegin::Suspend);
    assert_eq!(p.subscribe_begin(), None);
    assert_eq!(
        p.subscribe_finish(co, None, false),
        SubscribeAction::LinkCancel { deliver: false }
    );
    assert_eq!(p.unpark(), WakeAction::Schedule(co));
    // the token was canceled while parked; auto-observation raises it
    assert!(p.yield_back(true));
    assert_eq!(p.park_timeout_finish(None).result, Err(ParkError::Canceled));
}

#[test]
fn cancellation_already_flagged_is_delivered_at_subscribe() {
    let mut p = Park::new();
    let co = Continuation { id: 6 };
    assert_eq!(p.park_timeout_begin(None), ParkBegin::Suspend);
    assert_eq!(
        p.subscribe_finish(co, None, true),
        SubscribeAction::LinkCancel { deliver: true }
    );
    // the delivered cancellation arrives as the resumption payload
    assert_eq!(p.unpark(), WakeAction::Schedule(co));
    assert!(p.yield_back(true));
    assert_eq!(
        p.park_timeout_finish(Some(ResumeKind::Canceled)).result,
        Err(ParkError::Canceled)
    );
}

#[test]
fn cancellation_suppressed_still_queryable() {
    let mut p = Park::new();
    p.ignore_cancel(true);
    let co = Continuation { id: 8 };
    assert_eq!(p.park_timeout_begin(None), ParkBegin::Suspend);
    assert_eq!(
        p.subscribe_finish(co, None, false),
        SubscribeAction::LinkCancel { deliver: false }
    );
    assert_eq!(p.unpark(), WakeAction::Schedule(co));
    // the canceled token raises nothing and does not fail the wait
    assert!(p.yield_back(true) == false);
    assert_eq!(p.park_timeout_finish(None).result, Ok(()));
    // the status remains independently queryable
    assert!(p.is_canceled);
    // re-enabling auto-observation restores the failing behaviour
    p.ignore_cancel(false);
    assert!(p.check_cancel);
}

#[test]
fn teardown_waits_for_open_round() {
    let mut p = Park::new();
    let co = Continuation { id: 2 };
    assert!(!p.teardown_must_wait());
    assert_eq!(p.park_timeout_begin(None), ParkBegin::Suspend);
    assert_eq!(
        p.subscribe_finish(co, None, false),
        SubscribeAction::LinkCancel { deliver: false }
    );
    // the round is open: an in-flight completion may still touch the slot
    assert!(p.teardown_must_wait());
    assert!(p.kernel_fence_open());
    // the completion lands and the resumed side advances the fence
    assert_eq!(p.unpark(), WakeAction::Schedule(co));
    assert!(p.yield_back(false) == false);
    assert!(!p.teardown_must_wait());
    assert!(!p.kernel_fence_open());
    assert_eq!(p.teardown(), None);
}

#[test]
fn teardown_returns_linked_timer() {
    let mut p = Park::new();
    let co = Continuation { id: 13 };
    assert_eq!(p.park_timeout_begin(Some(50)), ParkBegin::Suspend);
    assert_eq!(p.subscribe_begin(), Some(50));
    let armed = TimerHandle { id: 21, linked: true };
    assert_eq!(
        p.subscribe_finish(co, Some(armed), false),
        SubscribeAction::LinkCancel { deliver: false }
    );
    assert_eq!(p.unpark(), WakeAction::Schedule(co));
    assert!(p.yield_back(false) == false);
    // teardown uninstalls the armed timer and hands it back for deletion
    assert_eq!(p.teardown(), Some(armed));
    assert_eq!(p.timeout_handle, None);
}

#[test]
fn reused_instance_waits_out_previous_round() {
    let mut p = Park::new();
    let co = Continuation { id: 14 };
    assert_eq!(p.park_timeout_begin(None), ParkBegin::Suspend);
    assert_eq!(
        p.subscribe_finish(co, None, false),
        SubscribeAction::LinkCancel { deliver: false }
    );
    assert_eq!(p.unpark(), WakeAction::Schedule(co));
    // the pending wake from the unpark is consumed first
    assert_eq!(p.park_timeout_begin(None), ParkBegin::Ready);
    // the resumed side has not advanced the fence yet: a new wait on the
    // reused instance must wait the stale round out
    assert_eq!(p.park_timeout_begin(None), ParkBegin::WaitFence);
    assert!(p.kernel_fence_open());
    assert!(p.yield_back(false) == false);
    assert!(!p.kernel_fence_open());
    // with the fence closed, the next wait may suspend at once
    assert_eq!(p.park_timeout_begin(None), ParkBegin::Suspend);
}

// a small deterministic pseudo-random generator for the stress runs
fn next_rand(seed: &mut u64) -> u64 {
    *seed = seed.wrapping_mul(6364136223846793005).wrapping_add(1442695040888963407);
    *seed >> 33
}

#[test]
fn randomized_interleavings_never_lose_wake() {
    let mut seed: u64 = 0x5eed;
    let mut p = Park::new();
    for round in 0..2000u64 {
        let co = Continuation { id: round };
        let produce_first = next_rand(&mut seed) % 2 == 0;
        let extra_unparks = next_rand(&mut seed) % 3;

        match p.park_timeout_begin(None) {
            ParkBegin::Ready => {
                // a leftover wake from an earlier round's losing producer
                continue;
            }
            ParkBegin::WaitFence => unreachable!("every round below closes its fence"),
            ParkBegin::Suspend => {}
        }

        let mut deliveries = 0u64;
        if produce_first {
            if let WakeAction::Schedule(c) = p.unpark() {
                assert_eq!(c, co);
                deliveries += 1;
            }
        }
        match p.subscribe_finish(co, None, false) {
            SubscribeAction::WakeInline(c) => {
                assert_eq!(c, co);
                deliveries += 1;
            }
            SubscribeAction::LinkCancel { deliver } => assert!(!deliver),
        }
        if !produce_first {
            if let WakeAction::Schedule(c) = p.unpark() {
                assert_eq!(c, co);
                deliveries += 1;
            }
        }
        for _ in 0..extra_unparks {
            // producers racing after the wake: all must coalesce into no-ops
            assert_eq!(p.unpark(), WakeAction::Nothing);
        }
        // the wake is handed out exactly once, never lost, never duplicated
        assert_eq!(deliveries, 1);

        assert!(!p.yield_back(false));
        assert_eq!(p.park_timeout_finish(None).result, Ok(()));
    }
}
