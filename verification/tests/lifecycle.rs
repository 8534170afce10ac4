use ddcutil::session::{lifecycle_step, LifecycleEvent, LifecycleState, ReleaseAction};

#[test]
fn failed_acquire_demands_no_release() {
    let (s, a) = lifecycle_step(LifecycleState::Idle, LifecycleEvent::AcquireFailed(-3019));
    assert_eq!(s, LifecycleState::Idle);
    assert_eq!(a, ReleaseAction::Nothing);
}

#[test]
fn successful_acquire_then_release_frees_exactly_once() {
    let (s1, a1) = lifecycle_step(LifecycleState::Idle, LifecycleEvent::AcquireOk(0x77));
    assert_eq!(s1, LifecycleState::Held(0x77));
    assert_eq!(a1, ReleaseAction::Nothing);
    let (s2, a2) = lifecycle_step(s1, LifecycleEvent::Release);
    assert_eq!(s2, LifecycleState::Done);
    assert_eq!(a2, ReleaseAction::FreeHandle(0x77));
    let (s3, a3) = lifecycle_step(s2, LifecycleEvent::Release);
    assert_eq!(s3, LifecycleState::Done);
    assert_eq!(a3, ReleaseAction::Nothing);
}

#[test]
fn release_without_acquire_is_a_no_op() {
    let (s, a) = lifecycle_step(LifecycleState::Idle, LifecycleEvent::Release);
    assert_eq!(s, LifecycleState::Idle);
    assert_eq!(a, ReleaseAction::Nothing);
}

#[test]
fn held_state_survives_intervening_events() {
    let held = LifecycleState::Held(5);
    let (s, a) = lifecycle_step(held, LifecycleEvent::AcquireFailed(-3000));
    assert_eq!(s, held);
    assert_eq!(a, ReleaseAction::Nothing);
    let (s2, a2) = lifecycle_step(held, LifecycleEvent::AcquireOk(6));
    assert_eq!(s2, held);
    assert_eq!(a2, ReleaseAction::Nothing);
}

#[test]
fn full_trace_counts_one_free_per_open() {
    let mut state = LifecycleState::Idle;
    let mut frees: usize = 0;
    let events = [
        LifecycleEvent::AcquireFailed(-3019),
        LifecycleEvent::AcquireOk(9),
        LifecycleEvent::AcquireFailed(-3000),
        LifecycleEvent::Release,
        LifecycleEvent::Release,
    ];
    for e in events {
        let (next, action) = lifecycle_step(state, e);
        if let ReleaseAction::FreeHandle(h) = action {
            assert_eq!(h, 9);
            frees += 1;
        }
        state = next;
    }
    assert_eq!(frees, 1);
    assert_eq!(state, LifecycleState::Done);
}
