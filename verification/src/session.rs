use vstd::prelude::*;

verus! {

/// The lifecycle of one foreign resource with manual release rules: a display
/// session handle, a display-info list, or a foreign-allocated buffer. The
/// resource moves `Idle -> Held -> Done`, one-shot: a failed acquire leaves
/// nothing to release, and the release call is owed exactly once per
/// successful acquire.
#[derive(Debug, Copy, Clone, PartialEq, Eq, Structural)]
pub enum LifecycleState {
    /// No foreign resource was acquired yet (or the acquire failed).
    Idle,
    /// A resource with this handle token is held; its release is owed.
    Held(usize),
    /// The resource was released; terminal, no reacquire of the same object.
    Done,
}

/// What the foreign side reports to the lifecycle, as plain values.
#[derive(Debug, Copy, Clone, PartialEq, Eq, Structural)]
pub enum LifecycleEvent {
    /// The acquire call returned success with this handle token.
    AcquireOk(usize),
    /// The acquire call returned this nonzero status.
    AcquireFailed(i32),
    /// The owner is letting go of the resource (explicit close, scope end,
    /// or an abort path).
    Release,
}

/// The single foreign call a lifecycle step may demand of its runner.
#[derive(Debug, Copy, Clone, PartialEq, Eq, Structural)]
pub enum ReleaseAction {
    /// No foreign call is due.
    Nothing,
    /// The matching foreign free/close must be invoked on this handle token.
    FreeHandle(usize),
}

/// The transition function of the lifecycle machine.
pub open spec fn lifecycle_step_spec(s: LifecycleState, e: LifecycleEvent) -> (
    LifecycleState,
    ReleaseAction,
) {
    match (s, e) {
        (LifecycleState::Idle, LifecycleEvent::AcquireOk(h)) => (
            LifecycleState::Held(h),
            ReleaseAction::Nothing,
        ),
        (LifecycleState::Idle, _) => (LifecycleState::Idle, ReleaseAction::Nothing),
        (LifecycleState::Held(h), LifecycleEvent::Release) => (
            LifecycleState::Done,
            ReleaseAction::FreeHandle(h),
        ),
        (LifecycleState::Held(h), _) => (LifecycleState::Held(h), ReleaseAction::Nothing),
        (LifecycleState::Done, _) => (LifecycleState::Done, ReleaseAction::Nothing),
    }
}

/// One step of the lifecycle: from the current state and a foreign event,
/// the next state and the foreign call (if any) now due.
pub fn lifecycle_step(s: LifecycleState, e: LifecycleEvent) -> (r: (
    LifecycleState,
    ReleaseAction,
))
    ensures
        r == lifecycle_step_spec(s, e),
{
    match (s, e) {
        (LifecycleState::Idle, LifecycleEvent::AcquireOk(h)) => (
            LifecycleState::Held(h),
            ReleaseAction::Nothing,
        ),
        (LifecycleState::Idle, _) => (LifecycleState::Idle, ReleaseAction::Nothing),
        (LifecycleState::Held(h), LifecycleEvent::Release) => (
            LifecycleState::Done,
            ReleaseAction::FreeHandle(h),
        ),
        (LifecycleState::Held(h), _) => (LifecycleState::Held(h), ReleaseAction::Nothing),
        (LifecycleState::Done, _) => (LifecycleState::Done, ReleaseAction::Nothing),
    }
}

/// The state after running the machine over a whole event sequence.
pub open spec fn lifecycle_run(s: LifecycleState, events: Seq<LifecycleEvent>) -> LifecycleState
    decreases events.len(),
{
    if events.len() == 0 {
        s
    } else {
        lifecycle_run(lifecycle_step_spec(s, events[0]).0, events.drop_first())
    }
}

/// How many release calls the machine demands over a whole event sequence.
pub open spec fn lifecycle_frees(s: LifecycleState, events: Seq<LifecycleEvent>) -> nat
    decreases events.len(),
{
    if events.len() == 0 {
        0
    } else {
        let (s2, a) = lifecycle_step_spec(s, events[0]);
        (if a is FreeHandle {
            1nat
        } else {
            0nat
        }) + lifecycle_frees(s2, events.drop_first())
    }
}

/// Law: the foreign release is invoked exactly once per successful acquire,
/// never zero times and never twice. Over any event sequence whatsoever:
/// starting idle or holding, the machine demands exactly one release call if
/// it ends `Done` and none otherwise; once `Done`, it never demands another.
/// In particular, after a failed acquire (which leaves the state idle) no
/// release is ever demanded unless a later acquire succeeds.
pub proof fn lemma_lifecycle_release_exactly_once(s: LifecycleState, events: Seq<LifecycleEvent>)
    ensures
        s is Done ==> lifecycle_frees(s, events) == 0 && lifecycle_run(s, events) is Done,
        !(s is Done) ==> lifecycle_frees(s, events) == (if lifecycle_run(s, events) is Done {
            1nat
        } else {
            0nat
        }),
    decreases events.len(),
{
    if events.len() > 0 {
        let (s2, a) = lifecycle_step_spec(s, events[0]);
        lemma_lifecycle_release_exactly_once(s2, events.drop_first());
    }
}

/// Law: a failed acquire performs no state change and demands no foreign
/// call, so there is nothing to release after `open` fails.
pub proof fn lemma_acquire_failure_releases_nothing(status: i32)
    ensures
        lifecycle_step_spec(LifecycleState::Idle, LifecycleEvent::AcquireFailed(status))
            == (LifecycleState::Idle, ReleaseAction::Nothing),
{
}

} // verus!
