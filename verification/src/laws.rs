//! The laws of the camera feed controller, proved once and for all over the
//! abstract [`FeedState`] transitions that the controller's contracts speak
//! of. Each controller operation ensures the corresponding transition
//! relation, so everything proved here holds of every run of the code.

use vstd::prelude::*;

use crate::controller::FeedState;

verus! {

/// One abstract step of the controller, with the outcome the platform
/// produced: what the open attempt returned, or what the poll gave back.
pub enum FeedStep<H, I> {
    /// A start command: the requested mode and the outcome of the open.
    Start { unprocessed: bool, opened: Option<H> },
    /// A stop command.
    Stop,
    /// A tick on an active controller: the handle given back and the frame,
    /// if one was ready.
    Tick { handle_back: H, frame: Option<I> },
    /// A tick on an inactive controller, or any event the controller
    /// ignores: the state does not move.
    Pass,
}

/// Whether `step` carries the state from `pre` to `post`, exactly as the
/// controller's contracts describe.
pub open spec fn feed_step_rel<H, I>(
    pre: FeedState<H, I>,
    post: FeedState<H, I>,
    step: FeedStep<H, I>,
) -> bool {
    match step {
        FeedStep::Start { unprocessed, opened } => FeedState::start_step(
            pre,
            post,
            unprocessed,
            opened,
        ),
        FeedStep::Stop => FeedState::stop_step(pre, post),
        FeedStep::Tick { handle_back, frame } => FeedState::tick_step(pre, post, handle_back, frame),
        FeedStep::Pass => post == pre,
    }
}

/// A run of the controller: a well-formed starting state (as the constructor
/// ensures) followed by any sequence of steps, each related to its
/// neighbours as the contracts describe.
pub open spec fn valid_run<H, I>(states: Seq<FeedState<H, I>>, steps: Seq<FeedStep<H, I>>) -> bool {
    &&& states.len() == steps.len() + 1
    &&& states[0].wf()
    &&& forall|i: int|
        0 <= i < steps.len() ==> #[trigger] feed_step_rel(states[i], states[i + 1], steps[i])
}

/// Law: over every sequence of operations, the activity flag equals handle
/// presence at every observation point — the cached view never disagrees
/// with the source of truth.
pub proof fn wf_at_every_point<H, I>(
    states: Seq<FeedState<H, I>>,
    steps: Seq<FeedStep<H, I>>,
    i: int,
)
    requires
        valid_run(states, steps),
        0 <= i < states.len(),
    ensures
        states[i].wf(),
    decreases i,
{
    if i > 0 {
        let j: int = i - 1;
        wf_at_every_point(states, steps, j);
        assert(feed_step_rel(states[j], states[j + 1], steps[j]));
    }
}

/// Law: stopping an already-inactive controller changes nothing at all —
/// stop is idempotent.
pub proof fn stop_on_inactive_is_noop<H, I>(pre: FeedState<H, I>, post: FeedState<H, I>)
    requires
        pre.wf(),
        !pre.active,
        FeedState::stop_step(pre, post),
    ensures
        post == pre,
{
}

/// Law: no double open. The controller holds its session in an `Option`, so
/// it owns at most one handle at every observation point, and `start_camera`
/// releases the old handle before it requests the new one. Hence after
/// `start(m1)` followed by `start(m2)` the controller holds exactly the
/// outcome of the second open — the first session is gone whether or not
/// either open succeeded.
pub proof fn restart_never_double_opens<H, I>(
    s0: FeedState<H, I>,
    s1: FeedState<H, I>,
    s2: FeedState<H, I>,
    m1: bool,
    m2: bool,
    o1: Option<H>,
    o2: Option<H>,
)
    requires
        FeedState::start_step(s0, s1, m1, o1),
        FeedState::start_step(s1, s2, m2, o2),
    ensures
        s2.capture_handle == o2,
        s2.active == o2.is_some(),
        s2.requested_unprocessed == m2,
        s2.wf(),
{
}

/// Law: the latest frame wins. If consecutive ticks yield frames `f1` then
/// `f2`, the first tick displays `f1` and the second replaces it with `f2`;
/// after the second tick no state shows `f1` any more.
pub proof fn tick_latest_frame_wins<H, I>(
    s0: FeedState<H, I>,
    s1: FeedState<H, I>,
    s2: FeedState<H, I>,
    back1: H,
    back2: H,
    f1: I,
    f2: I,
)
    requires
        FeedState::tick_step(s0, s1, back1, Some(f1)),
        FeedState::tick_step(s1, s2, back2, Some(f2)),
    ensures
        s1.displayed_image == f1,
        s2.displayed_image == f2,
{
}

/// Law: missed-frame tolerance. A tick on which the handle yields nothing
/// leaves the displayed image exactly as it was, and the session stays open.
pub proof fn tick_without_frame_keeps_image<H, I>(
    s0: FeedState<H, I>,
    s1: FeedState<H, I>,
    handle_back: H,
)
    requires
        FeedState::tick_step(s0, s1, handle_back, None),
    ensures
        s1.displayed_image == s0.displayed_image,
        s1.capture_handle is Some,
        s1.active == s0.active,
{
}

} // verus!
