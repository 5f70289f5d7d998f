//! Connectivity states of a component and their order of progress.

use vstd::prelude::*;

verus! {

/// The connectivity state of one component, as last reported by the engine.
#[derive(Clone, Copy, Debug, PartialEq, Eq, Structural)]
pub enum ComponentState {
    Disconnected,
    Gathering,
    Connecting,
    Connected,
    Ready,
    Failed,
}

impl ComponentState {
    /// Position of the state in the order of progress. `Failed` is placed last, though it
    /// never counts as progress.
    pub open spec fn rank(self) -> nat {
        match self {
            ComponentState::Disconnected => 0,
            ComponentState::Gathering => 1,
            ComponentState::Connecting => 2,
            ComponentState::Connected => 3,
            ComponentState::Ready => 4,
            ComponentState::Failed => 5,
        }
    }

    /// Whether a component in this state has come as far as `target` without failing.
    pub open spec fn reaches(self, target: ComponentState) -> bool {
        self != ComponentState::Failed && self.rank() >= target.rank()
    }

    /// The rank of the state as a number.
    pub fn rate(self) -> (r: u8)
        ensures
            r == self.rank(),
    {
        match self {
            ComponentState::Disconnected => 0,
            ComponentState::Gathering => 1,
            ComponentState::Connecting => 2,
            ComponentState::Connected => 3,
            ComponentState::Ready => 4,
            ComponentState::Failed => 5,
        }
    }
}

/// The answer of something that may not be done yet.
#[derive(Clone, Copy, Debug, PartialEq, Eq)]
pub enum Progress<T> {
    Ready(T),
    Pending,
}

/// What a poll of a channel found: a value, the end of the channel, or nothing yet.
pub type Polled<T> = Progress<Option<T>>;

/// The state that a component shows once `updates` have arrived, oldest first: the newest
/// of them, or `cached` where there is none.
pub open spec fn observe(cached: ComponentState, updates: Seq<ComponentState>) -> ComponentState {
    if updates.len() == 0 {
        cached
    } else {
        updates.last()
    }
}

/// The updates that a poll of the channel of states brought: the one it found, or none.
pub open spec fn news(polled: Polled<ComponentState>) -> Seq<ComponentState> {
    match polled {
        Progress::Ready(Some(update)) => seq![update],
        _ => Seq::empty(),
    }
}

/// Updates that arrive in turn show the same state as if they had arrived together.
pub proof fn lemma_observe_in_turn(
    cached: ComponentState,
    first: Seq<ComponentState>,
    second: Seq<ComponentState>,
)
    ensures
        observe(observe(cached, first), second) == observe(cached, first + second),
{
    if second.len() == 0 {
        assert(first + second =~= first);
    } else {
        assert((first + second).last() == second.last());
    }
}

/// Whether no report in `updates` has a lower rank than the one before it, `cached` counting
/// as the report before the first.
pub open spec fn in_order(cached: ComponentState, updates: Seq<ComponentState>) -> bool {
    forall|i: int|
        0 <= i < updates.len() ==> observe(cached, updates.take(i)).rank() <= (
        #[trigger] updates[i]).rank()
}

/// While the engine's reports come in order, the state that a component shows never falls
/// in rank from one poll to a later one. `Failed` ranks last, so it may follow any state.
pub proof fn lemma_state_never_falls(
    cached: ComponentState,
    updates: Seq<ComponentState>,
    earlier: int,
    later: int,
)
    requires
        in_order(cached, updates),
        0 <= earlier <= later <= updates.len(),
    ensures
        observe(cached, updates.take(earlier)).rank() <= observe(
            cached,
            updates.take(later),
        ).rank(),
    decreases later - earlier,
{
    if earlier < later {
        lemma_state_never_falls(cached, updates, earlier, later - 1);
        assert(updates.take(later).last() == updates[later - 1]);
    }
}

/// What a wait for `target` comes to when the component shows `seen`, and `closed` tells
/// whether its channel of updates has ended: `Ready(true)` when the target is reached,
/// `Ready(false)` when it no longer can be, `Pending` when it may still be.
pub open spec fn verdict(seen: ComponentState, target: ComponentState, closed: bool) -> Progress<
    bool,
> {
    if closed {
        Progress::Ready(false)
    } else if seen.rank() >= target.rank() {
        Progress::Ready(seen != ComponentState::Failed)
    } else {
        Progress::Pending
    }
}

/// A wait is over with success only on a state that is not `Failed` and ranks at least as
/// high as the target. It is over without success whenever the channel has ended, and
/// whenever the state is `Failed`, whatever the target.
pub proof fn lemma_verdict(seen: ComponentState, target: ComponentState, closed: bool)
    ensures
        verdict(seen, target, closed) == Progress::Ready(true) <==> !closed && seen.reaches(target),
        closed ==> verdict(seen, target, closed) == Progress::Ready(false),
        !closed && seen == ComponentState::Failed ==> verdict(seen, target, closed)
            == Progress::Ready(false),
        verdict(seen, target, closed) == Progress::<bool>::Pending <==> !closed && seen.rank()
            < target.rank(),
{
}

/// One step of a wait for `target` by a component that shows `seen`, on what a poll of its
/// channel of updates found. An update becomes the state shown and the wait goes on to the
/// next poll of the channel: no verdict. The end of the channel or a channel run dry brings
/// the verdict on the state shown.
pub open spec fn wait_step(
    seen: ComponentState,
    target: ComponentState,
    polled: Polled<ComponentState>,
) -> (ComponentState, Option<Progress<bool>>) {
    match polled {
        Progress::Ready(Some(update)) => (update, None),
        Progress::Ready(None) => (seen, Some(verdict(seen, target, true))),
        Progress::Pending => (seen, Some(verdict(seen, target, false))),
    }
}

/// A whole poll of a wait, step by step: the channel yields `updates`, and then has ended
/// (`closed`) or run dry.
pub open spec fn wait_poll(
    seen: ComponentState,
    target: ComponentState,
    updates: Seq<ComponentState>,
    closed: bool,
) -> (ComponentState, Progress<bool>)
    decreases updates.len(),
{
    if updates.len() == 0 {
        (seen, verdict(seen, target, closed))
    } else {
        wait_poll(
            wait_step(seen, target, Progress::Ready(Some(updates[0]))).0,
            target,
            updates.drop_first(),
            closed,
        )
    }
}

/// A whole poll of a wait leaves the component showing the newest update, and its verdict
/// is the verdict on that state.
pub proof fn lemma_wait_poll(
    seen: ComponentState,
    target: ComponentState,
    updates: Seq<ComponentState>,
    closed: bool,
)
    ensures
        wait_poll(seen, target, updates, closed) == (
            observe(seen, updates),
            verdict(observe(seen, updates), target, closed),
        ),
    decreases updates.len(),
{
    if updates.len() > 0 {
        lemma_wait_poll(updates[0], target, updates.drop_first(), closed);
        if updates.len() > 1 {
            assert(updates.drop_first().last() == updates.last());
        }
    }
}

} // verus!
