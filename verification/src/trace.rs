//! What holds of the reconciliation loop over whole runs of signals.
use vstd::prelude::*;
use crate::error::GameError;
use crate::event::Event;
use crate::sync::{transition, Action, Signal, Stage, SyncState};

verus! {

/// The state that `signals`, taken in order, lead to from `s`.
pub open spec fn run<D>(s: SyncState<D>, signals: Seq<Signal<D>>) -> SyncState<D>
    decreases signals.len(),
{
    if signals.len() == 0 {
        s
    } else {
        transition(run(s, signals.drop_last()), signals.last()).0
    }
}

/// The action that answers the signal at position `i` of a run from `s`.
pub open spec fn action_at<D>(s: SyncState<D>, signals: Seq<Signal<D>>, i: int) -> Action<D>
    recommends
        0 <= i < signals.len(),
{
    transition(run(s, signals.take(i)), signals[i]).1
}

/// The changes that the loop handed out for application during a run, in
/// the order of the `Apply` actions.
pub open spec fn applied<D>(s: SyncState<D>, signals: Seq<Signal<D>>) -> Seq<D>
    decreases signals.len(),
{
    if signals.len() == 0 {
        Seq::empty()
    } else {
        let earlier = applied(s, signals.drop_last());
        match transition(run(s, signals.drop_last()), signals.last()).1 {
            Action::Apply(delta) => earlier.push(delta),
            _ => earlier,
        }
    }
}

/// The changes that the loop took in during a run, in the order in which
/// the ticks derived them.
pub open spec fn derived<D>(s: SyncState<D>, signals: Seq<Signal<D>>) -> Seq<D>
    decreases signals.len(),
{
    if signals.len() == 0 {
        Seq::empty()
    } else {
        let earlier = derived(s, signals.drop_last());
        match (run(s, signals.drop_last()).stage, signals.last()) {
            (Stage::Deriving, Signal::Delta(_, delta)) => earlier.push(delta),
            _ => earlier,
        }
    }
}

/// The change that a state holds back until the frame's draw is over.
pub open spec fn in_flight<D>(s: SyncState<D>) -> Seq<D> {
    match s.stage {
        Stage::PushingState(delta) => seq![delta],
        Stage::Rendering(delta) => seq![delta],
        _ => Seq::empty(),
    }
}

/// Whether a frame's draw was started at this stage and not awaited yet.
pub open spec fn frame_open<D>(stage: Stage<D>) -> bool {
    match stage {
        Stage::Collecting => true,
        Stage::Deriving => true,
        Stage::PushingState(_) => true,
        Stage::Rendering(_) => true,
        _ => false,
    }
}

/// The input events that the engine's frames brought since the latest
/// successful upload of a run, in order; before the first upload they follow
/// what was pending at the start.
pub open spec fn window<D>(s: SyncState<D>, signals: Seq<Signal<D>>) -> Seq<Event>
    decreases signals.len(),
{
    if signals.len() == 0 {
        s.pending
    } else {
        let earlier = window(s, signals.drop_last());
        match (run(s, signals.drop_last()).stage, signals.last()) {
            (Stage::Uploading, Signal::InputSent) => Seq::empty(),
            (Stage::Collecting, Signal::Events(batch)) => earlier + batch@,
            _ => earlier,
        }
    }
}

/// Changes are applied in the order in which they were derived, each at
/// most once and none before an earlier one: what was applied, followed by
/// what is held back, is a prefix of what was derived, and all of it while
/// the session has not ended.
pub proof fn lemma_deltas_applied_in_order<D>(s: SyncState<D>, signals: Seq<Signal<D>>)
    ensures
        (applied(s, signals) + in_flight(run(s, signals))).is_prefix_of(
            in_flight(s) + derived(s, signals),
        ),
        !(run(s, signals).stage is Terminated) ==> applied(s, signals) + in_flight(
            run(s, signals),
        ) == in_flight(s) + derived(s, signals),
    decreases signals.len(),
{
    if signals.len() == 0 {
        assert(applied(s, signals) + in_flight(run(s, signals)) =~= in_flight(s) + derived(
            s,
            signals,
        ));
    } else {
        let init = signals.drop_last();
        let before = run(s, init);
        lemma_deltas_applied_in_order(s, init);
        let total = in_flight(s) + derived(s, signals);
        let done = applied(s, signals) + in_flight(run(s, signals));
        if before.stage is Terminated {
            assert(done =~= applied(s, init) + in_flight(before));
            assert(total =~= in_flight(s) + derived(s, init));
        } else {
            let was = applied(s, init) + in_flight(before);
            assert(was == in_flight(s) + derived(s, init));
            if run(s, signals).stage is Terminated {
                assert(done =~= applied(s, init));
                assert(total =~= was);
                assert(done.is_prefix_of(total));
            } else {
                assert(done =~= total);
            }
        }
    }
}

/// No two draws are in flight at once, and no change is applied while one
/// is: a frame is started only when none is open, it is open from then on
/// until its draw has been awaited, and a change is handed out exactly when
/// that wait ends.
pub proof fn lemma_one_frame_at_a_time<D>(s: SyncState<D>, signal: Signal<D>)
    ensures
        transition(s, signal).1 is StartFrame ==> !frame_open(s.stage) && frame_open(
            transition(s, signal).0.stage,
        ),
        transition(s, signal).1 is Apply ==> s.stage is Rendering && !frame_open(
            transition(s, signal).0.stage,
        ),
        frame_open(s.stage) && frame_open(transition(s, signal).0.stage) ==> !(transition(
            s,
            signal,
        ).1 is StartFrame),
        frame_open(s.stage) && !frame_open(transition(s, signal).0.stage) ==> transition(
            s,
            signal,
        ).1 is Apply || transition(s, signal).0.stage is Terminated,
{
}

/// The pending input is exactly the events of the frames since the latest
/// successful upload, in the order in which the engine delivered them.
pub proof fn lemma_pending_is_window<D>(s: SyncState<D>, signals: Seq<Signal<D>>)
    ensures
        run(s, signals).pending == window(s, signals),
    decreases signals.len(),
{
    if signals.len() > 0 {
        lemma_pending_is_window(s, signals.drop_last());
    }
}

/// A finished session stays as it is, whatever is signalled.
pub proof fn lemma_terminated_is_final<D>(s: SyncState<D>, signals: Seq<Signal<D>>)
    requires
        s.stage is Terminated,
    ensures
        run(s, signals) == s,
    decreases signals.len(),
{
    if signals.len() > 0 {
        lemma_terminated_is_final(s, signals.drop_last());
    }
}

/// A transport failure ends a session that has not ended yet with
/// `GameError::SocketErr`, and every later signal is answered with that
/// result alone: no further tick, upload or draw is asked for.
pub proof fn lemma_transport_failure_ends_session<D>(s: SyncState<D>, later: Seq<Signal<D>>)
    requires
        !(s.stage is Terminated),
    ensures
        transition(s, Signal::TransportFailed).1 == Action::<D>::Stop(Err(GameError::SocketErr)),
        transition(s, Signal::TransportFailed).0.stage == Stage::<D>::Terminated(
            Err(GameError::SocketErr),
        ),
        run(transition(s, Signal::TransportFailed).0, later) == transition(
            s,
            Signal::TransportFailed,
        ).0,
        forall|i: int|
            0 <= i < later.len() ==> #[trigger] action_at(
                transition(s, Signal::TransportFailed).0,
                later,
                i,
            ) == Action::<D>::Stop(Err(GameError::SocketErr)),
{
    let ended = transition(s, Signal::TransportFailed).0;
    lemma_terminated_is_final(ended, later);
    assert forall|i: int| 0 <= i < later.len() implies #[trigger] action_at(ended, later, i)
        == Action::<D>::Stop(Err(GameError::SocketErr)) by {
        lemma_terminated_is_final(ended, later.take(i));
    }
}

} // verus!
