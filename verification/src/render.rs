//! The deadline-bound renderer: one draw, scheduled for the next display
//! refresh, races one timer, and exactly one of the two decides the frame.
use vstd::prelude::*;
use crate::error::GameError;

verus! {

/// What ends a wait: the scheduled draw ran and produced a value, or the
/// deadline timer fired.
#[derive(Debug)]
pub enum RaceEvent<K> {
    Completed(K),
    DeadlineElapsed,
}

/// What the caller does after an event of the race.
#[derive(Debug)]
pub struct Resolution<K> {
    /// The frame's outcome, if this event decided the race. A failure inside
    /// the draw is part of `K`; the only error here is `GameError::Timeout`.
    pub outcome: Option<Result<K, GameError>>,
    /// The display-refresh registration to withdraw, if the deadline won.
    pub cancel: Option<i32>,
}

/// The outcome that `event` decides while the registration `pending` is
/// outstanding; none when no race is on.
pub open spec fn outcome_of<K>(pending: Option<i32>, event: RaceEvent<K>) -> Option<
    Result<K, GameError>,
> {
    match (pending, event) {
        (Some(_), RaceEvent::Completed(value)) => Some(Ok(value)),
        (Some(_), RaceEvent::DeadlineElapsed) => Some(Err(GameError::Timeout)),
        (None, _) => None,
    }
}

/// The registration that must be withdrawn after `event`: the outstanding
/// one, and only when the deadline won.
pub open spec fn cancelled_by<K>(pending: Option<i32>, event: RaceEvent<K>) -> Option<i32> {
    match event {
        RaceEvent::DeadlineElapsed => pending,
        RaceEvent::Completed(_) => None,
    }
}

/// The registration in flight after an attempt to start a frame under
/// `registration`: the new one, unless another was in flight already.
pub open spec fn registered(pending: Option<i32>, registration: i32) -> Option<i32> {
    match pending {
        None => Some(registration),
        Some(_) => pending,
    }
}

/// The time to arm the deadline timer with when a frame starts; none when
/// the start is refused because a frame is in flight.
pub open spec fn armed(pending: Option<i32>, deadline: usize) -> Option<usize> {
    match pending {
        None => Some(deadline),
        Some(_) => None,
    }
}

/// The outcomes that a caller observes when `events` arrive in order while
/// `pending` is outstanding. Every event ends the race, so the events after
/// the first meet no race.
pub open spec fn observed<K>(pending: Option<i32>, events: Seq<RaceEvent<K>>) -> Seq<
    Result<K, GameError>,
>
    decreases events.len(),
{
    if events.len() == 0 {
        Seq::empty()
    } else {
        let rest = observed(None, events.skip(1));
        match outcome_of(pending, events[0]) {
            Some(outcome) => seq![outcome] + rest,
            None => rest,
        }
    }
}

/// With no race on, no event is observed.
pub proof fn lemma_idle_observes_nothing<K>(events: Seq<RaceEvent<K>>)
    ensures
        observed(None, events) == Seq::<Result<K, GameError>>::empty(),
    decreases events.len(),
{
    if events.len() > 0 {
        lemma_idle_observes_nothing(events.skip(1));
    }
}

/// A race has exactly one observable outcome, that of the first event to
/// arrive: the draw's value or the timeout, never both and never neither,
/// however many events follow.
pub proof fn lemma_exactly_one_outcome<K>(registration: i32, events: Seq<RaceEvent<K>>)
    requires
        events.len() > 0,
    ensures
        observed(Some(registration), events).len() == 1,
        Some(observed(Some(registration), events)[0]) == outcome_of(
            Some(registration),
            events[0],
        ),
        events[0] is Completed ==> observed(Some(registration), events)[0] == Ok::<
            K,
            GameError,
        >(events[0]->Completed_0),
        events[0] is DeadlineElapsed ==> observed(Some(registration), events)[0] == Err::<
            K,
            GameError,
        >(GameError::Timeout),
{
    lemma_idle_observes_nothing(events.skip(1));
}

/// With no frame in flight, as after every settled race, the next frame
/// starts: it gets the full deadline, its own registration is the one in
/// flight, and whichever event comes first decides it.
pub proof fn lemma_next_frame_starts_cleanly<K>(
    deadline: usize,
    registration: i32,
    next: RaceEvent<K>,
)
    ensures
        armed(None, deadline) == Some(deadline),
        registered(None, registration) == Some(registration),
        outcome_of(registered(None, registration), next) is Some,
        cancelled_by(registered(None, registration), next) is Some <==> next
            is DeadlineElapsed,
        cancelled_by(registered(None, registration), next) is Some ==> cancelled_by(
            registered(None, registration),
            next,
        ) == Some(registration),
{
}

/// Races the draw of one frame against a fixed deadline.
pub struct Renderer {
    max_delay: usize,
    pending: Option<i32>,
}

impl Renderer {
    /// The deadline of every frame, in milliseconds.
    pub closed spec fn deadline(&self) -> usize {
        self.max_delay
    }

    /// The display-refresh registration of the frame in flight, if any.
    pub closed spec fn registration(&self) -> Option<i32> {
        self.pending
    }

    /// A renderer that gives each frame `max_delay` milliseconds; no frame is
    /// in flight.
    pub fn new(max_delay: usize) -> (renderer: Renderer)
        ensures
            renderer.deadline() == max_delay,
            renderer.registration() == None::<i32>,
    {
        Renderer { max_delay, pending: None }
    }

    /// The deadline of every frame, in milliseconds.
    pub fn max_delay(&self) -> (millis: usize)
        ensures
            millis == self.deadline(),
    {
        self.max_delay
    }

    /// Whether a frame is in flight.
    pub fn is_pending(&self) -> (pending: bool)
        ensures
            pending == self.registration().is_some(),
    {
        self.pending.is_some()
    }

    /// Starts the race for a draw scheduled under `registration`. With no
    /// frame in flight the answer is the time to arm the deadline timer with.
    /// While a frame is in flight a second one is refused and nothing
    /// changes: the caller withdraws the registration it just made.
    pub fn begin(&mut self, registration: i32) -> (armed: Option<usize>)
        ensures
            final(self).deadline() == old(self).deadline(),
            armed == self::armed(old(self).registration(), old(self).deadline()),
            final(self).registration() == registered(old(self).registration(), registration),
    {
        if self.pending.is_some() {
            None
        } else {
            self.pending = Some(registration);
            Some(self.max_delay)
        }
    }

    /// Settles the race on `event`. The first event after `begin` decides:
    /// a completed draw gives its value, an elapsed deadline gives
    /// `GameError::Timeout` and names the registration to withdraw. Either
    /// way no frame is in flight afterwards, and an event that arrives with
    /// no frame in flight decides nothing.
    pub fn render<K>(&mut self, event: RaceEvent<K>) -> (resolution: Resolution<K>)
        ensures
            final(self).deadline() == old(self).deadline(),
            final(self).registration() is None,
            resolution.outcome == outcome_of(old(self).registration(), event),
            resolution.cancel == cancelled_by(old(self).registration(), event),
    {
        let pending = self.pending.take();
        match event {
            RaceEvent::Completed(value) => {
                let outcome = if pending.is_some() {
                    Some(Ok(value))
                } else {
                    None
                };
                Resolution { outcome, cancel: None }
            },
            RaceEvent::DeadlineElapsed => {
                let outcome = if pending.is_some() {
                    Some(Err(GameError::Timeout))
                } else {
                    None
                };
                Resolution { outcome, cancel: pending }
            },
        }
    }
}

} // verus!
