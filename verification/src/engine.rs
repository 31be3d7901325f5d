//! Frame pacing: the engine hands out the queued input events once per frame
//! interval and says how long to sleep when it is asked too early.
use vstd::prelude::*;
use crate::event::{Event, EventQueue};
use crate::error::{DelayTooLong, ZeroFrameRate};

verus! {

/// The frame interval, in microseconds, for `frame_rate` frames a second: the
/// whole number nearest to a million divided by the rate, halves rounded up.
/// A rate of zero has no interval.
pub open spec fn frame_interval(frame_rate: nat) -> int
    recommends
        frame_rate > 0,
{
    (2_000_000 + frame_rate as int) / (2 * frame_rate as int)
}

/// The least whole number of milliseconds that covers `micros` microseconds.
pub open spec fn millis_covering(micros: int) -> int {
    (micros + 999) / 1000
}

/// How many microseconds are still missing at `now` before a full `interval`
/// has passed since `last`; zero or less once it has.
pub open spec fn remaining_micros(last: int, interval: int, now: int) -> int {
    last + interval - now
}

/// `frame_interval` is the nearest whole number of microseconds: it misses the
/// exact quotient by at most half a microsecond, and by less from below.
pub proof fn lemma_frame_interval_nearest(frame_rate: nat)
    requires
        frame_rate > 0,
    ensures
        2 * (frame_interval(frame_rate) * frame_rate - 1_000_000) <= frame_rate,
        2 * (1_000_000 - frame_interval(frame_rate) * frame_rate) < frame_rate,
        0 <= frame_interval(frame_rate) <= 1_000_000,
{
    let f = frame_rate as int;
    let q = (2_000_000 + f) / (2 * f);
    assert(q * (2 * f) <= 2_000_000 + f < q * (2 * f) + 2 * f && 0 <= q <= 1_000_000)
        by (nonlinear_arith)
        requires
            f > 0,
            q == (2_000_000 + f) / (2 * f),
    ;
    assert(q * (2 * f) == 2 * (q * f)) by (nonlinear_arith);
}

/// `millis_covering` is the least number of milliseconds that is not shorter
/// than the given time.
pub proof fn lemma_millis_covering_least(micros: int)
    ensures
        millis_covering(micros) * 1000 >= micros,
        (millis_covering(micros) - 1) * 1000 < micros,
{
}

/// A caller that sleeps for the time it was told, and is not woken early,
/// finds the frame due when it asks again.
pub proof fn lemma_frame_due_after_wait(last: int, interval: int, now: int, resumed: int)
    requires
        remaining_micros(last, interval, now) > 0,
        resumed >= now + 1000 * millis_covering(remaining_micros(last, interval, now)),
    ensures
        remaining_micros(last, interval, resumed) <= 0,
        resumed - last >= interval,
{
}

/// The time of the latest frame after the engine was asked at `now`: `now`
/// itself once a full interval has passed since `last`, else still `last`.
pub open spec fn frame_after(last: int, interval: int, now: int) -> int {
    if remaining_micros(last, interval, now) <= 0 {
        now
    } else {
        last
    }
}

/// The time of the latest frame after the engine was asked at each of
/// `times` in turn, starting from a latest frame at `last`.
pub open spec fn last_frame(last: int, interval: int, times: Seq<int>) -> int
    decreases times.len(),
{
    if times.len() == 0 {
        last
    } else {
        frame_after(last_frame(last, interval, times.drop_last()), interval, times.last())
    }
}

/// Whether the call at position `i` of `times` found its frame due.
pub open spec fn frame_due(last: int, interval: int, times: Seq<int>, i: int) -> bool
    recommends
        0 <= i < times.len(),
{
    remaining_micros(last_frame(last, interval, times.take(i)), interval, times[i]) <= 0
}

/// After any calls, the latest frame is the initial one or a later one, and
/// no frame of the run started before it.
proof fn lemma_last_frame_is_latest(last: int, interval: int, times: Seq<int>, i: int)
    requires
        interval >= 0,
        0 <= i < times.len(),
        frame_due(last, interval, times, i),
    ensures
        last_frame(last, interval, times) >= times[i],
        last_frame(last, interval, times) >= last,
    decreases times.len(),
{
    let init = times.drop_last();
    if i == times.len() - 1 {
        assert(times.take(i) =~= init);
        lemma_last_frame_not_before_start(last, interval, init);
    } else {
        assert(init.take(i) =~= times.take(i));
        lemma_last_frame_is_latest(last, interval, init, i);
    }
}

/// The latest frame of a run is never before the frame it started from.
proof fn lemma_last_frame_not_before_start(last: int, interval: int, times: Seq<int>)
    requires
        interval >= 0,
    ensures
        last_frame(last, interval, times) >= last,
    decreases times.len(),
{
    if times.len() > 0 {
        lemma_last_frame_not_before_start(last, interval, times.drop_last());
    }
}

/// However often and whenever the engine is asked, a frame is due only when
/// a full interval has passed since the frame before it: the first no
/// sooner than an interval after the start, and any two at least an
/// interval apart.
pub proof fn lemma_frames_an_interval_apart(
    last: int,
    interval: int,
    times: Seq<int>,
    i: int,
    j: int,
)
    requires
        interval >= 0,
        0 <= i < j < times.len(),
        frame_due(last, interval, times, j),
    ensures
        times[j] - last >= interval,
        frame_due(last, interval, times, i) ==> times[j] - times[i] >= interval,
{
    let before = times.take(j);
    lemma_last_frame_not_before_start(last, interval, before);
    if frame_due(last, interval, times, i) {
        assert(before.take(i) =~= times.take(i));
        lemma_last_frame_is_latest(last, interval, before, i);
    }
}

/// What one call of [`Engine::next`] tells its caller.
#[derive(Debug)]
pub enum Tick {
    /// The frame interval has not passed yet: sleep for this many
    /// milliseconds, then ask again.
    Wait(u64),
    /// The frame is due: the events collected since the previous frame.
    Ready(Vec<Event>),
}

/// The pacing state of the loop together with the queue it drains.
pub struct Engine {
    events: EventQueue,
    last: u64,
    interval: u64,
}

impl Engine {
    /// The events waiting for the next frame, oldest first.
    pub closed spec fn queued(&self) -> Seq<Event> {
        self.events@
    }

    /// The time of the latest frame, in microseconds.
    pub closed spec fn last_tick(&self) -> int {
        self.last as int
    }

    /// The frame interval, in microseconds.
    pub closed spec fn interval(&self) -> int {
        self.interval as int
    }

    /// An engine for `frame_rate` frames a second whose first interval starts
    /// at `now`, a time in microseconds. A frame rate of zero is refused.
    pub fn new(frame_rate: usize, now: u64) -> (engine: Result<Engine, ZeroFrameRate>)
        ensures
            frame_rate == 0 <==> engine is Err,
            match engine {
                Ok(engine) => {
                    &&& engine.interval() == frame_interval(frame_rate as nat)
                    &&& engine.last_tick() == now
                    &&& engine.queued() == Seq::<Event>::empty()
                },
                Err(_) => true,
            },
    {
        if frame_rate == 0 {
            return Err(ZeroFrameRate);
        }
        let interval: u64 = if frame_rate > 2_000_000 {
            assert((2_000_000 + frame_rate as int) / (2 * frame_rate as int) == 0)
                by (nonlinear_arith)
                requires
                    frame_rate > 2_000_000,
            ;
            0
        } else {
            let rate: u64 = frame_rate as u64;
            (2_000_000 + rate) / (2 * rate)
        };
        Ok(Engine { events: EventQueue::new(), last: now, interval })
    }

    /// Queues `event` for the next frame.
    pub fn push(&mut self, event: Event)
        ensures
            final(self).queued() == old(self).queued().push(event),
            final(self).last_tick() == old(self).last_tick(),
            final(self).interval() == old(self).interval(),
    {
        self.events.push(event);
    }

    /// The frame interval, in microseconds.
    pub fn frame_interval_micros(&self) -> (micros: u64)
        ensures
            micros == self.interval(),
    {
        self.interval
    }

    /// The time of the latest frame, in microseconds.
    pub fn last_tick_micros(&self) -> (micros: u64)
        ensures
            micros == self.last_tick(),
    {
        self.last
    }

    /// One step of the frame clock at time `now`, in microseconds.
    ///
    /// While less than the frame interval has passed since the latest frame,
    /// nothing changes and the answer is how long to sleep. Once the interval
    /// has passed, the frame starts at `now` and takes every queued event.
    pub fn next(&mut self, now: u64) -> (tick: Tick)
        ensures
            final(self).interval() == old(self).interval(),
            final(self).last_tick() == frame_after(
                old(self).last_tick(),
                old(self).interval(),
                now as int,
            ),
            match tick {
                Tick::Wait(millis) => {
                    &&& remaining_micros(old(self).last_tick(), old(self).interval(), now as int) > 0
                    &&& millis == millis_covering(
                        remaining_micros(old(self).last_tick(), old(self).interval(), now as int),
                    )
                    &&& millis > 0
                    &&& final(self).last_tick() == old(self).last_tick()
                    &&& final(self).queued() == old(self).queued()
                },
                Tick::Ready(batch) => {
                    &&& now - old(self).last_tick() >= old(self).interval()
                    &&& batch@ == old(self).queued()
                    &&& final(self).last_tick() == now
                    &&& final(self).queued() == Seq::<Event>::empty()
                },
            },
    {
        let due: u128 = self.last as u128 + self.interval as u128;
        if now as u128 >= due {
            self.last = now;
            Tick::Ready(self.events.drain())
        } else {
            let missing: u128 = due - now as u128;
            let millis: u128 = (missing + 999) / 1000;
            Tick::Wait(millis as u64)
        }
    }
}

/// The argument for the platform's timer for a delay of `millis`
/// milliseconds. The timer counts in `i32`: a longer delay is refused, never
/// shortened.
pub fn delay(millis: u64) -> (timeout: Result<i32, DelayTooLong>)
    ensures
        millis <= i32::MAX ==> timeout == Ok::<i32, DelayTooLong>(millis as i32),
        millis > i32::MAX ==> timeout == Err::<i32, DelayTooLong>(DelayTooLong),
{
    if millis <= i32::MAX as u64 {
        Ok(millis as i32)
    } else {
        Err(DelayTooLong)
    }
}

} // verus!
