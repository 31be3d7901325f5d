//! The reconciliation loop as a state machine. The caller performs each
//! action (a send, a receive, a frame, a draw) and reports what came of it;
//! the machine decides what happens next and keeps the input that has not
//! been uploaded yet.
use vstd::prelude::*;
use crate::error::GameError;
use crate::event::Event;

verus! {

/// Where the loop stands. `D` is the application's unit of change to the
/// simulation state.
#[derive(Debug)]
pub enum Stage<D> {
    /// Both channels are being opened.
    Opening,
    /// The channels are open; the initial authoritative state is awaited.
    AwaitingState,
    /// The accumulated input is being uploaded.
    Uploading,
    /// The remote's processed-input artifact is awaited.
    AwaitingAck,
    /// A frame's draw has started; the tick's input events are awaited.
    Collecting,
    /// The tick's change is being derived from the artifact.
    Deriving,
    /// The full state is being pushed back; the change waits.
    PushingState(D),
    /// The frame's draw is awaited; the change waits.
    Rendering(D),
    /// The change was handed out and is being applied.
    Applying,
    /// The session is over, with this result.
    Terminated(Result<(), GameError>),
}

/// The coarse life cycle of a session. A session starts running in the same
/// step in which its connections complete.
#[derive(Debug, Clone, Copy, PartialEq, Eq)]
pub enum Phase {
    AwaitingConnections,
    Running,
    Terminated,
}

/// What the caller reports to the loop.
#[derive(Debug)]
pub enum Signal<D> {
    /// Both channels are open.
    Opened,
    /// The initial authoritative state has arrived.
    InitialState,
    /// The input upload succeeded.
    InputSent,
    /// The processed-input artifact has arrived.
    AckReceived,
    /// The engine's frame is due, with the events it collected.
    Events(Vec<Event>),
    /// The tick's change, and whether the state must be pushed back first.
    Delta(bool, D),
    /// The state upload succeeded.
    StateSent,
    /// The frame's draw finished in time.
    Rendered,
    /// The frame's draw missed its deadline.
    RenderTimedOut,
    /// The change has been applied to the state.
    Applied,
    /// Opening, sending or receiving failed on a channel.
    TransportFailed,
    /// A terminal input asks the session to end.
    Shutdown,
}

/// What the loop asks the caller to do next.
#[derive(Debug, PartialEq, Eq)]
pub enum Action<D> {
    /// Receive the initial state from the state channel.
    ReceiveState,
    /// Upload the pending input over the input channel.
    SendInput,
    /// Receive the processed-input artifact from the input channel.
    ReceiveAck,
    /// Start drawing the current state, then wait for the engine's frame.
    StartFrame,
    /// Derive the tick's change from the artifact.
    DeriveDelta,
    /// Send the full state over the state channel.
    SendState,
    /// Wait for the draw that was started at the top of the tick.
    AwaitRender,
    /// Apply this change to the state.
    Apply(D),
    /// Stop: the session has ended with this result.
    Stop(Result<(), GameError>),
    /// The signal was out of place; nothing changes.
    Ignore,
}

/// The loop's state as plain values.
pub struct SyncState<D> {
    pub stage: Stage<D>,
    /// The input events seen since the latest successful upload, in order.
    pub pending: Seq<Event>,
    /// The number of ticks between two uploads.
    pub frame_rate: usize,
    /// The ticks still to run before the next upload.
    pub remaining: usize,
    /// The frames whose draw missed the deadline, counted up to `u64::MAX`.
    pub dropped: u64,
}

/// `s` at another stage.
pub open spec fn at_stage<D>(s: SyncState<D>, stage: Stage<D>) -> SyncState<D> {
    SyncState { stage, ..s }
}

/// The stage that opens the next tick, or the next upload when the batch of
/// ticks is over.
pub open spec fn tick_or_upload<D>(remaining: usize) -> (Stage<D>, Action<D>) {
    if remaining == 0 {
        (Stage::Uploading, Action::SendInput)
    } else {
        (Stage::Collecting, Action::StartFrame)
    }
}

/// The state after a signal, and the action it calls for.
///
/// A finished session stays finished and repeats its result. Before that, a
/// shutdown ends the session well and a transport failure ends it with
/// `GameError::SocketErr`, at any stage. Every other signal is answered at
/// the one stage that waits for it and ignored elsewhere. A missed render
/// deadline is counted and the tick goes on.
pub open spec fn transition<D>(s: SyncState<D>, signal: Signal<D>) -> (SyncState<D>, Action<D>) {
    match (s.stage, signal) {
        (Stage::Terminated(result), _) => (s, Action::Stop(result)),
        (_, Signal::Shutdown) => (at_stage(s, Stage::Terminated(Ok(()))), Action::Stop(Ok(()))),
        (_, Signal::TransportFailed) => (
            at_stage(s, Stage::Terminated(Err(GameError::SocketErr))),
            Action::Stop(Err(GameError::SocketErr)),
        ),
        (Stage::Opening, Signal::Opened) => (
            at_stage(s, Stage::AwaitingState),
            Action::ReceiveState,
        ),
        (Stage::AwaitingState, Signal::InitialState) => (
            at_stage(s, Stage::Uploading),
            Action::SendInput,
        ),
        (Stage::Uploading, Signal::InputSent) => (
            SyncState { stage: Stage::AwaitingAck, pending: Seq::empty(), ..s },
            Action::ReceiveAck,
        ),
        (Stage::AwaitingAck, Signal::AckReceived) => (
            SyncState { stage: tick_or_upload::<D>(s.frame_rate).0, remaining: s.frame_rate, ..s },
            tick_or_upload::<D>(s.frame_rate).1,
        ),
        (Stage::Collecting, Signal::Events(batch)) => (
            SyncState { stage: Stage::Deriving, pending: s.pending + batch@, ..s },
            Action::DeriveDelta,
        ),
        (Stage::Deriving, Signal::Delta(needs_push, delta)) => if needs_push {
            (at_stage(s, Stage::PushingState(delta)), Action::SendState)
        } else {
            (at_stage(s, Stage::Rendering(delta)), Action::AwaitRender)
        },
        (Stage::PushingState(delta), Signal::StateSent) => (
            at_stage(s, Stage::Rendering(delta)),
            Action::AwaitRender,
        ),
        (Stage::Rendering(delta), Signal::Rendered) => (
            at_stage(s, Stage::Applying),
            Action::Apply(delta),
        ),
        (Stage::Rendering(delta), Signal::RenderTimedOut) => (
            SyncState {
                stage: Stage::Applying,
                dropped: if s.dropped < u64::MAX {
                    (s.dropped + 1) as u64
                } else {
                    s.dropped
                },
                ..s
            },
            Action::Apply(delta),
        ),
        (Stage::Applying, Signal::Applied) => {
            let left: usize = if s.remaining > 0 {
                (s.remaining - 1) as usize
            } else {
                0
            };
            (
                SyncState { stage: tick_or_upload::<D>(left).0, remaining: left, ..s },
                tick_or_upload::<D>(left).1,
            )
        },
        _ => (s, Action::Ignore),
    }
}

/// The coarse phase of a stage.
pub open spec fn phase_of<D>(stage: Stage<D>) -> Phase {
    match stage {
        Stage::Opening | Stage::AwaitingState => Phase::AwaitingConnections,
        Stage::Terminated(_) => Phase::Terminated,
        _ => Phase::Running,
    }
}

/// The signal that reports how a frame's draw ended: in time, too late, or
/// with the transport gone.
pub open spec fn render_signal<K, D>(outcome: Result<K, GameError>) -> Signal<D> {
    match outcome {
        Ok(_) => Signal::Rendered,
        Err(GameError::Timeout) => Signal::RenderTimedOut,
        Err(GameError::SocketErr) => Signal::TransportFailed,
    }
}

/// The reconciliation loop of one session.
pub struct SyncLoop<D> {
    stage: Stage<D>,
    pending: Vec<Event>,
    frame_rate: usize,
    remaining: usize,
    dropped: u64,
}

impl<D> SyncLoop<D> {
    /// The loop's state as plain values.
    pub closed spec fn view(&self) -> SyncState<D> {
        SyncState {
            stage: self.stage,
            pending: self.pending@,
            frame_rate: self.frame_rate,
            remaining: self.remaining,
            dropped: self.dropped,
        }
    }

    /// A session that uploads its input every `frame_rate` ticks. Its
    /// channels are being opened; no input is pending and no frame was
    /// dropped.
    pub fn new(frame_rate: usize) -> (sync: SyncLoop<D>)
        ensures
            sync@ == (SyncState::<D> {
                stage: Stage::Opening,
                pending: Seq::empty(),
                frame_rate,
                remaining: 0,
                dropped: 0,
            }),
    {
        SyncLoop { stage: Stage::Opening, pending: Vec::new(), frame_rate, remaining: 0, dropped: 0 }
    }

    /// The coarse phase of the session.
    pub fn phase(&self) -> (phase: Phase)
        ensures
            phase == phase_of(self@.stage),
    {
        match &self.stage {
            Stage::Opening => Phase::AwaitingConnections,
            Stage::AwaitingState => Phase::AwaitingConnections,
            Stage::Terminated(_) => Phase::Terminated,
            _ => Phase::Running,
        }
    }

    /// The session's result, once it has ended.
    pub fn result(&self) -> (result: Option<Result<(), GameError>>)
        ensures
            result == match self@.stage {
                Stage::Terminated(r) => Some(r),
                _ => None,
            },
    {
        match &self.stage {
            Stage::Terminated(r) => Some(*r),
            _ => None,
        }
    }

    /// The input events seen since the latest successful upload, in order.
    pub fn pending(&self) -> (pending: &Vec<Event>)
        ensures
            pending@ == self@.pending,
    {
        &self.pending
    }

    /// The ticks still to run before the next upload.
    pub fn remaining_ticks(&self) -> (ticks: usize)
        ensures
            ticks == self@.remaining,
    {
        self.remaining
    }

    /// The number of frames whose draw missed the deadline.
    pub fn dropped_frames(&self) -> (frames: u64)
        ensures
            frames == self@.dropped,
    {
        self.dropped
    }

    /// The signal to report for the outcome of a frame's draw.
    pub fn after_render<K>(outcome: &Result<K, GameError>) -> (signal: Signal<D>)
        ensures
            signal == render_signal::<K, D>(*outcome),
    {
        match outcome {
            Ok(_) => Signal::Rendered,
            Err(GameError::Timeout) => Signal::RenderTimedOut,
            Err(GameError::SocketErr) => Signal::TransportFailed,
        }
    }

    /// Takes one signal and answers with the next action, as `transition`
    /// says.
    pub fn step(&mut self, signal: Signal<D>) -> (action: Action<D>)
        ensures
            (final(self)@, action) == transition(old(self)@, signal),
    {
        let mut stage: Stage<D> = Stage::Applying;
        core::mem::swap(&mut stage, &mut self.stage);
        match (stage, signal) {
            (Stage::Terminated(result), _) => {
                self.stage = Stage::Terminated(result);
                Action::Stop(result)
            },
            (_, Signal::Shutdown) => {
                self.stage = Stage::Terminated(Ok(()));
                Action::Stop(Ok(()))
            },
            (_, Signal::TransportFailed) => {
                self.stage = Stage::Terminated(Err(GameError::SocketErr));
                Action::Stop(Err(GameError::SocketErr))
            },
            (Stage::Opening, Signal::Opened) => {
                self.stage = Stage::AwaitingState;
                Action::ReceiveState
            },
            (Stage::AwaitingState, Signal::InitialState) => {
                self.stage = Stage::Uploading;
                Action::SendInput
            },
            (Stage::Uploading, Signal::InputSent) => {
                self.stage = Stage::AwaitingAck;
                self.pending.clear();
                Action::ReceiveAck
            },
            (Stage::AwaitingAck, Signal::AckReceived) => {
                self.remaining = self.frame_rate;
                self.open_tick()
            },
            (Stage::Collecting, Signal::Events(batch)) => {
                let mut batch = batch;
                self.pending.append(&mut batch);
                self.stage = Stage::Deriving;
                Action::DeriveDelta
            },
            (Stage::Deriving, Signal::Delta(needs_push, delta)) => {
                if needs_push {
                    self.stage = Stage::PushingState(delta);
                    Action::SendState
                } else {
                    self.stage = Stage::Rendering(delta);
                    Action::AwaitRender
                }
            },
            (Stage::PushingState(delta), Signal::StateSent) => {
                self.stage = Stage::Rendering(delta);
                Action::AwaitRender
            },
            (Stage::Rendering(delta), Signal::Rendered) => {
                self.stage = Stage::Applying;
                Action::Apply(delta)
            },
            (Stage::Rendering(delta), Signal::RenderTimedOut) => {
                self.stage = Stage::Applying;
                if self.dropped < u64::MAX {
                    self.dropped = self.dropped + 1;
                }
                Action::Apply(delta)
            },
            (Stage::Applying, Signal::Applied) => {
                if self.remaining > 0 {
                    self.remaining = self.remaining - 1;
                }
                self.open_tick()
            },
            (stage, _) => {
                self.stage = stage;
                Action::Ignore
            },
        }
    }

    /// Moves to the next tick, or to the next upload when none is left.
    fn open_tick(&mut self) -> (action: Action<D>)
        ensures
            final(self)@ == at_stage(old(self)@, tick_or_upload::<D>(old(self)@.remaining).0),
            action == tick_or_upload::<D>(old(self)@.remaining).1,
    {
        if self.remaining == 0 {
            self.stage = Stage::Uploading;
            Action::SendInput
        } else {
            self.stage = Stage::Collecting;
            Action::StartFrame
        }
    }
}

} // verus!
