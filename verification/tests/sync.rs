use shogo::error::GameError;
use shogo::event::Event;
use shogo::sync::{Action, Phase, Signal, SyncLoop};

fn running(frame_rate: usize) -> SyncLoop<u32> {
    let mut sync = SyncLoop::new(frame_rate);
    assert_eq!(sync.step(Signal::Opened), Action::ReceiveState);
    assert_eq!(sync.step(Signal::InitialState), Action::SendInput);
    sync
}

fn in_tick(frame_rate: usize) -> SyncLoop<u32> {
    let mut sync = running(frame_rate);
    assert_eq!(sync.step(Signal::InputSent), Action::ReceiveAck);
    assert_eq!(sync.step(Signal::AckReceived), Action::StartFrame);
    sync
}

fn click(x: i32) -> Event {
    Event::MouseDown([x, -x])
}

#[test]
fn session_starts_awaiting_connections() {
    let sync: SyncLoop<u32> = SyncLoop::new(60);
    assert_eq!(sync.phase(), Phase::AwaitingConnections);
    assert_eq!(sync.result(), None);
    assert_eq!(sync.pending(), &Vec::<Event>::new());
    assert_eq!(sync.dropped_frames(), 0);
}

#[test]
fn session_runs_once_state_has_arrived() {
    let mut sync: SyncLoop<u32> = SyncLoop::new(60);
    assert_eq!(sync.step(Signal::Opened), Action::ReceiveState);
    assert_eq!(sync.phase(), Phase::AwaitingConnections);
    assert_eq!(sync.step(Signal::InitialState), Action::SendInput);
    assert_eq!(sync.phase(), Phase::Running);
}

#[test]
fn one_batch_of_two_ticks() {
    let mut sync = in_tick(2);
    assert_eq!(sync.remaining_ticks(), 2);
    assert_eq!(sync.step(Signal::Events(vec![click(1)])), Action::DeriveDelta);
    assert_eq!(sync.step(Signal::Delta(false, 10)), Action::AwaitRender);
    assert_eq!(sync.step(Signal::Rendered), Action::Apply(10));
    assert_eq!(sync.step(Signal::Applied), Action::StartFrame);
    assert_eq!(sync.remaining_ticks(), 1);
    assert_eq!(sync.step(Signal::Events(vec![])), Action::DeriveDelta);
    assert_eq!(sync.step(Signal::Delta(true, 11)), Action::SendState);
    assert_eq!(sync.step(Signal::StateSent), Action::AwaitRender);
    assert_eq!(sync.step(Signal::Rendered), Action::Apply(11));
    assert_eq!(sync.step(Signal::Applied), Action::SendInput);
    assert_eq!(sync.remaining_ticks(), 0);
    assert_eq!(sync.pending(), &vec![click(1)]);
    assert_eq!(sync.step(Signal::InputSent), Action::ReceiveAck);
    assert_eq!(sync.pending(), &Vec::<Event>::new());
    assert_eq!(sync.step(Signal::AckReceived), Action::StartFrame);
    assert_eq!(sync.phase(), Phase::Running);
}

#[test]
fn deltas_are_applied_in_the_order_derived() {
    let mut sync = in_tick(5);
    let mut applied = Vec::new();
    for delta in [7u32, 3, 9, 3, 1] {
        assert_eq!(sync.step(Signal::Events(vec![])), Action::DeriveDelta);
        let mut action = sync.step(Signal::Delta(delta % 2 == 1, delta));
        if action == Action::SendState {
            action = sync.step(Signal::StateSent);
        }
        assert_eq!(action, Action::AwaitRender);
        match sync.step(Signal::Rendered) {
            Action::Apply(d) => applied.push(d),
            other => panic!("expected a change, got {:?}", other),
        }
        sync.step(Signal::Applied);
    }
    assert_eq!(applied, vec![7, 3, 9, 3, 1]);
}

#[test]
fn pending_input_is_the_events_since_the_last_upload() {
    let mut sync = in_tick(3);
    let batches = vec![vec![click(1), click(2)], vec![], vec![click(3)]];
    for batch in batches {
        assert_eq!(sync.step(Signal::Events(batch)), Action::DeriveDelta);
        assert_eq!(sync.step(Signal::Delta(false, 0)), Action::AwaitRender);
        assert_eq!(sync.step(Signal::Rendered), Action::Apply(0));
        sync.step(Signal::Applied);
    }
    assert_eq!(sync.pending(), &vec![click(1), click(2), click(3)]);
    assert_eq!(sync.step(Signal::InputSent), Action::ReceiveAck);
    assert_eq!(sync.step(Signal::AckReceived), Action::StartFrame);
    assert_eq!(sync.step(Signal::Events(vec![click(4)])), Action::DeriveDelta);
    assert_eq!(sync.pending(), &vec![click(4)]);
}

#[test]
fn state_send_failure_terminates_the_session() {
    let mut sync = in_tick(60);
    assert_eq!(sync.step(Signal::Events(vec![click(1)])), Action::DeriveDelta);
    assert_eq!(sync.step(Signal::Delta(true, 5)), Action::SendState);
    assert_eq!(
        sync.step(Signal::TransportFailed),
        Action::Stop(Err(GameError::SocketErr))
    );
    assert_eq!(sync.phase(), Phase::Terminated);
    assert_eq!(sync.result(), Some(Err(GameError::SocketErr)));
    assert_eq!(sync.step(Signal::StateSent), Action::Stop(Err(GameError::SocketErr)));
    assert_eq!(sync.step(Signal::Rendered), Action::Stop(Err(GameError::SocketErr)));
    assert_eq!(sync.step(Signal::Applied), Action::Stop(Err(GameError::SocketErr)));
    assert_eq!(sync.step(Signal::Shutdown), Action::Stop(Err(GameError::SocketErr)));
    assert_eq!(sync.phase(), Phase::Terminated);
}

#[test]
fn connect_failure_terminates_the_session() {
    let mut sync: SyncLoop<u32> = SyncLoop::new(60);
    assert_eq!(
        sync.step(Signal::TransportFailed),
        Action::Stop(Err(GameError::SocketErr))
    );
    assert_eq!(sync.step(Signal::Opened), Action::Stop(Err(GameError::SocketErr)));
    assert_eq!(sync.phase(), Phase::Terminated);
}

#[test]
fn render_timeout_drops_the_frame_and_goes_on() {
    let mut sync = in_tick(2);
    assert_eq!(sync.step(Signal::Events(vec![])), Action::DeriveDelta);
    assert_eq!(sync.step(Signal::Delta(false, 4)), Action::AwaitRender);
    assert_eq!(sync.step(Signal::RenderTimedOut), Action::Apply(4));
    assert_eq!(sync.dropped_frames(), 1);
    assert_eq!(sync.step(Signal::Applied), Action::StartFrame);
    assert_eq!(sync.phase(), Phase::Running);
    assert_eq!(sync.result(), None);
}

#[test]
fn shutdown_ends_the_session_well() {
    let mut sync = in_tick(2);
    assert_eq!(sync.step(Signal::Shutdown), Action::Stop(Ok(())));
    assert_eq!(sync.phase(), Phase::Terminated);
    assert_eq!(sync.result(), Some(Ok(())));
    assert_eq!(sync.step(Signal::TransportFailed), Action::Stop(Ok(())));
}

#[test]
fn signal_out_of_place_is_ignored() {
    let mut sync = in_tick(2);
    assert_eq!(sync.step(Signal::Rendered), Action::Ignore);
    assert_eq!(sync.step(Signal::Delta(true, 1)), Action::Ignore);
    assert_eq!(sync.step(Signal::InputSent), Action::Ignore);
    assert_eq!(sync.step(Signal::Events(vec![click(1)])), Action::DeriveDelta);
    assert_eq!(sync.step(Signal::Events(vec![click(2)])), Action::Ignore);
    assert_eq!(sync.pending(), &vec![click(1)]);
    assert_eq!(sync.step(Signal::Delta(true, 6)), Action::SendState);
    assert_eq!(sync.step(Signal::Rendered), Action::Ignore);
    assert_eq!(sync.step(Signal::StateSent), Action::AwaitRender);
    assert_eq!(sync.step(Signal::Rendered), Action::Apply(6));
}

#[test]
fn zero_ticks_a_batch_only_exchanges_input() {
    let mut sync = running(0);
    assert_eq!(sync.step(Signal::InputSent), Action::ReceiveAck);
    assert_eq!(sync.step(Signal::AckReceived), Action::SendInput);
    assert_eq!(sync.step(Signal::InputSent), Action::ReceiveAck);
}

#[test]
fn render_outcomes_map_to_signals() {
    let ok: Result<u8, GameError> = Ok(1);
    assert!(matches!(SyncLoop::<u32>::after_render(&ok), Signal::Rendered));
    let late: Result<u8, GameError> = Err(GameError::Timeout);
    assert!(matches!(SyncLoop::<u32>::after_render(&late), Signal::RenderTimedOut));
    let gone: Result<u8, GameError> = Err(GameError::SocketErr);
    assert!(matches!(SyncLoop::<u32>::after_render(&gone), Signal::TransportFailed));
}
