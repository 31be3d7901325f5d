use shogo::engine::{delay, Engine, Tick};
use shogo::error::{DelayTooLong, ZeroFrameRate};
use shogo::event::Event;

fn wait_of(tick: Tick) -> u64 {
    match tick {
        Tick::Wait(millis) => millis,
        Tick::Ready(batch) => panic!("frame was due with {:?}", batch),
    }
}

fn batch_of(tick: Tick) -> Vec<Event> {
    match tick {
        Tick::Ready(batch) => batch,
        Tick::Wait(millis) => panic!("asked to wait {} ms", millis),
    }
}

#[test]
fn sixty_frames_a_second_is_16667_micros() {
    assert_eq!(Engine::new(60, 0).unwrap().frame_interval_micros(), 16_667);
}

#[test]
fn interval_is_rounded_to_nearest() {
    assert_eq!(Engine::new(1, 0).unwrap().frame_interval_micros(), 1_000_000);
    assert_eq!(Engine::new(3, 0).unwrap().frame_interval_micros(), 333_333);
    assert_eq!(Engine::new(7, 0).unwrap().frame_interval_micros(), 142_857);
    assert_eq!(Engine::new(30, 0).unwrap().frame_interval_micros(), 33_333);
    assert_eq!(Engine::new(1_000_000, 0).unwrap().frame_interval_micros(), 1);
    assert_eq!(Engine::new(2_000_000, 0).unwrap().frame_interval_micros(), 1);
    assert_eq!(Engine::new(2_000_001, 0).unwrap().frame_interval_micros(), 0);
    assert_eq!(Engine::new(usize::MAX, 0).unwrap().frame_interval_micros(), 0);
}

#[test]
fn zero_frame_rate_is_refused() {
    assert_eq!(Engine::new(0, 0).err(), Some(ZeroFrameRate));
    assert_eq!(Engine::new(0, u64::MAX).err(), Some(ZeroFrameRate));
    assert!(Engine::new(1, 0).is_ok());
}

#[test]
fn new_engine_starts_at_now() {
    let engine = Engine::new(60, 123_456).unwrap();
    assert_eq!(engine.last_tick_micros(), 123_456);
}

#[test]
fn next_waits_for_the_rest_of_the_interval() {
    let mut engine = Engine::new(60, 1_000).unwrap();
    assert_eq!(wait_of(engine.next(2_000)), 16);
    assert_eq!(wait_of(engine.next(1_000)), 17);
    assert_eq!(wait_of(engine.next(17_666)), 1);
    assert_eq!(wait_of(engine.next(16_667)), 1);
    assert_eq!(engine.last_tick_micros(), 1_000);
}

#[test]
fn next_is_due_once_the_interval_has_passed() {
    let mut engine = Engine::new(60, 1_000).unwrap();
    engine.push(Event::MouseDown([4, 5]));
    assert_eq!(wait_of(engine.next(17_666)), 1);
    assert_eq!(batch_of(engine.next(17_667)), vec![Event::MouseDown([4, 5])]);
    assert_eq!(engine.last_tick_micros(), 17_667);
    assert_eq!(wait_of(engine.next(17_667)), 17);
}

#[test]
fn next_never_returns_events_early() {
    let mut engine = Engine::new(50, 0).unwrap();
    let mut last_ready = 0u64;
    let mut now = 0u64;
    let mut frames = 0;
    while frames < 20 {
        now += 3_700;
        engine.push(Event::MouseDown([frames, 0]));
        if let Tick::Ready(_) = engine.next(now) {
            assert!(now - last_ready >= 20_000);
            last_ready = now;
            frames += 1;
        }
    }
}

#[test]
fn waiting_as_told_makes_the_frame_due() {
    let mut engine = Engine::new(60, 5_000).unwrap();
    let now = 9_123;
    let millis = wait_of(engine.next(now));
    assert_eq!(millis, 13);
    assert_eq!(batch_of(engine.next(now + millis * 1_000)), Vec::<Event>::new());
}

#[test]
fn events_batch_into_the_next_frame() {
    let mut engine = Engine::new(100, 0).unwrap();
    engine.push(Event::MouseDown([1, 1]));
    assert_eq!(wait_of(engine.next(5_000)), 5);
    engine.push(Event::MouseDown([2, 2]));
    assert_eq!(
        batch_of(engine.next(10_000)),
        vec![Event::MouseDown([1, 1]), Event::MouseDown([2, 2])]
    );
    engine.push(Event::MouseDown([3, 3]));
    assert_eq!(batch_of(engine.next(25_000)), vec![Event::MouseDown([3, 3])]);
    assert_eq!(batch_of(engine.next(35_000)), Vec::<Event>::new());
}

#[test]
fn overrun_starts_the_next_interval_at_resumption() {
    let mut engine = Engine::new(100, 0).unwrap();
    assert_eq!(batch_of(engine.next(31_000)), Vec::<Event>::new());
    assert_eq!(engine.last_tick_micros(), 31_000);
    assert_eq!(wait_of(engine.next(32_000)), 9);
}

#[test]
fn clock_that_runs_backwards_waits_longer() {
    let mut engine = Engine::new(100, 50_000).unwrap();
    assert_eq!(wait_of(engine.next(40_000)), 20);
}

#[test]
fn largest_times_do_not_overflow() {
    let mut engine = Engine::new(1, u64::MAX).unwrap();
    assert_eq!(wait_of(engine.next(0)), 18_446_744_073_710_552);
    assert_eq!(wait_of(engine.next(u64::MAX)), 1_000);
    let mut at_zero = Engine::new(1, 0).unwrap();
    assert_eq!(batch_of(at_zero.next(u64::MAX)), Vec::<Event>::new());
    assert_eq!(at_zero.last_tick_micros(), u64::MAX);
}

#[test]
fn delay_accepts_what_the_timer_counts() {
    assert_eq!(delay(0), Ok(0));
    assert_eq!(delay(5), Ok(5));
    assert_eq!(delay(2_147_483_647), Ok(i32::MAX));
}

#[test]
fn delay_refuses_longer_times() {
    assert_eq!(delay(2_147_483_648), Err(DelayTooLong));
    assert_eq!(delay(u64::MAX), Err(DelayTooLong));
}
