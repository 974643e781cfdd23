use playback_core::display::{DisplayConsumer, DisplayState, TickOutcome};
use playback_core::frame_queue::FrameQueue;
use playback_core::gate::PlaybackGate;
use playback_core::timing::frame_period_nanos;

#[test]
fn gate_starts_closed_and_opens_once() {
    let mut gate = PlaybackGate::new();
    assert!(!gate.is_open());
    assert!(gate.open());
    assert!(gate.is_open());
    assert!(!gate.open());
    assert!(gate.is_open());
    assert!(!gate.open());
    assert!(gate.is_open());
}

#[test]
fn consumer_starts_idle_and_arms_once() {
    let mut consumer = DisplayConsumer::new();
    assert_eq!(consumer.state(), DisplayState::Idle);
    assert_eq!(consumer.period(), 0);
    consumer.arm(33_333_333, 1_000);
    assert_eq!(consumer.state(), DisplayState::Armed);
    assert_eq!(consumer.period(), 33_333_333);
    assert_eq!(consumer.last_tick(), 1_000);
    consumer.arm(5, 2_000);
    assert_eq!(consumer.state(), DisplayState::Armed);
    assert_eq!(consumer.period(), 33_333_333);
    assert_eq!(consumer.last_tick(), 1_000);
}

#[test]
fn idle_consumer_does_nothing_on_tick() {
    let mut consumer = DisplayConsumer::new();
    let mut queue: FrameQueue<u32> = FrameQueue::new(4);
    let mut gate = PlaybackGate::new();
    assert_eq!(queue.try_push(1), Ok(()));
    assert_eq!(consumer.tick(&mut queue, &mut gate), TickOutcome::Inactive);
    assert_eq!(queue.len(), 1);
    assert!(!gate.is_open());
    assert_eq!(consumer.state(), DisplayState::Idle);
    assert!(!consumer.redraw_due(1_000_000_000));
}

#[test]
fn empty_queue_before_first_frame_keeps_waiting() {
    let mut consumer = DisplayConsumer::new();
    let mut queue: FrameQueue<u32> = FrameQueue::new(4);
    let mut gate = PlaybackGate::new();
    consumer.arm(10, 0);
    for _ in 0..5 {
        assert_eq!(consumer.tick(&mut queue, &mut gate), TickOutcome::Waiting);
        assert_eq!(consumer.state(), DisplayState::Armed);
        assert!(!gate.is_open());
    }
}

#[test]
fn first_frame_opens_the_gate() {
    let mut consumer = DisplayConsumer::new();
    let mut queue: FrameQueue<u32> = FrameQueue::new(4);
    let mut gate = PlaybackGate::new();
    consumer.arm(10, 0);
    assert_eq!(consumer.tick(&mut queue, &mut gate), TickOutcome::Waiting);
    assert_eq!(queue.try_push(7), Ok(()));
    assert_eq!(queue.try_push(8), Ok(()));
    assert_eq!(consumer.tick(&mut queue, &mut gate), TickOutcome::Present(7));
    assert!(gate.is_open());
    assert_eq!(consumer.tick(&mut queue, &mut gate), TickOutcome::Present(8));
    assert!(gate.is_open());
    assert_eq!(consumer.state(), DisplayState::Armed);
}

#[test]
fn consumer_presents_all_frames_in_order_then_terminates() {
    for total in 1..40u32 {
        let mut consumer = DisplayConsumer::new();
        let mut queue: FrameQueue<u32> = FrameQueue::new(70);
        let mut gate = PlaybackGate::new();
        consumer.arm(1, 0);
        for frame in 0..total {
            assert_eq!(queue.try_push(frame * 3), Ok(()));
        }
        let mut shown: Vec<u32> = Vec::new();
        let mut ticks = 0;
        loop {
            ticks += 1;
            match consumer.tick(&mut queue, &mut gate) {
                TickOutcome::Present(frame) => shown.push(frame),
                TickOutcome::Finished => break,
                other => panic!("unexpected outcome {:?}", other),
            }
        }
        let expected: Vec<u32> = (0..total).map(|frame| frame * 3).collect();
        assert_eq!(shown, expected);
        assert_eq!(ticks, total + 1);
        assert_eq!(consumer.state(), DisplayState::Terminated);
        assert!(gate.is_open());
        assert_eq!(consumer.tick(&mut queue, &mut gate), TickOutcome::Inactive);
        assert_eq!(consumer.state(), DisplayState::Terminated);
        assert!(gate.is_open());
    }
}

#[test]
fn gate_stays_open_through_a_whole_session() {
    let mut consumer = DisplayConsumer::new();
    let mut queue: FrameQueue<u32> = FrameQueue::new(3);
    let mut gate = PlaybackGate::new();
    consumer.arm(1, 0);
    let mut opened = 0;
    let mut was_open = false;
    for step in 0..50u32 {
        if step % 3 != 2 && step < 30 {
            let _ = queue.try_push(step);
        }
        let _ = consumer.tick(&mut queue, &mut gate);
        if gate.is_open() && !was_open {
            opened += 1;
        }
        assert!(!was_open || gate.is_open());
        was_open = gate.is_open();
    }
    assert_eq!(opened, 1);
    assert_eq!(consumer.state(), DisplayState::Terminated);
}

#[test]
fn redraw_is_due_after_a_full_period() {
    let mut consumer = DisplayConsumer::new();
    consumer.arm(100, 1_000);
    assert!(!consumer.redraw_due(1_000));
    assert!(!consumer.redraw_due(1_099));
    assert_eq!(consumer.last_tick(), 1_000);
    assert!(consumer.redraw_due(1_100));
    assert_eq!(consumer.last_tick(), 1_100);
    assert!(!consumer.redraw_due(1_150));
    assert!(consumer.redraw_due(1_250));
    assert_eq!(consumer.last_tick(), 1_200);
    assert!(!consumer.redraw_due(1_299));
    assert!(!consumer.redraw_due(900));
    assert_eq!(consumer.last_tick(), 1_200);
    assert!(consumer.redraw_due(1_300));
    assert_eq!(consumer.last_tick(), 1_300);
}

#[test]
fn late_looks_do_not_slow_the_cadence() {
    let period = 1_000u64;
    let mut consumer = DisplayConsumer::new();
    consumer.arm(period, 0);
    let looks = [period + 10, 2 * period + 5, 3 * period + 10, 4 * period + 5, 5 * period + 10];
    let mut granted = 0;
    for now in looks {
        if consumer.redraw_due(now) {
            granted += 1;
        }
    }
    assert_eq!(granted, 5);
    assert_eq!(consumer.last_tick(), 5 * period);
}

#[test]
fn timer_catches_up_after_a_stall_one_redraw_per_look() {
    let mut consumer = DisplayConsumer::new();
    consumer.arm(100, 0);
    assert!(consumer.redraw_due(350));
    assert_eq!(consumer.last_tick(), 100);
    assert!(consumer.redraw_due(351));
    assert!(consumer.redraw_due(352));
    assert_eq!(consumer.last_tick(), 300);
    assert!(!consumer.redraw_due(353));
    assert!(consumer.redraw_due(400));
    assert_eq!(consumer.last_tick(), 400);
}

#[test]
fn jittered_looks_stay_within_one_frame_of_the_ideal_count() {
    let period = frame_period_nanos(30, 1);
    let mut consumer = DisplayConsumer::new();
    consumer.arm(period, 0);
    let mut granted: u64 = 0;
    let mut now: u64 = 0;
    let mut seed: u64 = 7;
    while now < 20 * 1_000_000_000 {
        seed = seed.wrapping_mul(6364136223846793005).wrapping_add(1442695040888963407);
        // The next look comes after anything between a millisecond and a full period.
        now += 1_000_000 + (seed >> 33) % (period - 1_000_000);
        if consumer.redraw_due(now) {
            granted += 1;
        }
        let ideal = now / period;
        assert!(granted <= ideal && granted + 1 >= ideal, "at {}: {} of {}", now, granted, ideal);
    }
    assert!(granted >= 599);
}

#[test]
fn zero_period_makes_every_look_a_tick() {
    let mut consumer = DisplayConsumer::new();
    consumer.arm(0, 5);
    assert!(consumer.redraw_due(5));
    assert!(consumer.redraw_due(5));
    assert!(consumer.redraw_due(6));
}

#[test]
fn thirty_frames_per_second_for_ten_seconds() {
    let period = frame_period_nanos(30, 1);
    assert_eq!(period, 33_333_333);
    let mut consumer = DisplayConsumer::new();
    let mut queue: FrameQueue<u64> = FrameQueue::new(70);
    let mut gate = PlaybackGate::new();
    consumer.arm(period, 0);
    let seconds: u64 = 10;
    let end = seconds * 1_000_000_000;
    let mut presented: u64 = 0;
    let mut next_frame: u64 = 0;
    let mut now: u64 = 0;
    while now <= end {
        while queue.try_push(next_frame).is_ok() {
            next_frame += 1;
        }
        if consumer.redraw_due(now) {
            match consumer.tick(&mut queue, &mut gate) {
                TickOutcome::Present(frame) => {
                    assert_eq!(frame, presented);
                    presented += 1;
                },
                other => panic!("unexpected outcome {:?}", other),
            }
        }
        now += period;
    }
    let expected = end / period;
    assert_eq!(expected, 300);
    assert!(presented + 1 >= expected && presented <= expected + 1);
}
