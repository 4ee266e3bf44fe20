use hexagon_gl::frame::{spin_history, FULL_TURN, HALF_TURN};
use hexagon_gl::{FrameLoop, FrameUpdate, Phase};

const SECOND: u64 = 1_000_000;

#[test]
fn one_second_spins_sixty_degrees_clockwise() {
    let mut f = FrameLoop::new();
    assert!(f.start(0));
    let u = f.begin_frame(SECOND);
    assert_eq!(u, Some(FrameUpdate { rotation: -60_000_000, accumulated: -60_000_000 }));
    assert_eq!(f.phase, Phase::Running);
    assert!(f.end_frame(true));
    assert_eq!(f.phase, Phase::Scheduled);
    assert_eq!(f.previous, SECOND);
    assert_eq!(f.accumulated, -60_000_000);
}

#[test]
fn new_loop_is_unstarted_identity() {
    let f = FrameLoop::new();
    assert_eq!(f.phase, Phase::Unstarted);
    assert_eq!(f.accumulated, 0);
}

#[test]
fn start_records_timestamp_once() {
    let mut f = FrameLoop::new();
    assert!(f.start(5_000));
    assert_eq!(f, FrameLoop { phase: Phase::Scheduled, previous: 5_000, accumulated: 0 });
    assert!(!f.start(9_000));
    assert_eq!(f.previous, 5_000);
}

#[test]
fn frame_before_start_does_nothing() {
    let mut f = FrameLoop::new();
    assert_eq!(f.begin_frame(SECOND), None);
    assert_eq!(f, FrameLoop::new());
    assert!(!f.end_frame(true));
    assert_eq!(f, FrameLoop::new());
}

#[test]
fn failed_frame_halts_the_loop() {
    let mut f = FrameLoop::new();
    f.start(0);
    assert!(f.begin_frame(SECOND / 2).is_some());
    assert!(!f.end_frame(false));
    assert_eq!(f.phase, Phase::Halted);
    assert_eq!(f.begin_frame(SECOND), None);
    assert_eq!(f.accumulated, -30_000_000);
}

#[test]
fn frame_while_running_is_ignored() {
    let mut f = FrameLoop::new();
    f.start(0);
    f.begin_frame(SECOND);
    let before = f;
    assert_eq!(f.begin_frame(2 * SECOND), None);
    assert_eq!(f, before);
}

#[test]
fn zero_elapsed_time_adds_no_rotation() {
    let mut f = FrameLoop::new();
    f.start(7);
    assert_eq!(f.begin_frame(7), Some(FrameUpdate { rotation: 0, accumulated: 0 }));
}

#[test]
fn long_frame_wraps_into_half_turn() {
    let mut f = FrameLoop::new();
    f.start(0);
    // -240 degrees is the same rotation as +120 degrees.
    assert_eq!(f.begin_frame(4 * SECOND), Some(FrameUpdate { rotation: 120_000_000, accumulated: 120_000_000 }));
}

#[test]
fn half_turn_is_kept_positive() {
    let mut f = FrameLoop::new();
    f.start(0);
    assert_eq!(f.begin_frame(3 * SECOND), Some(FrameUpdate { rotation: HALF_TURN, accumulated: HALF_TURN }));
}

#[test]
fn full_period_returns_to_identity() {
    let mut f = FrameLoop::new();
    f.start(0);
    assert_eq!(f.begin_frame(6 * SECOND), Some(FrameUpdate { rotation: 0, accumulated: 0 }));
}

#[test]
fn clock_going_back_turns_counterclockwise() {
    let mut f = FrameLoop::new();
    f.start(2 * SECOND);
    assert_eq!(f.begin_frame(SECOND), Some(FrameUpdate { rotation: 60_000_000, accumulated: 60_000_000 }));
}

#[test]
fn largest_timestamps_do_not_overflow() {
    let mut f = FrameLoop::new();
    f.start(0);
    let u = f.begin_frame(u64::MAX).unwrap();
    assert!(u.rotation > -HALF_TURN && u.rotation <= HALF_TURN);
    let expected = {
        let e = (u64::MAX % 6_000_000) as i64;
        let a = -(60 * e) % FULL_TURN;
        if a <= -HALF_TURN { a + FULL_TURN } else { a }
    };
    assert_eq!(u.rotation, expected);
}

#[test]
fn accumulated_rotations_add_up() {
    let mut f = FrameLoop::new();
    f.start(0);
    f.begin_frame(2 * SECOND);
    f.end_frame(true);
    // -120 then -120 again: -240, wrapped to +120.
    assert_eq!(f.begin_frame(4 * SECOND), Some(FrameUpdate { rotation: -120_000_000, accumulated: 120_000_000 }));
}

#[test]
fn history_is_reproducible() {
    let times = vec![16_667, 33_333, 50_000, 1_000_000, 1_016_667];
    let a = spin_history(0, &times);
    let b = spin_history(0, &times);
    assert_eq!(a, b);
    assert_eq!(a.len(), times.len());
    assert_eq!(a[0], -1_000_020);
    assert_eq!(a[3], -60_000_000);
}

#[test]
fn history_depends_only_on_elapsed_time() {
    let coarse = spin_history(1_000, &vec![3_001_000]);
    let fine = spin_history(1_000, &vec![17_000, 500_000, 1_234_567, 2_999_999, 3_001_000]);
    assert_eq!(coarse[0], fine[4]);
    assert_eq!(coarse[0], HALF_TURN);
}

#[test]
fn history_of_no_frames_is_empty() {
    assert!(spin_history(0, &vec![]).is_empty());
}
