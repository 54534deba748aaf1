use ur_driver::program_watch::{ProgramWatch, PROGRAM_IDLE, PROGRAM_RUNNING};
use ur_driver::state::DriverState;
use ur_driver::telemetry::BODY_SIZE;

type State = DriverState<u32, (), ()>;

fn body(robot_state: f64, program_state: f64) -> Vec<u8> {
    let mut b = vec![0u8; BODY_SIZE];
    b[808..816].copy_from_slice(&robot_state.to_be_bytes());
    b[1048..1056].copy_from_slice(&program_state.to_be_bytes());
    b
}

fn with_goal() -> State {
    let mut s = State::new();
    s.telemetry_reconnected();
    assert!(s.submit_goal("a".to_string(), 7, (), ()).is_ok());
    s
}

#[test]
fn run_then_idle_succeeds() {
    let mut w = ProgramWatch::new();
    assert_eq!(w.observe(PROGRAM_IDLE, 0), None);
    assert_eq!(w.observe(PROGRAM_RUNNING, 100), None);
    assert!(w.seen_running);
    assert_eq!(w.observe(PROGRAM_RUNNING, 5000), None);
    assert_eq!(w.observe(PROGRAM_IDLE, 6000), Some(true));
    assert_eq!(w, ProgramWatch::new());
}

#[test]
fn never_started_fails_after_deadline() {
    let mut w = ProgramWatch::new();
    assert_eq!(w.observe(PROGRAM_IDLE, 10), None);
    assert_eq!(w.idle_since_ms, Some(10));
    assert_eq!(w.observe(PROGRAM_IDLE, 500), None);
    assert_eq!(w.observe(PROGRAM_IDLE, 1010), None);
    assert_eq!(w.observe(PROGRAM_IDLE, 1011), Some(false));
    assert_eq!(w.idle_since_ms, None);
}

#[test]
fn other_states_give_no_verdict() {
    let mut w = ProgramWatch::new();
    assert_eq!(w.observe(0, 10), None);
    assert_eq!(w.observe(3, 5000), None);
    assert_eq!(w, ProgramWatch::new());
    w.observe(PROGRAM_IDLE, 0);
    w.reset();
    assert_eq!(w, ProgramWatch::new());
}

#[test]
fn watched_frames_settle_goal() {
    let mut s = with_goal();
    let mut w = ProgramWatch::new();
    assert!(s.apply_frame_watched(&body(1.0, 1.0), &mut w, 0).is_none());
    assert!(s.apply_frame_watched(&body(1.0, 2.0), &mut w, 8).is_none());
    assert_eq!(s.program_state, 2);
    let r = s.apply_frame_watched(&body(1.0, 1.0), &mut w, 16).expect("finished");
    assert_eq!(r.completion, 7);
    assert!(r.success);
    assert!(s.active_goal.is_none());
}

#[test]
fn watched_fault_fails_goal_and_resets() {
    let mut s = with_goal();
    let mut w = ProgramWatch::new();
    s.apply_frame_watched(&body(1.0, 2.0), &mut w, 0);
    assert!(w.seen_running);
    let r = s.apply_frame_watched(&body(3.0, 2.0), &mut w, 8).expect("fault");
    assert!(!r.success);
    assert_eq!(w, ProgramWatch::new());
}

#[test]
fn watched_never_started_fails() {
    let mut s = with_goal();
    let mut w = ProgramWatch::new();
    assert!(s.apply_frame_watched(&body(1.0, 1.0), &mut w, 100).is_none());
    assert!(s.apply_frame_watched(&body(1.0, 1.0), &mut w, 900).is_none());
    let r = s.apply_frame_watched(&body(1.0, 1.0), &mut w, 1200).expect("never started");
    assert!(!r.success);
}

#[test]
fn watched_ignores_other_frames_and_idle_state() {
    let mut s = with_goal();
    let mut w = ProgramWatch::new();
    s.apply_frame_watched(&body(1.0, 2.0), &mut w, 0);
    assert!(s.apply_frame_watched(&[0u8; 10], &mut w, 1).is_none());
    assert!(w.seen_running);
    assert!(s.is_active_goal("a"));
    let mut idle = State::new();
    let mut w2 = ProgramWatch::new();
    w2.observe(PROGRAM_RUNNING, 0);
    assert!(idle.apply_frame_watched(&body(1.0, 1.0), &mut w2, 5).is_none());
    assert_eq!(w2, ProgramWatch::new());
}
