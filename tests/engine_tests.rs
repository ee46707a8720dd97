use mouse_clicker::buttons::{button_index, is_pressed_in, ButtonKind, EngineError, ScreenPoint};
use mouse_clicker::capture::CaptureSession;
use mouse_clicker::scheduler::{ClickJob, EngineCounters, JobAction};

fn pt(x: i32, y: i32) -> ScreenPoint {
    ScreenPoint { x, y }
}

#[test]
fn index_table_is_fixed() {
    assert_eq!(button_index(ButtonKind::Primary), 1);
    assert_eq!(button_index(ButtonKind::Secondary), 3);
    assert_eq!(button_index(ButtonKind::Tertiary), 2);
}

#[test]
fn snapshot_reads_through_table() {
    let s = vec![false, true, false, true];
    assert!(is_pressed_in(&s, ButtonKind::Primary));
    assert!(is_pressed_in(&s, ButtonKind::Secondary));
    assert!(!is_pressed_in(&s, ButtonKind::Tertiary));
    let short = vec![true, true, true];
    assert!(!is_pressed_in(&short, ButtonKind::Secondary));
    assert!(is_pressed_in(&short, ButtonKind::Tertiary));
    assert!(!is_pressed_in(&Vec::new(), ButtonKind::Primary));
}

#[test]
fn capture_press_release_commits_release_position() {
    let mut s = CaptureSession::new();
    assert!(s.start(ButtonKind::Tertiary));
    assert_eq!(s.tick(true, pt(1, 2)), None);
    assert_eq!(s.tick(false, pt(7, 8)), Some(pt(7, 8)));
    assert!(!s.is_active());
}

#[test]
fn capture_without_falling_edge_keeps_watching() {
    let mut s = CaptureSession::new();
    s.start(ButtonKind::Secondary);
    for _ in 0..5 {
        assert_eq!(s.tick(false, pt(0, 0)), None);
    }
    assert!(s.is_active());
    let mut t = CaptureSession::new();
    t.start(ButtonKind::Secondary);
    for r in [false, true, true, true] {
        assert_eq!(t.tick(r, pt(3, 3)), None);
    }
    assert!(t.is_active());
    t.cancel();
    assert!(!t.is_active());
}

#[test]
fn capture_held_button_at_start_does_not_end_session() {
    let mut s = CaptureSession::new();
    s.start(ButtonKind::Tertiary);
    assert_eq!(s.tick(false, pt(0, 0)), None);
    assert!(s.is_active());
}

#[test]
fn capture_start_while_active_is_noop() {
    let mut s = CaptureSession::new();
    s.start(ButtonKind::Secondary);
    s.tick(true, pt(0, 0));
    let before = s;
    assert!(!s.start(ButtonKind::Tertiary));
    assert_eq!(s, before);
}

#[test]
fn capture_abort_reports_failure() {
    let mut s = CaptureSession::new();
    s.start(ButtonKind::Secondary);
    assert_eq!(s.abort(), Err(EngineError::CaptureAborted));
    assert!(!s.is_active());
    assert_eq!(s.abort(), Ok(()));
}

#[test]
fn capture_scenario_secondary_commits_fifty_sixty() {
    let mut s = CaptureSession::new();
    s.start(ButtonKind::Secondary);
    assert_eq!(s.tick(false, pt(10, 10)), None);
    assert_eq!(s.tick(true, pt(20, 20)), None);
    assert_eq!(s.tick(true, pt(30, 30)), None);
    assert_eq!(s.tick(false, pt(50, 60)), Some(pt(50, 60)));
    assert!(!s.is_active());
}

#[test]
fn job_all_succeed_counts_n() {
    let mut c = EngineCounters::new();
    let mut job = c.start_job(pt(5, 5), ButtonKind::Primary, 0, 4).unwrap();
    c.run_with_outcomes(&mut job, &vec![true; 4]);
    assert_eq!(c.completed_click_count(), 4);
    assert!(!c.is_running());
}

#[test]
fn job_all_fail_consumes_budget() {
    let mut c = EngineCounters::new();
    let mut job = c.start_job(pt(5, 5), ButtonKind::Primary, 0, 4).unwrap();
    c.run_with_outcomes(&mut job, &vec![false; 4]);
    assert_eq!(job.remaining, 0);
    assert_eq!(c.completed_click_count(), 0);
    assert!(!c.is_running());
}

#[test]
fn job_mixed_outcomes_count_successes() {
    let mut c = EngineCounters::new();
    let mut job = c.start_job(pt(5, 5), ButtonKind::Primary, 0, 3).unwrap();
    c.run_with_outcomes(&mut job, &vec![true, false, true, true]);
    assert_eq!(c.completed_click_count(), 2);
}

#[test]
fn job_stop_halts_at_next_boundary() {
    let mut c = EngineCounters::new();
    let mut job = c.start_job(pt(0, 0), ButtonKind::Secondary, 200, 5).unwrap();
    assert_eq!(c.next_action(&job), JobAction::Iterate);
    c.record_attempt(&mut job, true);
    c.stop();
    assert!(!c.wait_before_next(&job));
    assert_eq!(c.next_action(&job), JobAction::Finished);
    assert_eq!(c.completed_click_count(), 1);
}

#[test]
fn second_job_is_dropped() {
    let mut c = EngineCounters::new();
    let job = c.start_job(pt(1, 1), ButtonKind::Primary, 100, 2).unwrap();
    let before = c;
    assert_eq!(c.start_job(pt(9, 9), ButtonKind::Tertiary, 5, 7), None);
    assert_eq!(c.start_single(pt(9, 9), ButtonKind::Tertiary), None);
    assert_eq!(c, before);
    assert_eq!(job.target, pt(1, 1));
}

#[test]
fn single_shot_has_budget_one() {
    let mut c = EngineCounters::new();
    let mut job = c.start_single(pt(3, 4), ButtonKind::Tertiary).unwrap();
    assert_eq!(job.remaining, 1);
    assert_eq!(c.next_action(&job), JobAction::Iterate);
    c.record_attempt(&mut job, true);
    assert!(!c.wait_before_next(&job));
    assert_eq!(c.next_action(&job), JobAction::Finished);
    assert_eq!(c.completed_click_count(), 1);
    assert!(!c.is_running());
}

#[test]
fn scenario_three_primary_clicks() {
    let mut c = EngineCounters::new();
    let mut job = c.start_job(pt(100, 100), ButtonKind::Primary, 200, 3).unwrap();
    let mut moves = Vec::new();
    let mut clicks = Vec::new();
    let mut waited_ms: u64 = 0;
    while c.next_action(&job) == JobAction::Iterate {
        moves.push(job.target);
        clicks.push(job.button);
        c.record_attempt(&mut job, true);
        if c.wait_before_next(&job) {
            waited_ms += job.cadence_millis;
        }
    }
    assert_eq!(moves, vec![pt(100, 100); 3]);
    assert_eq!(clicks, vec![ButtonKind::Primary; 3]);
    assert_eq!(c.completed_click_count(), 3);
    assert!(waited_ms >= 400);
    assert!(!c.is_running());
}

#[test]
fn counter_saturates_and_resets() {
    let mut c = EngineCounters { running: true, completed: u64::MAX };
    let mut job = ClickJob { target: pt(0, 0), button: ButtonKind::Primary, cadence_millis: 0, remaining: 1 };
    c.record_attempt(&mut job, true);
    assert_eq!(c.completed_click_count(), u64::MAX);
    c.reset_counter();
    assert_eq!(c.completed_click_count(), 0);
    assert!(c.is_running());
}

#[test]
fn tick_all_commits_once_at_first_edge() {
    let mut s = CaptureSession::new();
    s.start(ButtonKind::Secondary);
    let polls = vec![
        (false, pt(1, 1)),
        (true, pt(2, 2)),
        (false, pt(3, 3)),
        (true, pt(4, 4)),
        (false, pt(5, 5)),
    ];
    assert_eq!(s.tick_all(&polls), vec![pt(3, 3)]);
    assert!(!s.is_active());
}

#[test]
fn tick_all_without_edge_commits_nothing() {
    let mut s = CaptureSession::new();
    s.start(ButtonKind::Tertiary);
    let polls = vec![(false, pt(1, 1)), (true, pt(2, 2)), (true, pt(3, 3)), (true, pt(4, 4))];
    assert_eq!(s.tick_all(&polls), Vec::new());
    assert!(s.is_active());
}

#[test]
fn run_until_stop_halts_after_stop() {
    let mut c = EngineCounters::new();
    let mut job = c.start_job(pt(0, 0), ButtonKind::Primary, 100, 5).unwrap();
    c.run_until_stop(&mut job, &vec![true, false, true, true, true], 3);
    assert_eq!(job.remaining, 2);
    assert_eq!(c.completed_click_count(), 2);
    assert!(!c.is_running());
}

#[test]
fn run_until_stop_at_zero_runs_nothing() {
    let mut c = EngineCounters::new();
    let mut job = c.start_job(pt(0, 0), ButtonKind::Primary, 100, 2).unwrap();
    c.run_until_stop(&mut job, &vec![true, true], 0);
    assert_eq!(job.remaining, 2);
    assert_eq!(c.completed_click_count(), 0);
    assert!(!c.is_running());
}

#[test]
fn run_saturates_full_counter() {
    let mut c = EngineCounters { running: true, completed: u64::MAX - 1 };
    let mut job = ClickJob { target: pt(0, 0), button: ButtonKind::Primary, cadence_millis: 0, remaining: 3 };
    c.run_with_outcomes(&mut job, &vec![true; 3]);
    assert_eq!(c.completed_click_count(), u64::MAX);
}
