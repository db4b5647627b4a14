use pomododragon::time::{goal_reached, minutes_seconds};
use pomododragon::{InstantTimer, Timer};
use std::time::{Duration, Instant};

fn wait(span: Duration) {
    let begin = Instant::now();
    while begin.elapsed() < span {}
}

#[test]
fn time_it_should_complete() {
    let mut timer = InstantTimer::new(Duration::from_millis(100));
    assert!(!timer.is_completed());
    assert_eq!(timer.elapsed(), None);
    assert!(!timer.has_started());

    timer.start();
    assert!(timer.has_started());
    assert_ne!(timer.elapsed(), None);

    wait(Duration::from_millis(101));
    assert!(timer.is_completed());
}

#[test]
fn it_should_pause() {
    let mut timer = InstantTimer::new(Duration::from_millis(100));
    timer.start();
    assert!(!timer.is_paused());
    assert!(timer.goal().as_millis() == 100);
    timer.pause();

    wait(Duration::from_millis(150));
    assert!(!timer.is_completed());
    assert!(timer.is_paused());
    timer.resume();

    assert!(timer.goal().as_millis() >= 250);
    wait(Duration::from_millis(150));
    assert!(timer.is_completed());
    assert!(!timer.is_paused());
}

#[test]
fn started_timer_is_not_completed_before_its_goal() {
    let mut timer = InstantTimer::new(Duration::from_secs(3600));
    timer.start();
    assert!(!timer.is_completed());
    assert!(timer.elapsed().unwrap() < Duration::from_secs(3600));
}

#[test]
fn timer_without_goal_is_completed_once_started() {
    let mut timer = InstantTimer::new(Duration::from_millis(0));
    assert!(!timer.is_completed());
    timer.start();
    assert!(timer.is_completed());
}

#[test]
fn completion_is_decided_at_the_goal() {
    let mut timer = InstantTimer::from_goal(Duration::from_millis(100));
    timer.start();
    assert!(!timer.is_completed_after(Some(Duration::from_millis(99))));
    assert!(!timer.is_completed_after(Some(Duration::from_nanos(99_999_999))));
    assert!(timer.is_completed_after(Some(Duration::from_millis(100))));
    assert!(timer.is_completed_after(Some(Duration::from_millis(101))));
    assert!(!timer.is_completed_after(None));
}

#[test]
fn paused_timer_is_never_completed() {
    let mut timer = InstantTimer::new(Duration::from_millis(0));
    timer.start();
    timer.pause();
    assert!(timer.is_paused());
    assert!(!timer.is_completed());
    assert!(!timer.is_completed_after(Some(Duration::from_secs(1_000_000))));
    timer.resume();
    assert!(timer.is_completed_after(Some(Duration::from_secs(1_000_000))));
}

#[test]
fn goal_reached_compares_goal_and_reading() {
    let goal = Duration::from_millis(5);
    assert!(goal_reached(goal, Some(Duration::from_millis(5)), false));
    assert!(goal_reached(goal, Some(Duration::from_millis(6)), false));
    assert!(!goal_reached(goal, Some(Duration::from_millis(4)), false));
    assert!(!goal_reached(goal, Some(Duration::from_millis(6)), true));
    assert!(!goal_reached(goal, None, false));
}

#[test]
fn resume_moves_the_goal_by_the_time_paused() {
    let mut timer = InstantTimer::new(Duration::from_millis(100));
    timer.start();
    timer.pause();
    timer.resume_after(Duration::from_millis(150));
    assert_eq!(timer.goal(), Duration::from_millis(250));
    assert!(!timer.is_paused());
    assert!(timer.has_started());
}

#[test]
fn resume_without_pause_changes_nothing() {
    let mut timer = InstantTimer::new(Duration::from_millis(100));
    timer.start();
    timer.resume_after(Duration::from_millis(150));
    assert_eq!(timer.goal(), Duration::from_millis(100));
    timer.resume();
    assert_eq!(timer.goal(), Duration::from_millis(100));
    assert!(!timer.is_paused());
}

#[test]
fn goal_stops_at_the_longest_span() {
    let mut timer = InstantTimer::new(Duration::MAX);
    timer.pause();
    timer.resume_after(Duration::from_secs(1));
    assert_eq!(timer.goal(), Duration::MAX);
    assert!(!timer.is_paused());
}

#[test]
fn pausing_twice_is_pausing_once() {
    let mut timer = InstantTimer::new(Duration::from_millis(10));
    timer.start();
    timer.pause();
    timer.pause();
    assert!(timer.is_paused());
    timer.resume_after(Duration::from_millis(5));
    assert!(!timer.is_paused());
    assert_eq!(timer.goal(), Duration::from_millis(15));
}

#[test]
fn start_puts_the_goal_back_and_ends_a_pause() {
    let mut timer = InstantTimer::new(Duration::from_millis(100));
    timer.start();
    timer.pause();
    timer.resume_after(Duration::from_millis(50));
    assert_eq!(timer.goal(), Duration::from_millis(150));
    timer.pause();
    timer.start();
    assert!(!timer.is_paused());
    assert_eq!(timer.goal(), Duration::from_millis(100));
    timer.pause();
    timer.reset();
    assert!(!timer.is_paused());
    assert!(timer.has_started());
}

#[test]
fn default_timers_have_the_usual_goals() {
    assert_eq!(
        InstantTimer::default_work_timer().goal(),
        Duration::from_secs(25 * 60)
    );
    assert_eq!(
        InstantTimer::default_break_timer().goal(),
        Duration::from_secs(5 * 60)
    );
    assert_eq!(
        InstantTimer::default_long_break_timer().goal(),
        Duration::from_secs(30 * 60)
    );
    assert!(!InstantTimer::default_work_timer().has_started());
}

#[test]
fn copy_of_a_timer_is_a_timer_of_its_own() {
    let mut timer = InstantTimer::new(Duration::from_millis(100));
    timer.start();
    let mut copy = timer.clone();
    assert!(copy.has_started());
    assert_eq!(copy.goal(), Duration::from_millis(100));
    copy.pause();
    assert!(copy.is_paused());
    assert!(!timer.is_paused());
}

#[test]
fn minutes_and_seconds_of_a_clock_face() {
    assert_eq!(minutes_seconds(0), (0, 0));
    assert_eq!(minutes_seconds(59), (0, 59));
    assert_eq!(minutes_seconds(60), (1, 0));
    assert_eq!(minutes_seconds(1505), (25, 5));
    assert_eq!(minutes_seconds(u64::MAX), (u64::MAX / 60, 15));
}
