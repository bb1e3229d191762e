use jadl::timer::{Timer, TimerFlag};
use std::time::Duration;

fn noop() {}

#[test]
fn fresh_flag_fires_on_elapse() {
    let mut f = TimerFlag::fresh();
    assert_eq!(f, TimerFlag { cancelled: false, fires: 0 });
    assert!(f.try_fire());
    assert_eq!(f.fires, 1);
}

#[test]
fn cancel_before_elapse_never_fires() {
    let mut f = TimerFlag::fresh();
    f.cancel();
    assert!(f.cancelled);
    assert!(!f.try_fire());
    assert!(!f.try_fire());
    assert_eq!(f.fires, 0);
}

#[test]
fn elapse_before_cancel_fires_once() {
    let mut f = TimerFlag::fresh();
    assert!(f.try_fire());
    f.cancel();
    assert!(!f.try_fire());
    assert_eq!(f, TimerFlag { cancelled: true, fires: 1 });
}

#[test]
fn repeated_elapse_fires_once() {
    let mut f = TimerFlag::fresh();
    let mut count = 0;
    for _ in 0..5 {
        if f.try_fire() {
            count += 1;
        }
    }
    assert_eq!(count, 1);
}

#[test]
fn timer_keeps_duration_and_callback() {
    let t = Timer::new(Duration::from_millis(1000), noop as fn());
    assert_eq!(t.duration(), Duration::from_millis(1000));
    assert!(*t.callback() == noop as fn());
}

#[test]
fn timer_starts_once() {
    let mut t = Timer::new(Duration::from_millis(5), noop as fn());
    assert!(t.start().is_some());
    assert!(t.start().is_none());
}

#[test]
fn timer_cancel_reaches_task() {
    let mut t = Timer::new(Duration::from_millis(5), noop as fn());
    let task = t.start().unwrap();
    let flag = t.cancel();
    assert_eq!(flag, TimerFlag { cancelled: true, fires: 0 });
    assert!(!task.elapse());
}

#[test]
fn timer_task_fires_once_then_cancel_sees_it() {
    let mut t = Timer::new(Duration::from_millis(5), noop as fn());
    let task = t.start().unwrap();
    assert!(task.elapse());
    assert!(!task.elapse());
    let flag = t.cancel();
    assert_eq!(flag, TimerFlag { cancelled: true, fires: 1 });
}

#[test]
fn unstarted_timer_cancels() {
    let t = Timer::new(Duration::from_millis(5), noop as fn());
    assert!(t.cancel().cancelled);
}
