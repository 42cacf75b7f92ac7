use pixel_shift::display::DisplayInfo;
use pixel_shift::scheduler::{reset_delay_after_test, shift_once, Scheduler, StartOutcome};
use pixel_shift::strategy::ShiftStrategy;

fn hdmi() -> DisplayInfo {
    DisplayInfo {
        name: "HDMI-1".to_string(),
        width: 1920,
        height: 1080,
        refresh_millihertz: 60_000,
        is_primary: true,
    }
}

fn offset(s: &mut Scheduler, timer: u64) -> (i32, i32) {
    let c = s.tick(timer).expect("tick of the live timer");
    (c.dx, c.dy)
}

#[test]
fn start_arms_timer_with_floor() {
    let d = hdmi();
    let mut s = Scheduler::new();
    let r = s.start(Some(&d), 2, 1, ShiftStrategy::TransformMatrix, true);
    assert_eq!(r, StartOutcome::Started { timer: 0, period_secs: 5 });
    assert!(s.is_running());
    let mut t = Scheduler::new();
    let r = t.start(Some(&d), 2, 30, ShiftStrategy::TransformMatrix, true);
    assert_eq!(r, StartOutcome::Started { timer: 0, period_secs: 30 });
}

#[test]
fn start_without_display_does_nothing() {
    let mut s = Scheduler::new();
    assert_eq!(s.start(None, 2, 30, ShiftStrategy::PanningSmooth, false), StartOutcome::NoDisplay);
    assert!(!s.is_running());
    assert!(s.tick(0).is_none());
}

#[test]
fn start_while_running_is_noop() {
    let d = hdmi();
    let other = DisplayInfo { name: "DP-1".to_string(), ..hdmi() };
    let mut s = Scheduler::new();
    s.start(Some(&d), 2, 30, ShiftStrategy::TransformMatrix, true);
    assert_eq!(offset(&mut s, 0), (0, 0));
    assert_eq!(offset(&mut s, 0), (2, 0));
    let r = s.start(Some(&other), 7, 60, ShiftStrategy::PositionOffset, false);
    assert_eq!(r, StartOutcome::AlreadyRunning);
    // Same timer, same display and strategy, cursor where it was.
    let c = s.tick(0).unwrap();
    assert_eq!((c.dx, c.dy), (2, 2));
    assert_eq!(c.display.name, "HDMI-1");
    assert_eq!(c.strategy, ShiftStrategy::TransformMatrix);
}

#[test]
fn toggle_alternates_shift_and_base() {
    let d = hdmi();
    let mut s = Scheduler::new();
    s.start(Some(&d), 4, 30, ShiftStrategy::PanningBasic, false);
    assert_eq!(offset(&mut s, 0), (4, 4));
    assert_eq!(offset(&mut s, 0), (0, 0));
    assert_eq!(offset(&mut s, 0), (4, 4));
    let c = s.tick(0).unwrap();
    assert_eq!(c.arguments(), vec!["--output", "HDMI-1", "--panning", "1920x1080+0+0"]);
}

#[test]
fn stale_timer_ticks_are_ignored() {
    let d = hdmi();
    let mut s = Scheduler::new();
    s.start(Some(&d), 2, 30, ShiftStrategy::TransformMatrix, false);
    assert!(s.tick(1).is_none());
    let stop = s.stop(Some(&d));
    assert_eq!(stop.cancel_timer, Some(0));
    assert!(s.tick(0).is_none());
    let r = s.start(Some(&d), 2, 30, ShiftStrategy::TransformMatrix, false);
    assert_eq!(r, StartOutcome::Started { timer: 1, period_secs: 30 });
    assert!(s.tick(0).is_none());
    assert_eq!(offset(&mut s, 1), (2, 2));
}

#[test]
fn stop_twice_still_resets() {
    let d = hdmi();
    let mut s = Scheduler::new();
    s.start(Some(&d), 2, 30, ShiftStrategy::TransformMatrix, true);
    let first = s.stop(Some(&d));
    assert_eq!(first.cancel_timer, Some(0));
    assert!(first.reset.is_some());
    assert!(!s.is_running());
    let second = s.stop(Some(&d));
    assert_eq!(second.cancel_timer, None);
    let p = second.reset.expect("second stop resets too");
    assert_eq!(
        p.next_command().unwrap(),
        vec!["--output", "HDMI-1", "--transform", "1,0,0,0,1,0,0,0,1"]
    );
    assert!(!s.is_running());
    let none = s.stop(None);
    assert!(none.reset.is_none());
}

#[test]
fn stop_then_start_restarts_pattern() {
    let d = hdmi();
    let mut s = Scheduler::new();
    s.start(Some(&d), 3, 30, ShiftStrategy::TransformMatrix, true);
    offset(&mut s, 0);
    offset(&mut s, 0);
    s.stop(Some(&d));
    s.start(Some(&d), 3, 30, ShiftStrategy::TransformMatrix, true);
    assert_eq!(offset(&mut s, 1), (0, 0));
    assert_eq!(offset(&mut s, 1), (3, 0));
}

#[test]
fn single_test_shift_and_delayed_reset() {
    let d = hdmi();
    let c = shift_once(Some(&d), 2, ShiftStrategy::PositionOffset).unwrap();
    assert_eq!((c.dx, c.dy), (2, 2));
    assert_eq!(c.arguments(), vec!["--output", "HDMI-1", "--pos", "2+2"]);
    assert!(shift_once(None, 2, ShiftStrategy::PositionOffset).is_none());
    assert_eq!(reset_delay_after_test(true), Some(3));
    assert_eq!(reset_delay_after_test(false), None);
}

#[test]
fn start_while_running_ignores_any_amount() {
    let d = hdmi();
    let mut s = Scheduler::new();
    s.start(Some(&d), 2, 30, ShiftStrategy::PanningBasic, false);
    let r = s.start(Some(&d), i32::MIN, 1, ShiftStrategy::TransformMatrix, true);
    assert_eq!(r, StartOutcome::AlreadyRunning);
    let c = s.tick(0).unwrap();
    assert_eq!((c.dx, c.dy), (2, 2));
    assert_eq!(c.strategy, ShiftStrategy::PanningBasic);
    assert!(s.tick(1).is_none());
}
