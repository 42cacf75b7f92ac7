use pixel_shift::display::DisplayInfo;
use pixel_shift::reset::{ResetOutcome, ResetProtocol};

fn hdmi() -> DisplayInfo {
    DisplayInfo {
        name: "HDMI-1".to_string(),
        width: 1920,
        height: 1080,
        refresh_millihertz: 60_000,
        is_primary: false,
    }
}

/// Runs the chain against scripted results; returns the commands handed out.
fn run(p: &mut ResetProtocol, results: &[bool]) -> Vec<Vec<String>> {
    let mut issued = Vec::new();
    let mut k = 0;
    while let Some(args) = p.next_command() {
        issued.push(args);
        p.record(results[k]);
        k += 1;
    }
    issued
}

#[test]
fn reset_first_success_stops_chain() {
    let mut p = ResetProtocol::new(hdmi());
    let issued = run(&mut p, &[true, true, true, true]);
    assert_eq!(issued.len(), 1);
    assert_eq!(issued[0], vec!["--output", "HDMI-1", "--transform", "1,0,0,0,1,0,0,0,1"]);
    assert_eq!(p.outcome(), ResetOutcome::Succeeded);
    assert_eq!(p.message(), "\u{2713} Transform reset successful for HDMI-1");
}

#[test]
fn reset_third_method_succeeds() {
    let mut p = ResetProtocol::new(hdmi());
    let issued = run(&mut p, &[false, false, true, true]);
    assert_eq!(issued.len(), 3);
    assert_eq!(issued[1], vec!["--output", "HDMI-1", "--panning", "0x0"]);
    assert_eq!(issued[2], vec!["--output", "HDMI-1", "--pos", "0x0"]);
    assert_eq!(p.attempt(), 2);
    assert_eq!(p.message(), "\u{2713} Position reset successful for HDMI-1");
}

#[test]
fn reset_all_methods_fail() {
    let mut p = ResetProtocol::new(hdmi());
    let issued = run(&mut p, &[false, false, false, false]);
    assert_eq!(issued.len(), 4);
    assert_eq!(issued[3], vec!["--output", "HDMI-1", "--auto"]);
    assert_eq!(p.outcome(), ResetOutcome::Exhausted);
    assert_eq!(p.message(), "\u{2717} All reset methods failed for HDMI-1");
    p.record(true);
    assert_eq!(p.outcome(), ResetOutcome::Exhausted);
}
