use pixel_shift::display::DisplayInfo;
use pixel_shift::scheduler::{ShiftCommand, StartOutcome};
use pixel_shift::status::{start_message, stop_message, ToolOutcome};
use pixel_shift::strategy::ShiftStrategy;

fn command(strategy: ShiftStrategy, dx: i32, dy: i32) -> ShiftCommand {
    ShiftCommand {
        display: DisplayInfo {
            name: "HDMI-1".to_string(),
            width: 1920,
            height: 1080,
            refresh_millihertz: 60_000,
            is_primary: true,
        },
        strategy,
        dx,
        dy,
    }
}

#[test]
fn announcements_name_the_command() {
    assert_eq!(
        command(ShiftStrategy::PanningSmooth, 2, 2).announcement(),
        "Applying smooth panning: xrandr --output HDMI-1 --panning 1930x1090+2+2"
    );
    assert_eq!(
        command(ShiftStrategy::PositionOffset, -2, 2).announcement(),
        "Applying position shift: xrandr --output HDMI-1 --pos -2+2"
    );
}

#[test]
fn outcome_lines_for_each_result() {
    let ok = ToolOutcome::Succeeded;
    assert!(ok.succeeded());
    assert_eq!(command(ShiftStrategy::TransformMatrix, 0, 3).outcome_message(&ok), "\u{2713} Transform applied: 3px offset");
    assert_eq!(command(ShiftStrategy::PanningBasic, 2, -1).outcome_message(&ok), "\u{2713} Panning applied: +2+-1");
    assert_eq!(command(ShiftStrategy::PositionOffset, 2, -1).outcome_message(&ok), "\u{2713} Position shift applied: 2-1");
    let failed = ToolOutcome::Failed { stderr: "bad output".to_string() };
    assert!(!failed.succeeded());
    assert_eq!(
        command(ShiftStrategy::PanningSmooth, 2, 2).outcome_message(&failed),
        "\u{2717} Smooth panning failed: bad output"
    );
    let missing = ToolOutcome::NotLaunched { error: "not found".to_string() };
    assert_eq!(command(ShiftStrategy::PanningSmooth, 2, 2).outcome_message(&missing), "\u{2717} Command failed: not found");
}

#[test]
fn start_and_stop_lines() {
    assert_eq!(
        start_message(StartOutcome::Started { timer: 0, period_secs: 30 }, "HDMI-1"),
        "Starting auto-shift for HDMI-1 every 30s"
    );
    assert_eq!(start_message(StartOutcome::AlreadyRunning, "HDMI-1"), "Auto-shift is already running");
    assert_eq!(start_message(StartOutcome::NoDisplay, ""), "No display selected");
    assert_eq!(stop_message(), "Auto-shift stopped and display reset.");
}
