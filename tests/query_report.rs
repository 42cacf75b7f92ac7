use pixel_shift::query::{parse_current_mode, parse_displays};

const TYPICAL: &str = "Screen 0: minimum 320 x 200, current 1920 x 1080, maximum 16384 x 16384\n\
HDMI-1 connected primary 1920x1080+0+0 (normal left inverted right x axis y axis) 527mm x 296mm\n\
   2560x1440     59.95 +\n\
   1920x1080     60.00*+  59.94    50.00\n\
   1280x720      60.00    50.00\n\
DP-1 disconnected (normal left inverted right x axis y axis)\n";

#[test]
fn header_geometry_wins_over_mode_lines() {
    let ds = parse_displays(TYPICAL);
    assert_eq!(ds.len(), 1);
    assert_eq!(ds[0].name, "HDMI-1");
    assert_eq!(ds[0].width, 1920);
    assert_eq!(ds[0].height, 1080);
    assert_eq!(ds[0].refresh_millihertz, 60_000);
    assert!(ds[0].is_primary);
}

#[test]
fn header_geometry_not_taken_from_active_mode_line() {
    let report = "HDMI-1 connected 1920x1080+0+0 (normal)\n   2560x1440     59.95*+\n";
    let ds = parse_displays(report);
    assert_eq!(ds.len(), 1);
    assert_eq!((ds[0].width, ds[0].height), (1920, 1080));
    assert_eq!(ds[0].refresh_millihertz, 60_000);
    assert!(!ds[0].is_primary);
}

#[test]
fn fallback_to_active_mode_line() {
    let report = "eDP-1 connected (normal left inverted right x axis y axis)\n\
   2560x1600     60.00 +\n\
   1920x1080     59.94*\n\
HDMI-2 disconnected\n";
    let ds = parse_displays(report);
    assert_eq!(ds.len(), 1);
    assert_eq!(ds[0].name, "eDP-1");
    assert_eq!((ds[0].width, ds[0].height), (1920, 1080));
    assert_eq!(ds[0].refresh_millihertz, 59_940);
}

#[test]
fn fallback_rate_with_preferred_marker_defaults() {
    let report = "eDP-1 connected\n   1920x1080     165.00*+  60.00\n";
    let ds = parse_displays(report);
    assert_eq!(ds.len(), 1);
    assert_eq!((ds[0].width, ds[0].height), (1920, 1080));
    assert_eq!(ds[0].refresh_millihertz, 60_000);
}

#[test]
fn fallback_mode_name_suffix_is_trimmed() {
    let report = "DVI-0 connected\n   1920x1080i    60.00*   50.00\n";
    let ds = parse_displays(report);
    assert_eq!(ds.len(), 1);
    assert_eq!((ds[0].width, ds[0].height), (1920, 1080));
    assert_eq!(ds[0].refresh_millihertz, 60_000);
}

#[test]
fn fallback_stops_at_next_output() {
    let report = "DP-1 connected\n   1280x720      60.00\nDP-2 connected\n   1024x768      75.03*\n";
    let ds = parse_displays(report);
    assert_eq!(ds.len(), 1);
    assert_eq!(ds[0].name, "DP-2");
    assert_eq!((ds[0].width, ds[0].height), (1024, 768));
    assert_eq!(ds[0].refresh_millihertz, 75_030);
}

#[test]
fn connected_without_mode_is_dropped() {
    assert!(parse_displays("VGA-1 connected (normal)\n").is_empty());
    assert!(parse_displays("").is_empty());
    assert!(parse_displays("HDMI-1 disconnected 1920x1080+0+0\n").is_empty());
}

#[test]
fn malformed_geometry_is_skipped() {
    let report = "HDMI-1 connected 19a0x1080+0+0 99999999999x5+0+0\n   800x600   60.32*\n";
    let ds = parse_displays(report);
    assert_eq!(ds.len(), 1);
    assert_eq!((ds[0].width, ds[0].height), (800, 600));
    assert_eq!(ds[0].refresh_millihertz, 60_320);
}

#[test]
fn several_displays_in_order_with_crlf() {
    let report = "HDMI-1 connected primary 1920x1080+0+0\r\nDP-1 connected 2560x1440+1920+0\r\n";
    let ds = parse_displays(report);
    assert_eq!(ds.len(), 2);
    assert_eq!(ds[0].name, "HDMI-1");
    assert!(ds[0].is_primary);
    assert_eq!(ds[1].name, "DP-1");
    assert_eq!((ds[1].width, ds[1].height), (2560, 1440));
    assert!(!ds[1].is_primary);
}

#[test]
fn header_geometry_with_zero_side_ends_search_and_drops_display() {
    // The header's size wins over the mode lines even when a side is zero;
    // such a display has no usable size and is left out.
    let report = "HDMI-1 connected 0x1080+0+0\n   1920x1080     60.00*+\n";
    assert!(parse_displays(report).is_empty());
    let lines: Vec<Vec<char>> = report.lines().map(|l| l.chars().collect()).collect();
    assert_eq!(parse_current_mode(&lines, 0), Some((0, 1080, 60_000)));
}

#[test]
fn fallback_mode_line_with_zero_side_is_taken() {
    let lines: Vec<Vec<char>> =
        ["DP-1 connected", "   0x768   60.00*", "   1024x768   75.00*"].iter().map(|l| l.chars().collect()).collect();
    assert_eq!(parse_current_mode(&lines, 0), Some((0, 768, 60_000)));
    assert!(parse_displays("DP-1 connected\n   0x768   60.00*\n   1024x768   75.00*\n").is_empty());
}

#[test]
fn primary_is_a_whole_token() {
    let ds = parse_displays("HDMI-1 connected nonprimary 1920x1080+0+0\nDP-1 connected primary 800x600+0+0\n");
    assert_eq!(ds.len(), 2);
    assert!(!ds[0].is_primary);
    assert!(ds[1].is_primary);
}
