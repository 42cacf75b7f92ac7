use pixel_shift::display::DisplayInfo;
use pixel_shift::strategy::{panning_region, position_offset, transform_matrix, ShiftStrategy};

fn hdmi() -> DisplayInfo {
    DisplayInfo {
        name: "HDMI-1".to_string(),
        width: 1920,
        height: 1080,
        refresh_millihertz: 60_000,
        is_primary: true,
    }
}

#[test]
fn transform_identity_without_offset() {
    assert_eq!(transform_matrix(&hdmi(), 0, 0), "1,0,0,0,1,0,0,0,1");
    let small = DisplayInfo { width: 7, height: 3, ..hdmi() };
    assert_eq!(transform_matrix(&small, 0, 0), "1,0,0,0,1,0,0,0,1");
}

#[test]
fn transform_ratios_six_decimals() {
    assert_eq!(transform_matrix(&hdmi(), 2, 2), "1,0,0.001042,0,1,0.001852,0,0,1");
    assert_eq!(transform_matrix(&hdmi(), -2, 0), "1,0,-0.001042,0,1,0.000000,0,0,1");
    let tiny = DisplayInfo { width: 4, height: 8, ..hdmi() };
    assert_eq!(transform_matrix(&tiny, 3, -8), "1,0,0.750000,0,1,-1.000000,0,0,1");
    assert_eq!(transform_matrix(&tiny, 10, 1), "1,0,2.500000,0,1,0.125000,0,0,1");
}

#[test]
fn transform_ratio_ties_round_to_even() {
    // 1/128 = 0.0078125 exactly: the tie goes to the even digit.
    let d = DisplayInfo { width: 128, height: 128, ..hdmi() };
    assert_eq!(transform_matrix(&d, 1, 3), "1,0,0.007812,0,1,0.023438,0,0,1");
}

#[test]
fn position_offset_sign_combinations() {
    assert_eq!(position_offset(3, 3), "3+3");
    assert_eq!(position_offset(-3, 3), "-3+3");
    assert_eq!(position_offset(3, -3), "3-3");
    assert_eq!(position_offset(-3, -3), "-3-3");
    assert_eq!(position_offset(0, 0), "0+0");
}

#[test]
fn panning_regions_with_and_without_margin() {
    assert_eq!(panning_region(&hdmi(), 3, 3, 10), "1930x1090+3+3");
    assert_eq!(panning_region(&hdmi(), 3, 3, 0), "1920x1080+3+3");
    assert_eq!(panning_region(&hdmi(), -2, 0, 0), "1920x1080+-2+0");
}

#[test]
fn strategy_arguments_for_each_method() {
    let d = hdmi();
    assert_eq!(
        ShiftStrategy::TransformMatrix.arguments(&d, 0, 0),
        vec!["--output", "HDMI-1", "--transform", "1,0,0,0,1,0,0,0,1"]
    );
    assert_eq!(
        ShiftStrategy::PanningSmooth.arguments(&d, 2, 2),
        vec!["--output", "HDMI-1", "--panning", "1930x1090+2+2"]
    );
    assert_eq!(
        ShiftStrategy::PositionOffset.arguments(&d, 2, -2),
        vec!["--output", "HDMI-1", "--pos", "2-2"]
    );
    assert_eq!(
        ShiftStrategy::PanningBasic.arguments(&d, 2, 2),
        vec!["--output", "HDMI-1", "--panning", "1920x1080+2+2"]
    );
}

#[test]
fn strategy_from_selection_index() {
    assert_eq!(ShiftStrategy::from_index(0), ShiftStrategy::TransformMatrix);
    assert_eq!(ShiftStrategy::from_index(1), ShiftStrategy::PanningSmooth);
    assert_eq!(ShiftStrategy::from_index(2), ShiftStrategy::PositionOffset);
    assert_eq!(ShiftStrategy::from_index(3), ShiftStrategy::PanningBasic);
    assert_eq!(ShiftStrategy::from_index(9), ShiftStrategy::TransformMatrix);
}
