use pixel_shift::pattern::ShiftPattern;

#[test]
fn pattern_nine_offsets_clockwise_then_repeats() {
    let mut p = ShiftPattern::new(2);
    let expected = [(0, 0), (2, 0), (2, 2), (0, 2), (-2, 2), (-2, 0), (-2, -2), (0, -2), (2, -2)];
    for e in expected.iter() {
        assert_eq!(p.next(), *e);
    }
    assert_eq!(p.next(), (0, 0));
    assert_eq!(p.cursor(), 1);
}

#[test]
fn pattern_offsets_are_distinct() {
    let mut p = ShiftPattern::new(5);
    let mut seen = Vec::new();
    for _ in 0..9 {
        let o = p.next();
        assert!(!seen.contains(&o));
        seen.push(o);
    }
}

#[test]
fn pattern_reset_rewinds_cursor() {
    let mut p = ShiftPattern::new(3);
    p.next();
    p.next();
    p.next();
    p.reset();
    assert_eq!(p.cursor(), 0);
    assert_eq!(p.next(), (0, 0));
    assert_eq!(p.next(), (3, 0));
}
