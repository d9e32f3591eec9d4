use battop::{ScalarSeries, RESOLUTION};

/// Pushing 1.00, 2.00, 3.00 leaves three points in order with the newest at
/// half the chart width, min 1.00, max 3.00 and latest 3.00.
#[test]
fn three_pushes_scenario() {
    let mut s = ScalarSeries::new();
    s.push(100);
    s.push(200);
    s.push(300);
    let points = s.points();
    assert_eq!(points.len(), 3);
    assert_eq!(points[0], (510, 100));
    assert_eq!(points[1], (511, 200));
    assert_eq!(points[2], (512, 300));
    assert_eq!(s.latest_value(), 300);
    // min 1.00 -> floor(0.00) = 0; max 3.00 -> ceil(4.00) = 4
    assert_eq!(s.lower_bound(), 0);
    assert_eq!(s.upper_bound(), 4);
}

/// Pushing 600 increasing readings into a 512-slot series keeps exactly the
/// last 512, oldest first: values 89..=600.
#[test]
fn eviction_keeps_last_512() {
    let mut s = ScalarSeries::new();
    for v in 1..=600i64 {
        s.push(v * 100);
        assert!(s.points().len() <= RESOLUTION);
    }
    let points = s.points();
    assert_eq!(points.len(), 512);
    for (i, p) in points.iter().enumerate() {
        assert_eq!(p.1, (89 + i as i64) * 100);
    }
    assert_eq!(points[0].1, 8900);
    assert_eq!(points[511].1, 60000);
}

/// The newest point always sits at `RESOLUTION` half-steps and older points
/// are one half-step apart.
#[test]
fn x_positions_rebased_every_push() {
    let mut s = ScalarSeries::new();
    for v in 0..40i64 {
        s.push(v);
        let points = s.points();
        let n = points.len();
        assert_eq!(points[n - 1].0, RESOLUTION as u64);
        for (i, p) in points.iter().enumerate() {
            assert_eq!(p.0, (RESOLUTION + 1 + i - n) as u64);
        }
    }
}

/// With exactly one reading the padded bounds still differ by two whole
/// units around it.
#[test]
fn single_reading_bounds() {
    let mut s = ScalarSeries::new();
    s.push(500);
    // min = max = 5.00: floor(4.00) = 4, ceil(6.00) = 6
    assert_eq!(s.lower_bound(), 4);
    assert_eq!(s.upper_bound(), 6);
}

/// The lower bound is raised to -1 when the padding would push it below
/// zero.
#[test]
fn lower_bound_clamped_at_minus_one() {
    let mut s = ScalarSeries::new();
    s.push(50);
    // min 0.50: floor(-0.50) = -1, kept; max 0.50: ceil(1.50) = 2
    assert_eq!(s.lower_bound(), -1);
    assert_eq!(s.upper_bound(), 2);
    let mut t = ScalarSeries::new();
    t.push(0);
    // floor(-1.00) = -1
    assert_eq!(t.lower_bound(), -1);
    assert_eq!(t.upper_bound(), 1);
}

/// Every reading stays between the rescanned min and max.
#[test]
fn min_max_bound_all_readings() {
    let mut s = ScalarSeries::new();
    for &v in &[700i64, 200, 900, 400, 100, 800] {
        s.push(v);
    }
    // min 1.00 -> floor(0.00) = 0; max 9.00 -> ceil(10.00) = 10
    assert_eq!(s.lower_bound(), 0);
    assert_eq!(s.upper_bound(), 10);
    for p in s.points().iter() {
        assert!(100 <= p.1 && p.1 <= 900);
    }
}

/// Eviction can raise the minimum again: the bounds follow the retained
/// window, not all readings ever pushed.
#[test]
fn bounds_follow_current_window() {
    let mut s = ScalarSeries::new();
    s.push(100);
    for _ in 0..512 {
        s.push(1000);
    }
    // the 1.00 reading has been evicted; min = max = 10.00
    assert_eq!(s.lower_bound(), 9);
    assert_eq!(s.upper_bound(), 11);
}
