use gores_trainer::wedge::{normalize_angle_mdeg, wedge_contains, MDEG_180, MDEG_360};

/// Containment is reflexive at the bounds: for the plain wedge
/// [10°, 30°] the bounds are hits, and angles just outside are misses.
#[test]
fn boundary_angles_are_hits() {
    assert!(wedge_contains(10_000, 10_000, 30_000));
    assert!(wedge_contains(30_000, 10_000, 30_000));
    assert!(!wedge_contains(9_999, 10_000, 30_000)); // 9.999 degrees
    assert!(!wedge_contains(30_001, 10_000, 30_000)); // 30.001 degrees
}

/// The wrapping wedge [350°, 10°] (min > max): 355° and 5° are hits, 180°
/// is a miss, 0° is a hit.
#[test]
fn wrapping_wedge() {
    assert!(wedge_contains(355_000, 350_000, 10_000));
    assert!(wedge_contains(5_000, 350_000, 10_000));
    assert!(!wedge_contains(180_000, 350_000, 10_000));
    assert!(wedge_contains(0, 350_000, 10_000));
}

/// The wrapping wedge's own bounds are hits too.
#[test]
fn wrapping_wedge_bounds_are_hits() {
    assert!(wedge_contains(350_000, 350_000, 10_000));
    assert!(wedge_contains(10_000, 350_000, 10_000));
}

/// A ten-degree wedge centered two degrees past the seam is written
/// wrapping, [357°, 7°]: clicks on either side of the seam hit, just
/// outside either bound misses.
#[test]
fn seam_wedge_wraps() {
    assert!(wedge_contains(358_000, 357_000, 7_000));
    assert!(wedge_contains(0, 357_000, 7_000));
    assert!(wedge_contains(2_000, 357_000, 7_000));
    assert!(!wedge_contains(8_000, 357_000, 7_000));
    assert!(!wedge_contains(356_000, 357_000, 7_000));
}

#[test]
fn normalization_into_full_turn() {
    assert_eq!(normalize_angle_mdeg(0), 0);
    assert_eq!(normalize_angle_mdeg(-90_000), 270_000);
    assert_eq!(normalize_angle_mdeg(450_000), 90_000);
    assert_eq!(normalize_angle_mdeg(359_999), 359_999);
    assert_eq!(normalize_angle_mdeg(-MDEG_360), 0);
    assert_eq!(normalize_angle_mdeg(MDEG_180), MDEG_180);
}
