use rsglobe::geo::{
    normalize_angle_microdeg, GeodeticPoint, FULL_CIRCLE_MICRODEG, HALF_CIRCLE_MICRODEG,
};

#[test]
fn in_range_angles_are_unchanged() {
    assert_eq!(normalize_angle_microdeg(60_192_060), 60_192_060);
    assert_eq!(normalize_angle_microdeg(24_945_831), 24_945_831);
    assert_eq!(normalize_angle_microdeg(0), 0);
    assert_eq!(normalize_angle_microdeg(-90_000_000), -90_000_000);
}

#[test]
fn angles_are_periodic_with_a_full_circle() {
    assert_eq!(
        normalize_angle_microdeg(24_945_831 + FULL_CIRCLE_MICRODEG),
        normalize_angle_microdeg(24_945_831)
    );
    assert_eq!(
        normalize_angle_microdeg(60_192_060 - FULL_CIRCLE_MICRODEG),
        normalize_angle_microdeg(60_192_060)
    );
    assert_eq!(
        normalize_angle_microdeg(-7 + 3 * FULL_CIRCLE_MICRODEG),
        normalize_angle_microdeg(-7)
    );
}

#[test]
fn half_circle_boundary_is_canonical_on_the_positive_side() {
    assert_eq!(normalize_angle_microdeg(HALF_CIRCLE_MICRODEG), HALF_CIRCLE_MICRODEG);
    assert_eq!(
        normalize_angle_microdeg(HALF_CIRCLE_MICRODEG + 1),
        -HALF_CIRCLE_MICRODEG + 1
    );
    assert_eq!(normalize_angle_microdeg(-HALF_CIRCLE_MICRODEG), HALF_CIRCLE_MICRODEG);
    assert_eq!(normalize_angle_microdeg(190_000_000), -170_000_000);
    assert_eq!(normalize_angle_microdeg(-190_000_000), 170_000_000);
}

#[test]
fn normalization_is_idempotent() {
    for x in [0i64, 1, -1, 359_999_999, -359_999_999, 123_456_789_012, i64::MAX, i64::MIN] {
        let once = normalize_angle_microdeg(x);
        assert_eq!(normalize_angle_microdeg(once), once);
    }
}

#[test]
fn normalization_keeps_congruence_and_range() {
    for x in [i64::MIN, i64::MAX, -1, 0, 1, 987_654_321_987, -987_654_321_987] {
        let r = normalize_angle_microdeg(x);
        assert!(-HALF_CIRCLE_MICRODEG < r && r <= HALF_CIRCLE_MICRODEG);
        let diff = (x as i128) - (r as i128);
        assert_eq!(diff.rem_euclid(FULL_CIRCLE_MICRODEG as i128), 0);
    }
}

#[test]
fn points_normalize_componentwise() {
    let p = GeodeticPoint {
        lat_microdeg: 60_192_060 + FULL_CIRCLE_MICRODEG,
        lon_microdeg: 24_945_831 - FULL_CIRCLE_MICRODEG,
    };
    let n = p.normalized();
    assert_eq!(n.lat_microdeg, 60_192_060);
    assert_eq!(n.lon_microdeg, 24_945_831);
}
