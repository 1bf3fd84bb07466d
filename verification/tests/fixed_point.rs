use cubix::fixed::{block_coord, blocks_to_cover, isqrt, normalize, scale, Vec3, UNIT};

#[test]
fn one_unit_is_a_thousand_steps() {
    assert_eq!(UNIT, 1000);
}

#[test]
fn block_coord_rounds_down() {
    assert_eq!(block_coord(0), 0);
    assert_eq!(block_coord(999), 0);
    assert_eq!(block_coord(1000), 1);
    assert_eq!(block_coord(8500), 8);
    assert_eq!(block_coord(-1), -1);
    assert_eq!(block_coord(-1000), -1);
    assert_eq!(block_coord(-1001), -2);
    assert_eq!(block_coord(i64::MAX), 9223372036854775);
    assert_eq!(block_coord(i64::MIN), -9223372036854776);
}

#[test]
fn blocks_to_cover_rounds_up() {
    assert_eq!(blocks_to_cover(0), 0);
    assert_eq!(blocks_to_cover(1), 1);
    assert_eq!(blocks_to_cover(300), 1);
    assert_eq!(blocks_to_cover(1000), 1);
    assert_eq!(blocks_to_cover(1001), 2);
    assert_eq!(blocks_to_cover(1800), 2);
    assert_eq!(blocks_to_cover(u32::MAX), 4294968);
}

#[test]
fn scale_multiplies_thousandths() {
    assert_eq!(scale(1500, 2000), Some(3000));
    assert_eq!(scale(5000, 16), Some(80));
    assert_eq!(scale(20000, 16), Some(320));
    assert_eq!(scale(0, 123456), Some(0));
}

#[test]
fn scale_rounds_towards_zero() {
    assert_eq!(scale(1, 999), Some(0));
    assert_eq!(scale(-1, 999), Some(0));
    assert_eq!(scale(-1500, 1001), Some(-1501));
    assert_eq!(scale(1999, 1), Some(1));
    assert_eq!(scale(-1999, 1), Some(-1));
}

#[test]
fn scale_refuses_what_cannot_be_stored() {
    assert_eq!(scale(i64::MAX, i64::MAX), None);
    assert_eq!(scale(i64::MIN, 1001), None);
    assert_eq!(scale(i64::MAX, 1000), Some(i64::MAX));
    assert_eq!(scale(i64::MIN, 1000), Some(i64::MIN));
}

#[test]
fn isqrt_rounds_down() {
    assert_eq!(isqrt(0), 0);
    assert_eq!(isqrt(1), 1);
    assert_eq!(isqrt(3), 1);
    assert_eq!(isqrt(4), 2);
    assert_eq!(isqrt(15), 3);
    assert_eq!(isqrt(16), 4);
    assert_eq!(isqrt(1_000_000), 1000);
    assert_eq!(isqrt(999_999), 999);
    assert_eq!(isqrt(u128::MAX), u64::MAX);
}

#[test]
fn normalize_gives_unit_length() {
    assert_eq!(normalize(Vec3::new(3000, 0, 4000)), Vec3::new(600, 0, 800));
    assert_eq!(normalize(Vec3::new(0, 0, -250)), Vec3::new(0, 0, -1000));
    assert_eq!(normalize(Vec3::new(1000, 0, -1000)), Vec3::new(707, 0, -707));
    assert_eq!(normalize(Vec3::new(-7, 0, 0)), Vec3::new(-1000, 0, 0));
}

#[test]
fn normalize_keeps_the_zero_vector() {
    assert_eq!(normalize(Vec3::zero()), Vec3::zero());
}

#[test]
fn normalize_takes_the_largest_coordinates() {
    let v = normalize(Vec3::new(i64::MAX, i64::MIN, i64::MAX));
    assert!(v.x >= 577 && v.x <= 578);
    assert!(v.y <= -577 && v.y >= -578);
    assert_eq!(v.x, v.z);
}

#[test]
fn checked_add_sums_componentwise() {
    assert_eq!(
        Vec3::new(1, 2, 3).checked_add(Vec3::new(10, -20, 30)),
        Some(Vec3::new(11, -18, 33))
    );
}

#[test]
fn checked_add_refuses_overflow() {
    assert_eq!(Vec3::new(i64::MAX, 0, 0).checked_add(Vec3::new(1, 0, 0)), None);
    assert_eq!(Vec3::new(0, i64::MIN, 0).checked_add(Vec3::new(0, -1, 0)), None);
    assert_eq!(Vec3::new(0, 0, i64::MAX).checked_add(Vec3::new(0, 0, 1)), None);
}
