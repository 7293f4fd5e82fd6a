use robofill::positioning::lerp;
use robofill::positioning::ANIM_SCALE;

#[test]
fn lerp_ascending() {
    assert_eq!(lerp(15_000, 45_000, 250_000), 22_500);
    assert_eq!(lerp(15_000, 45_000, 500_000), 30_000);
}

#[test]
fn lerp_descending() {
    assert_eq!(lerp(45_000, 15_000, 250_000), 37_500);
    assert_eq!(lerp(45_000, 15_000, 750_000), 22_500);
}

#[test]
fn lerp_endpoints() {
    assert_eq!(lerp(123, 456_789, 0), 123);
    assert_eq!(lerp(123, 456_789, ANIM_SCALE), 456_789);
    assert_eq!(lerp(456_789, 123, ANIM_SCALE), 123);
}

#[test]
fn lerp_rounds_down() {
    assert_eq!(lerp(0, 10, 150_000), 1);
    assert_eq!(lerp(10, 0, 150_000), 9);
}

#[test]
fn lerp_same_endpoints() {
    assert_eq!(lerp(777, 777, 640_000), 777);
}
