use rhachis::math::lerp;

#[test]
fn lerp_test() {
    assert_eq!(lerp(0.0, 1.0, 0.5), 0.5);
    assert_eq!(lerp(0.5, 1.0, 0.5), 0.75);
    assert_eq!(lerp(0.75, 100.0, 0.25), 25.5625);
}

#[test]
fn lerp_on_integers() {
    assert_eq!(lerp(10i32, 20i32, 3i32), 40);
    assert_eq!(lerp(20i64, 10i64, 2i64), 0);
    assert_eq!(lerp(7u8, 7u8, 200u8), 7);
}

#[test]
fn lerp_ends() {
    assert_eq!(lerp(3.0f32, 9.0f32, 0.0f32), 3.0);
    assert_eq!(lerp(3.0f32, 9.0f32, 1.0f32), 9.0);
    assert_eq!(lerp(-4i32, 4i32, 0i32), -4);
    assert_eq!(lerp(-4i32, 4i32, 1i32), 4);
}
