use portfolio::scene::SceneRect;

#[test]
fn negative_corner_is_shifted_to_origin() {
    let mut r = SceneRect::new(-30, -5, 1920, 1080);
    r.normalize();
    assert_eq!(r, SceneRect::new(0, 0, 1920, 1080));
    let mut r = SceneRect::new(40, -5, 10, 20);
    r.normalize();
    assert_eq!(r, SceneRect::new(40, 0, 10, 20));
    let mut r = SceneRect::new(i64::MIN, 7, u32::MAX, 0);
    r.normalize();
    assert_eq!(r, SceneRect::new(0, 7, u32::MAX, 0));
}

#[test]
fn normalizing_is_idempotent() {
    let mut r = SceneRect::new(12, 0, 300, 200);
    assert!(r.normalized_already());
    r.normalize();
    assert_eq!(r, SceneRect::new(12, 0, 300, 200));
    let mut once = SceneRect::new(-1, -1, 5, 6);
    assert!(!once.normalized_already());
    once.normalize();
    let mut twice = once;
    twice.normalize();
    assert_eq!(once, twice);
}
