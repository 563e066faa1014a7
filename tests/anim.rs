use portfolio::anim::{Direction, HoverAnim, PROGRESS_ONE};

#[test]
fn hover_enters_and_leaves_over_the_duration() {
    let mut a = HoverAnim::new();
    assert_eq!(a, HoverAnim { direction: Direction::Leaving, progress: 0 });
    a.step(true, 100);
    assert_eq!(a, HoverAnim { direction: Direction::Entering, progress: 500 });
    a.step(true, 150);
    assert_eq!(a.progress, PROGRESS_ONE);
    a.step(false, 50);
    assert_eq!(a, HoverAnim { direction: Direction::Leaving, progress: 750 });
    a.step(false, 10_000);
    assert_eq!(a.progress, 0);
}

#[test]
fn hover_progress_stays_in_range_and_moves_smoothly() {
    let mut a = HoverAnim::new();
    let frames: [(bool, u32); 12] = [
        (true, 16), (true, 16), (false, 33), (true, 7), (true, 400), (false, 1),
        (false, 199), (true, 0), (false, 250), (true, 60), (false, 60), (true, 16),
    ];
    for (hovered, dt) in frames {
        let before = a.progress as i64;
        a.step(hovered, dt);
        let after = a.progress as i64;
        assert!(after >= 0 && after <= PROGRESS_ONE as i64);
        let limit = if dt >= 200 { 1000 } else { dt as i64 * 5 };
        assert!((after - before).abs() <= limit);
    }
}

#[test]
fn flipping_direction_keeps_progress() {
    let mut a = HoverAnim { direction: Direction::Entering, progress: 400 };
    a.step(false, 0);
    assert_eq!(a, HoverAnim { direction: Direction::Leaving, progress: 400 });
    a.step(true, 0);
    assert_eq!(a, HoverAnim { direction: Direction::Entering, progress: 400 });
}

#[test]
fn interpolated_size_follows_progress() {
    let rest = HoverAnim::new();
    assert_eq!(rest.interpolate(14, 22), 14);
    let half = HoverAnim { direction: Direction::Entering, progress: 500 };
    assert_eq!(half.interpolate(14, 22), 18);
    assert_eq!(half.interpolate(22, 14), 18);
    let full = HoverAnim { direction: Direction::Entering, progress: PROGRESS_ONE };
    assert_eq!(full.interpolate(14, 22), 22);
    assert_eq!(full.interpolate(u32::MAX, 0), 0);
    assert_eq!(rest.interpolate(u32::MAX, 0), u32::MAX);
}
