use portfolio::underline::{frame_visible, underline_span, Inset, UnderlineInsets};

#[test]
fn plain_inset_also_sets_default_hover_inset() {
    let u = UnderlineInsets::new();
    assert_eq!(u.current(false), Inset { left: 0, right: 0 });
    assert_eq!(u.current(true), Inset { left: -2, right: -2 });
    let u = u.with_inset(Inset { left: 4, right: 6 });
    assert_eq!(u.current(false), Inset { left: 4, right: 6 });
    assert_eq!(u.current(true), Inset { left: 4, right: 6 });
}

#[test]
fn explicit_hover_inset_is_kept() {
    let u = UnderlineInsets::new()
        .with_hover_inset(Inset { left: 1, right: 1 })
        .with_inset(Inset { left: 5, right: 5 });
    assert_eq!(u.current(false), Inset { left: 5, right: 5 });
    assert_eq!(u.current(true), Inset { left: 1, right: 1 });
}

#[test]
fn frame_visibility() {
    assert!(frame_visible(true, true, false));
    assert!(!frame_visible(true, false, false));
    assert!(frame_visible(true, false, true));
    assert!(!frame_visible(false, true, true));
}

#[test]
fn underline_span_values() {
    assert_eq!(underline_span(10, 110, 2, 3, Inset { left: 4, right: 5 }), (16, 102));
    assert_eq!(underline_span(0, 50, 0, 0, Inset { left: -2, right: -2 }), (-2, 52));
    assert_eq!(
        underline_span(i32::MIN, i32::MAX, i32::MIN, i32::MIN, Inset { left: i32::MIN, right: i32::MIN }),
        (3 * i32::MIN as i64, i32::MAX as i64 - 2 * i32::MIN as i64)
    );
}
