use std::cell::Cell;
use voice_everywhere::input::{
    caret_rect_from_corners, detect_text_target, field_fallback_allowed, get_text_target,
    normalize_screen_rect, record_text_target, TextTarget, TextTargetCache,
    UIA_DOCUMENT_CONTROL_TYPE_ID, UIA_EDIT_CONTROL_TYPE_ID,
};

#[test]
fn rect_returns_the_rectangle_of_either_kind() {
    assert_eq!(TextTarget::Caret((1, 2, 3, 4)).rect(), (1, 2, 3, 4));
    assert_eq!(TextTarget::Field((-5, 6, 7, 80)).rect(), (-5, 6, 7, 80));
}

#[test]
fn screen_rects_need_positive_height() {
    assert_eq!(normalize_screen_rect(10, 20, 10, 40), Some((10, 20, 10, 40)));
    assert_eq!(normalize_screen_rect(10, 20, 9, 40), None);
    assert_eq!(normalize_screen_rect(10, 20, 30, 20), None);
}

#[test]
fn caret_corners_are_ordered() {
    assert_eq!(caret_rect_from_corners((30, 40), (10, 20)), Some((10, 20, 30, 40)));
    assert_eq!(caret_rect_from_corners((10, 20), (11, 20)), None);
}

#[test]
fn field_fallback_needs_text_support_or_text_control() {
    assert!(field_fallback_allowed(true, 0));
    assert!(field_fallback_allowed(false, UIA_EDIT_CONTROL_TYPE_ID));
    assert!(field_fallback_allowed(false, UIA_DOCUMENT_CONTROL_TYPE_ID));
    assert!(!field_fallback_allowed(false, 50000));
}

#[test]
fn text_target_lookup_is_cached_for_half_a_second() {
    let mut cache = TextTargetCache::new();
    let calls = Cell::new(0);

    let (first, looked_up) = get_text_target(&cache, 1_000_000_000, || None, || {
        calls.set(calls.get() + 1);
        Some(TextTarget::Field((1, 2, 3, 4)))
    });
    assert_eq!(first, Some(TextTarget::Field((1, 2, 3, 4))));
    assert!(looked_up);
    assert_eq!(calls.get(), 1);
    record_text_target(&mut cache, 1_000_000_000, first);
    assert_eq!(cache.entry, Some((1_000_000_000, first)));

    let (second, looked_up) = get_text_target(&cache, 1_499_999_999, || Some((9, 9, 9, 10)), || {
        calls.set(calls.get() + 1);
        None
    });
    assert_eq!(second, first);
    assert!(!looked_up);
    assert_eq!(calls.get(), 1);

    let (third, looked_up) = get_text_target(&cache, 1_500_000_000, || None, || {
        calls.set(calls.get() + 1);
        None
    });
    assert_eq!(third, None);
    assert!(looked_up);
    assert_eq!(calls.get(), 2);
    record_text_target(&mut cache, 1_500_000_100, third);

    // A cached "no target" answer is reused too.
    let (fourth, looked_up) = get_text_target(&cache, 1_600_000_000, || Some((0, 0, 1, 1)), || None);
    assert_eq!(fourth, None);
    assert!(!looked_up);
}

#[test]
fn legacy_caret_wins_over_ui_automation() {
    let cache = TextTargetCache::new();
    let uia_calls = Cell::new(0);
    let (target, _) = get_text_target(&cache, 0, || Some((10, 20, 12, 40)), || {
        uia_calls.set(uia_calls.get() + 1);
        Some(TextTarget::Field((0, 0, 100, 100)))
    });
    assert_eq!(target, Some(TextTarget::Caret((10, 20, 12, 40))));
    assert_eq!(uia_calls.get(), 0);

    assert_eq!(
        detect_text_target(|| None, || Some(TextTarget::Field((0, 0, 100, 100)))),
        Some(TextTarget::Field((0, 0, 100, 100)))
    );
    assert_eq!(detect_text_target(|| Some((1, 1, 1, 2)), || None), Some(TextTarget::Caret((1, 1, 1, 2))));
}
