use voice_everywhere::input::TextTarget;
use voice_everywhere::overlay::{
    effective_overlay_placement, env_flag_enabled, flag_value_enabled, is_mouse_within_monitor,
    monitor_at_position, overlay_dimensions, should_emit_levels,
    update_overlay_enabled_cache, windows_overlay_bounds, LevelEmitState, MonitorArea,
    OverlayPosition, PhysicalPosition, PhysicalSize, OVERLAY_HEIGHT, OVERLAY_STREAM_HEIGHT,
    OVERLAY_STREAM_WIDTH, OVERLAY_WIDTH,
};
use voice_everywhere::scale::ScaleFactor;

#[test]
fn monitor_hit_test_uses_half_open_physical_bounds() {
    let position = PhysicalPosition::new(-2560, -200);
    let size = PhysicalSize::new(2560, 1440);

    assert!(is_mouse_within_monitor((-2560, -200), &position, &size));
    assert!(is_mouse_within_monitor((-1, 1239), &position, &size));
    assert!(!is_mouse_within_monitor((0, 0), &position, &size));
    assert!(!is_mouse_within_monitor((-1, 1240), &position, &size));
}

#[test]
fn windows_cursor_hit_test_does_not_scale_physical_monitor_bounds() {
    let position = PhysicalPosition::new(1920, 0);
    let size = PhysicalSize::new(3840, 2160);
    let cursor = (5000, 1000);

    assert!(is_mouse_within_monitor(cursor, &position, &size));

    // This is the old mixed-coordinate comparison. It excludes a cursor
    // that is visibly inside a secondary display running at 150%.
    let scale = 1.5;
    let logical_position = PhysicalPosition::new(
        (position.x as f64 / scale) as i32,
        (position.y as f64 / scale) as i32,
    );
    let logical_size = PhysicalSize::new(
        (size.width as f64 / scale) as u32,
        (size.height as f64 / scale) as u32,
    );
    assert!(!is_mouse_within_monitor(
        cursor,
        &logical_position,
        &logical_size
    ));
}

#[test]
fn windows_overlay_bounds_use_destination_monitor_scale() {
    let monitor_position = PhysicalPosition::new(1920, 0);
    let monitor_size = PhysicalSize::new(3840, 2160);

    assert_eq!(
        windows_overlay_bounds(
            monitor_position,
            monitor_size,
            ScaleFactor::new(3, 2),
            OVERLAY_WIDTH,
            OVERLAY_HEIGHT,
            OverlayPosition::BottomRight,
            None,
        ),
        (5244, 1998, 480, 102)
    );
    assert_eq!(
        windows_overlay_bounds(
            monitor_position,
            monitor_size,
            ScaleFactor::new(3, 2),
            OVERLAY_WIDTH,
            OVERLAY_HEIGHT,
            OverlayPosition::TopRight,
            None,
        ),
        (5244, 6, 480, 102)
    );
}

#[test]
fn windows_overlay_bounds_support_negative_monitor_origins() {
    assert_eq!(
        windows_overlay_bounds(
            PhysicalPosition::new(-2560, -200),
            PhysicalSize::new(2560, 1440),
            ScaleFactor::new(5, 4),
            OVERLAY_STREAM_WIDTH,
            OVERLAY_STREAM_HEIGHT,
            OverlayPosition::BottomRight,
            None,
        ),
        (-645, 985, 615, 205)
    );
}

#[test]
fn field_overlay_prefers_space_to_the_right_of_the_caret() {
    assert_eq!(
        windows_overlay_bounds(
            PhysicalPosition::new(0, 0),
            PhysicalSize::new(1920, 1080),
            ScaleFactor::new(1, 1),
            OVERLAY_WIDTH,
            OVERLAY_HEIGHT,
            OverlayPosition::Field,
            Some(TextTarget::Caret((400, 300, 402, 320))),
        ),
        (414, 276, 320, 68)
    );
}

#[test]
fn focused_field_fallback_stays_adjacent_to_the_field() {
    assert_eq!(
        windows_overlay_bounds(
            PhysicalPosition::new(0, 0),
            PhysicalSize::new(1920, 1080),
            ScaleFactor::new(1, 1),
            OVERLAY_WIDTH,
            OVERLAY_HEIGHT,
            OverlayPosition::Field,
            Some(TextTarget::Field((500, 800, 1400, 850))),
        ),
        (1080, 720, 320, 68)
    );
}

#[test]
fn corner_positions_anchor_to_the_requested_screen_edge() {
    let monitor_position = PhysicalPosition::new(0, 0);
    let monitor_size = PhysicalSize::new(1920, 1080);

    assert_eq!(
        windows_overlay_bounds(
            monitor_position,
            monitor_size,
            ScaleFactor::new(1, 1),
            OVERLAY_WIDTH,
            OVERLAY_HEIGHT,
            OverlayPosition::TopLeft,
            None,
        ),
        (24, 4, 320, 68)
    );
    assert_eq!(
        windows_overlay_bounds(
            monitor_position,
            monitor_size,
            ScaleFactor::new(1, 1),
            OVERLAY_WIDTH,
            OVERLAY_HEIGHT,
            OverlayPosition::BottomLeft,
            None,
        ),
        (24, 972, 320, 68)
    );
}

#[test]
fn caret_without_room_on_the_right_goes_left() {
    // Caret near the right edge: 1900 + 12 + 320 exceeds 1920 - 12.
    assert_eq!(
        windows_overlay_bounds(
            PhysicalPosition::new(0, 0),
            PhysicalSize::new(1920, 1080),
            ScaleFactor::new(1, 1),
            OVERLAY_WIDTH,
            OVERLAY_HEIGHT,
            OverlayPosition::Field,
            Some(TextTarget::Caret((1890, 500, 1892, 520))),
        ),
        (1890 - 12 - 320, 476, 320, 68)
    );
}

#[test]
fn caret_overlay_is_clamped_inside_the_monitor() {
    // Caret at the top-left corner: the centred y would be negative.
    assert_eq!(
        windows_overlay_bounds(
            PhysicalPosition::new(0, 0),
            PhysicalSize::new(1920, 1080),
            ScaleFactor::new(1, 1),
            OVERLAY_WIDTH,
            OVERLAY_HEIGHT,
            OverlayPosition::Field,
            Some(TextTarget::Caret((0, 0, 2, 10))),
        ),
        (14, 12, 320, 68)
    );
}

#[test]
fn field_at_top_of_screen_puts_overlay_below() {
    assert_eq!(
        windows_overlay_bounds(
            PhysicalPosition::new(0, 0),
            PhysicalSize::new(1920, 1080),
            ScaleFactor::new(1, 1),
            OVERLAY_WIDTH,
            OVERLAY_HEIGHT,
            OverlayPosition::Field,
            Some(TextTarget::Field((500, 20, 1400, 60))),
        ),
        (1080, 72, 320, 68)
    );
}

#[test]
fn excessively_wide_field_keeps_to_its_left_edge() {
    assert_eq!(
        windows_overlay_bounds(
            PhysicalPosition::new(0, 0),
            PhysicalSize::new(1920, 1080),
            ScaleFactor::new(1, 1),
            OVERLAY_WIDTH,
            OVERLAY_HEIGHT,
            OverlayPosition::Field,
            Some(TextTarget::Field((100, 500, 2000, 600))),
        ),
        (100, 420, 320, 68)
    );
}

#[test]
fn field_position_without_target_uses_bottom_right() {
    let field = windows_overlay_bounds(
        PhysicalPosition::new(0, 0),
        PhysicalSize::new(1920, 1080),
        ScaleFactor::new(1, 1),
        OVERLAY_WIDTH,
        OVERLAY_HEIGHT,
        OverlayPosition::Field,
        None,
    );
    assert_eq!(field, (1920 - 320 - 24, 1080 - 68 - 40, 320, 68));
    assert_eq!(
        effective_overlay_placement(OverlayPosition::Field, false),
        OverlayPosition::BottomRight
    );
    assert_eq!(
        effective_overlay_placement(OverlayPosition::Field, true),
        OverlayPosition::Field
    );
    assert_eq!(
        effective_overlay_placement(OverlayPosition::TopLeft, false),
        OverlayPosition::TopLeft
    );
}

#[test]
fn scaled_rounding_rounds_halves_away_from_zero() {
    // 320 * 1.0625 = 340, 68 * 1.0625 = 72.25, 24 * 1.0625 = 25.5 (rounds to 26).
    assert_eq!(
        windows_overlay_bounds(
            PhysicalPosition::new(0, 0),
            PhysicalSize::new(1920, 1080),
            ScaleFactor::new(17, 16),
            OVERLAY_WIDTH,
            OVERLAY_HEIGHT,
            OverlayPosition::TopLeft,
            None,
        ),
        (26, 4, 340, 72)
    );
    // round(-100 + 25.5) = round(-74.5) = -75.
    assert_eq!(
        windows_overlay_bounds(
            PhysicalPosition::new(-100, 0),
            PhysicalSize::new(1920, 1080),
            ScaleFactor::new(17, 16),
            OVERLAY_WIDTH,
            OVERLAY_HEIGHT,
            OverlayPosition::TopLeft,
            None,
        )
        .0,
        -75
    );
}

#[test]
fn streaming_state_uses_the_larger_overlay() {
    assert_eq!(
        overlay_dimensions("streaming"),
        (OVERLAY_STREAM_WIDTH, OVERLAY_STREAM_HEIGHT)
    );
    assert_eq!(overlay_dimensions("recording"), (OVERLAY_WIDTH, OVERLAY_HEIGHT));
    assert_eq!(overlay_dimensions("transcribing"), (320, 68));
    assert_eq!(overlay_dimensions("Streaming"), (320, 68));
}

#[test]
fn first_monitor_containing_the_point_is_chosen() {
    let monitors = vec![
        MonitorArea {
            position: PhysicalPosition::new(0, 0),
            size: PhysicalSize::new(1920, 1080),
        },
        MonitorArea {
            position: PhysicalPosition::new(1920, 0),
            size: PhysicalSize::new(3840, 2160),
        },
    ];
    assert_eq!(monitor_at_position(&monitors, (100, 100)), Some(0));
    assert_eq!(monitor_at_position(&monitors, (1920, 100)), Some(1));
    assert_eq!(monitor_at_position(&monitors, (-1, 100)), None);

}

#[test]
fn level_events_are_switched_and_throttled() {
    let mut levels = LevelEmitState::new();
    assert!(!should_emit_levels(&mut levels, 1_000));
    update_overlay_enabled_cache(&mut levels, true);
    assert!(should_emit_levels(&mut levels, 1_000));
    assert_eq!(levels.last_emit_ms, 1_000);
    assert!(!should_emit_levels(&mut levels, 1_032));
    assert!(should_emit_levels(&mut levels, 1_033));
    // A clock that went backwards counts as no time passed.
    assert!(!should_emit_levels(&mut levels, 500));
    update_overlay_enabled_cache(&mut levels, false);
    assert!(!should_emit_levels(&mut levels, 10_000));
    assert_eq!(levels.last_emit_ms, 1_033);
}

#[test]
fn env_flag_values() {
    for on in ["1", "true", "yes", "on", " On ", "TRUE", "\tyes\n", "anything"] {
        assert!(flag_value_enabled(on), "{on:?} should enable");
    }
    for off in ["", "0", "false", "no", "off", " OFF ", "False", "  ", "\u{3000}no\u{a0}"] {
        assert!(!flag_value_enabled(off), "{off:?} should disable");
    }
    assert!(!env_flag_enabled(None));
    assert!(env_flag_enabled(Some("1")));
    assert!(!env_flag_enabled(Some("no")));
}
