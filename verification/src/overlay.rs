//! Placement of the recording overlay on a monitor.
//!
//! Monitor positions and sizes are physical pixels. Logical sizes are scaled
//! by the destination monitor's scale factor, so no coordinate passes through
//! another monitor's DPI.
use vstd::prelude::*;
use crate::input::{ScreenRect, TextTarget};
use crate::text::{
    ascii_lower, ascii_lowercase, is_white_space, range_lowers_to, str_equals, trim, trim_bounds,
    trim_end, trim_start,
};
use crate::scale::{
    abs, fits_i32, saturate_i32, round_ratio, scaled_extent, scaled_offset, ScaleFactor, div_round,
    saturate_to_i32, scaled_extent_exec, scaled_offset_exec,
};

verus! {

/// Overlay window width for the compact states (logical points).
pub const OVERLAY_WIDTH: u32 = 320;
/// Overlay window height for the compact states (logical points).
pub const OVERLAY_HEIGHT: u32 = 68;
/// Overlay window width while live transcription is streamed.
pub const OVERLAY_STREAM_WIDTH: u32 = 492;
/// Overlay window height while live transcription is streamed.
pub const OVERLAY_STREAM_HEIGHT: u32 = 164;
/// Distance from the top screen edge for the top corners (Windows and Linux).
pub const OVERLAY_TOP_OFFSET: u32 = 4;
/// Distance from the bottom screen edge for the bottom corners (Windows and
/// Linux; clears the taskbar).
pub const OVERLAY_BOTTOM_OFFSET: u32 = 40;
/// Distance from the left or right screen edge for the corners.
pub const OVERLAY_EDGE_OFFSET: u32 = 24;
/// Space between a caret or text field and the overlay.
pub const OVERLAY_FIELD_GAP: u32 = 12;
/// Margin kept between a field-adjacent overlay and the monitor edges.
pub const OVERLAY_FIELD_GUTTER: u32 = 12;

/// A point in physical pixels.
#[derive(Clone, Copy, Debug, PartialEq, Eq, Structural)]
pub struct PhysicalPosition {
    pub x: i32,
    pub y: i32,
}

impl PhysicalPosition {
    pub fn new(x: i32, y: i32) -> (r: Self)
        ensures
            r.x == x,
            r.y == y,
    {
        PhysicalPosition { x, y }
    }
}

/// A size in physical pixels.
#[derive(Clone, Copy, Debug, PartialEq, Eq, Structural)]
pub struct PhysicalSize {
    pub width: u32,
    pub height: u32,
}

impl PhysicalSize {
    pub fn new(width: u32, height: u32) -> (r: Self)
        ensures
            r.width == width,
            r.height == height,
    {
        PhysicalSize { width, height }
    }
}

/// Where the user wants the overlay: a screen corner, or beside the focused
/// text field.
#[derive(Clone, Copy, Debug, PartialEq, Eq, Structural)]
pub enum OverlayPosition {
    TopLeft,
    TopRight,
    BottomLeft,
    BottomRight,
    Field,
}

impl OverlayPosition {
    pub open spec fn spec_is_left(self) -> bool {
        self is TopLeft || self is BottomLeft
    }

    pub open spec fn spec_is_top(self) -> bool {
        self is TopLeft || self is TopRight
    }

    /// True for the two left corners.
    pub fn is_left(self) -> (r: bool)
        ensures
            r == self.spec_is_left(),
    {
        match self {
            OverlayPosition::TopLeft | OverlayPosition::BottomLeft => true,
            _ => false,
        }
    }

    /// True for the two top corners.
    pub fn is_top(self) -> (r: bool)
        ensures
            r == self.spec_is_top(),
    {
        match self {
            OverlayPosition::TopLeft | OverlayPosition::TopRight => true,
            _ => false,
        }
    }
}

/// The monitor's right edge, `x + width as i32`.
pub open spec fn monitor_right(p: PhysicalPosition, s: PhysicalSize) -> int {
    p.x + (s.width as i32)
}

/// The monitor's bottom edge, `y + height as i32`.
pub open spec fn monitor_bottom(p: PhysicalPosition, s: PhysicalSize) -> int {
    p.y + (s.height as i32)
}

/// Whether a point lies on a monitor: left and top edges included, right and
/// bottom edges excluded.
pub open spec fn spec_within_monitor(point: (i32, i32), p: PhysicalPosition, s: PhysicalSize) -> bool {
    &&& p.x <= point.0 < monitor_right(p, s)
    &&& p.y <= point.1 < monitor_bottom(p, s)
}

/// The hit test computes no `i32` sum out of range (it evaluates lazily, as
/// `&&` does).
pub open spec fn within_monitor_in_range(point: (i32, i32), p: PhysicalPosition, s: PhysicalSize) -> bool {
    &&& point.0 >= p.x ==> fits_i32(monitor_right(p, s))
    &&& (point.0 >= p.x && point.0 < monitor_right(p, s) && point.1 >= p.y) ==> fits_i32(
        monitor_bottom(p, s),
    )
}

/// Whether the mouse (or any point) lies on the monitor, in half-open bounds.
pub fn is_mouse_within_monitor(
    mouse_pos: (i32, i32),
    monitor_pos: &PhysicalPosition,
    monitor_size: &PhysicalSize,
) -> (r: bool)
    requires
        within_monitor_in_range(mouse_pos, *monitor_pos, *monitor_size),
    ensures
        r == spec_within_monitor(mouse_pos, *monitor_pos, *monitor_size),
{
    let (mouse_x, mouse_y) = mouse_pos;
    let monitor_x = monitor_pos.x;
    let monitor_y = monitor_pos.y;
    let monitor_width = monitor_size.width;
    let monitor_height = monitor_size.height;

    mouse_x >= monitor_x && mouse_x < (monitor_x + monitor_width as i32) && mouse_y >= monitor_y
        && mouse_y < (monitor_y + monitor_height as i32)
}

pub open spec fn clamp_int(v: int, lo: int, hi: int) -> int {
    if v < lo {
        lo
    } else if v > hi {
        hi
    } else {
        v
    }
}

/// `v / 2` in integer division that truncates toward zero, as Rust's does.
pub open spec fn half_toward_zero(v: int) -> int {
    if v >= 0 {
        v / 2
    } else {
        -((-v) / 2)
    }
}

/// The field-adjacent overlay must stay inside the band
/// `min_x ..= max_x`, `min_y ..= max_y`: `gutter` pixels inside every monitor edge.
pub open spec fn band_min_x(p: PhysicalPosition, gutter: int) -> int {
    p.x + gutter
}

pub open spec fn band_max_x(p: PhysicalPosition, s: PhysicalSize, width: int, gutter: int) -> int {
    monitor_right(p, s) - width - gutter
}

pub open spec fn band_min_y(p: PhysicalPosition, gutter: int) -> int {
    p.y + gutter
}

pub open spec fn band_max_y(p: PhysicalPosition, s: PhysicalSize, height: int, gutter: int) -> int {
    monitor_bottom(p, s) - height - gutter
}

/// Clamps a desired coordinate into the band, or falls back to the monitor's
/// origin when the band is empty (the overlay is larger than the monitor).
pub open spec fn place_in_band(desired: int, lo: int, hi: int, origin: int) -> int {
    if lo <= hi {
        clamp_int(desired, lo, hi)
    } else {
        origin
    }
}

/// The band's bounds are computed without `i32` overflow.
pub open spec fn band_in_range(
    p: PhysicalPosition,
    s: PhysicalSize,
    width: int,
    height: int,
    gutter: int,
) -> bool {
    &&& fits_i32(monitor_right(p, s))
    &&& fits_i32(monitor_bottom(p, s))
    &&& fits_i32(p.x + gutter)
    &&& fits_i32(monitor_right(p, s) - width)
    &&& fits_i32(monitor_right(p, s) - width - gutter)
    &&& fits_i32(p.y + gutter)
    &&& fits_i32(monitor_bottom(p, s) - height)
    &&& fits_i32(monitor_bottom(p, s) - height - gutter)
}

/// The gap between the caret or field and the overlay, in physical pixels.
pub open spec fn field_gap(scale: ScaleFactor) -> int {
    scaled_offset(OVERLAY_FIELD_GAP as int, scale)
}

/// The margin kept inside the monitor edges, in physical pixels.
pub open spec fn field_gutter(scale: ScaleFactor) -> int {
    scaled_offset(OVERLAY_FIELD_GUTTER as int, scale)
}

/// Whether the overlay fits to the right of the caret, inside the gutter.
pub open spec fn caret_right_fits(
    p: PhysicalPosition,
    s: PhysicalSize,
    scale: ScaleFactor,
    width: int,
    caret: ScreenRect,
) -> bool {
    caret.2 + field_gap(scale) + width <= monitor_right(p, s) - field_gutter(scale)
}

/// The overlay beside a caret: to its right when it fits there, else to its
/// left; vertically centred on the caret; clamped into the monitor's band.
pub open spec fn spec_caret_overlay_bounds(
    p: PhysicalPosition,
    s: PhysicalSize,
    scale: ScaleFactor,
    width: int,
    height: int,
    caret: ScreenRect,
) -> (int, int, int, int) {
    let gap = field_gap(scale);
    let gutter = field_gutter(scale);
    let desired_x = if caret_right_fits(p, s, scale, width, caret) {
        caret.2 + gap
    } else {
        caret.0 - gap - width
    };
    let desired_y = caret.1 + half_toward_zero(caret.3 - caret.1 - height);
    let x = place_in_band(desired_x, band_min_x(p, gutter), band_max_x(p, s, width, gutter), p.x as int);
    let y = place_in_band(desired_y, band_min_y(p, gutter), band_max_y(p, s, height, gutter), p.y as int);
    (x, y, width, height)
}

/// No `i32` computation of the caret placement overflows.
pub open spec fn caret_overlay_in_range(
    p: PhysicalPosition,
    s: PhysicalSize,
    scale: ScaleFactor,
    width: int,
    height: int,
    caret: ScreenRect,
) -> bool {
    let gap = field_gap(scale);
    let gutter = field_gutter(scale);
    &&& band_in_range(p, s, width, height, gutter)
    &&& fits_i32(caret.2 + gap)
    &&& fits_i32(caret.2 + gap + width)
    &&& fits_i32(monitor_right(p, s) - gutter)
    &&& !caret_right_fits(p, s, scale, width, caret) ==> fits_i32(caret.0 - gap) && fits_i32(
        caret.0 - gap - width,
    )
    &&& fits_i32(caret.3 - caret.1)
    &&& fits_i32(caret.3 - caret.1 - height)
    &&& fits_i32(caret.1 + half_toward_zero(caret.3 - caret.1 - height))
}

pub open spec fn rect_int(r: ScreenRect) -> (int, int, int, int) {
    (r.0 as int, r.1 as int, r.2 as int, r.3 as int)
}

/// `Ord::clamp` on `i32`: the bound that `v` crosses, else `v` (`lo <= hi`).
fn clamp_i32(v: i32, lo: i32, hi: i32) -> (r: i32)
    requires
        lo <= hi,
    ensures
        r == clamp_int(v as int, lo as int, hi as int),
{
    if v < lo {
        lo
    } else if v > hi {
        hi
    } else {
        v
    }
}

/// Truncating halving, as `v / 2` on `i32`.
fn half_i32(v: i32) -> (r: i32)
    ensures
        r == half_toward_zero(v as int),
{
    v / 2
}

/// Centres a field-adjacent overlay on the caret. Prefers the right side, then
/// the left, and clamps within the monitor so the indicator remains fully
/// visible.
pub fn caret_overlay_bounds(
    monitor_position: PhysicalPosition,
    monitor_size: PhysicalSize,
    scale: ScaleFactor,
    width: i32,
    height: i32,
    caret: ScreenRect,
) -> (r: ScreenRect)
    requires
        scale.wf(),
        caret_overlay_in_range(monitor_position, monitor_size, scale, width as int, height as int, caret),
    ensures
        rect_int(r) == spec_caret_overlay_bounds(
            monitor_position,
            monitor_size,
            scale,
            width as int,
            height as int,
            caret,
        ),
        r.2 == width && r.3 == height,
        // When the monitor has room, the overlay lies entirely inside it, a
        // gutter away from every edge.
        band_min_x(monitor_position, field_gutter(scale)) <= band_max_x(
            monitor_position,
            monitor_size,
            width as int,
            field_gutter(scale),
        ) ==> monitor_position.x + field_gutter(scale) <= r.0 && r.0 + width + field_gutter(scale)
            <= monitor_right(monitor_position, monitor_size),
        band_min_y(monitor_position, field_gutter(scale)) <= band_max_y(
            monitor_position,
            monitor_size,
            height as int,
            field_gutter(scale),
        ) ==> monitor_position.y + field_gutter(scale) <= r.1 && r.1 + height + field_gutter(scale)
            <= monitor_bottom(monitor_position, monitor_size),
{
    let gap = scaled_offset_exec(OVERLAY_FIELD_GAP, scale);
    let gutter = scaled_offset_exec(OVERLAY_FIELD_GUTTER, scale);
    let (caret_left, caret_top, caret_right, caret_bottom) = caret;
    let monitor_right = monitor_position.x + monitor_size.width as i32;
    let monitor_bottom = monitor_position.y + monitor_size.height as i32;
    let min_x = monitor_position.x + gutter;
    let max_x = monitor_right - width - gutter;
    let min_y = monitor_position.y + gutter;
    let max_y = monitor_bottom - height - gutter;
    let right_fits = caret_right + gap + width <= monitor_right - gutter;
    let desired_x = if right_fits {
        caret_right + gap
    } else {
        caret_left - gap - width
    };
    let desired_y = caret_top + half_i32(caret_bottom - caret_top - height);
    let x = if min_x <= max_x {
        clamp_i32(desired_x, min_x, max_x)
    } else {
        monitor_position.x
    };
    let y = if min_y <= max_y {
        clamp_i32(desired_y, min_y, max_y)
    } else {
        monitor_position.y
    };

    (x, y, width, height)
}

/// The y coordinate just above the field, leaving the gap.
pub open spec fn field_above_y(scale: ScaleFactor, height: int, field: ScreenRect) -> int {
    field.1 - field_gap(scale) - height
}

/// A field wider than the monitor minus both gutters (an excessively wide
/// container reported by the provider).
pub open spec fn field_is_too_wide(s: PhysicalSize, scale: ScaleFactor, field: ScreenRect) -> bool {
    field.2 - field.0 > (s.width as i32) - field_gutter(scale) * 2
}

/// The overlay beside a focused field: right-aligned with the field, just
/// above it when that stays inside the monitor's band, else just below;
/// clamped into the band. For an excessively wide field it keeps to the
/// field's left edge instead.
pub open spec fn spec_text_field_overlay_bounds(
    p: PhysicalPosition,
    s: PhysicalSize,
    scale: ScaleFactor,
    width: int,
    height: int,
    field: ScreenRect,
) -> (int, int, int, int) {
    let gap = field_gap(scale);
    let gutter = field_gutter(scale);
    let min_x = band_min_x(p, gutter);
    let max_x = band_max_x(p, s, width, gutter);
    let above_y = field_above_y(scale, height, field);
    let desired_y = if above_y >= band_min_y(p, gutter) {
        above_y
    } else {
        field.3 + gap
    };
    let y = place_in_band(desired_y, band_min_y(p, gutter), band_max_y(p, s, height, gutter), p.y as int);
    let x = if field_is_too_wide(s, scale, field) {
        clamp_int(field.0 as int, min_x, max_x)
    } else {
        place_in_band(field.2 - width, min_x, max_x, p.x as int)
    };
    (x, y, width, height)
}

/// No `i32` computation of the field placement overflows, and the wide-field
/// clamp gets a non-empty band (`Ord::clamp` panics on an empty one).
pub open spec fn text_field_overlay_in_range(
    p: PhysicalPosition,
    s: PhysicalSize,
    scale: ScaleFactor,
    width: int,
    height: int,
    field: ScreenRect,
) -> bool {
    let gap = field_gap(scale);
    let gutter = field_gutter(scale);
    &&& band_in_range(p, s, width, height, gutter)
    &&& fits_i32(field.2 - width)
    &&& fits_i32(field.1 - gap)
    &&& fits_i32(field.1 - gap - height)
    &&& field_above_y(scale, height, field) < band_min_y(p, gutter) ==> fits_i32(field.3 + gap)
    &&& fits_i32(field.2 - field.0)
    &&& fits_i32(gutter * 2)
    &&& fits_i32((s.width as i32) - gutter * 2)
    &&& field_is_too_wide(s, scale, field) ==> band_min_x(p, gutter) <= band_max_x(
        p,
        s,
        width,
        gutter,
    )
}

/// Places an overlay just above or below a focused field when its provider
/// does not expose a caret range. Right alignment keeps it close without
/// covering text.
pub fn text_field_overlay_bounds(
    monitor_position: PhysicalPosition,
    monitor_size: PhysicalSize,
    scale: ScaleFactor,
    width: i32,
    height: i32,
    field: ScreenRect,
) -> (r: ScreenRect)
    requires
        scale.wf(),
        text_field_overlay_in_range(
            monitor_position,
            monitor_size,
            scale,
            width as int,
            height as int,
            field,
        ),
    ensures
        rect_int(r) == spec_text_field_overlay_bounds(
            monitor_position,
            monitor_size,
            scale,
            width as int,
            height as int,
            field,
        ),
        r.2 == width && r.3 == height,
        // When the monitor has room, the overlay lies entirely inside it, a
        // gutter away from every edge.
        band_min_x(monitor_position, field_gutter(scale)) <= band_max_x(
            monitor_position,
            monitor_size,
            width as int,
            field_gutter(scale),
        ) ==> monitor_position.x + field_gutter(scale) <= r.0 && r.0 + width + field_gutter(scale)
            <= monitor_right(monitor_position, monitor_size),
        band_min_y(monitor_position, field_gutter(scale)) <= band_max_y(
            monitor_position,
            monitor_size,
            height as int,
            field_gutter(scale),
        ) ==> monitor_position.y + field_gutter(scale) <= r.1 && r.1 + height + field_gutter(scale)
            <= monitor_bottom(monitor_position, monitor_size),
{
    let gap = scaled_offset_exec(OVERLAY_FIELD_GAP, scale);
    let gutter = scaled_offset_exec(OVERLAY_FIELD_GUTTER, scale);
    let (field_left, field_top, field_right, field_bottom) = field;
    let monitor_right = monitor_position.x + monitor_size.width as i32;
    let monitor_bottom = monitor_position.y + monitor_size.height as i32;
    let min_x = monitor_position.x + gutter;
    let max_x = monitor_right - width - gutter;
    let min_y = monitor_position.y + gutter;
    let max_y = monitor_bottom - height - gutter;
    let desired_x = field_right - width;
    let above_y = field_top - gap - height;
    let desired_y = if above_y >= min_y {
        above_y
    } else {
        field_bottom + gap
    };
    let x = if min_x <= max_x {
        clamp_i32(desired_x, min_x, max_x)
    } else {
        monitor_position.x
    };
    let y = if min_y <= max_y {
        clamp_i32(desired_y, min_y, max_y)
    } else {
        monitor_position.y
    };

    // For providers returning an excessively wide container, retain proximity
    // to its left edge rather than drifting to the monitor edge.
    let x = if field_right - field_left > monitor_size.width as i32 - gutter * 2 {
        clamp_i32(field_left, min_x, max_x)
    } else {
        x
    };
    (x, y, width, height)
}

/// `round(a + b * scale)` for an integer `a` and logical `b` (a corner
/// coordinate computed from the monitor edge), saturated to `i32`.
pub open spec fn offset_coordinate(a: int, b: int, scale: ScaleFactor) -> int {
    saturate_i32(round_ratio(a * scale.denominator + b * scale.numerator, scale.denominator as int))
}

/// The x of a corner placement: the edge offset inside the left or right edge.
pub open spec fn corner_x(p: PhysicalPosition, s: PhysicalSize, scale: ScaleFactor, width: int, left: bool) -> int {
    if left {
        offset_coordinate(p.x as int, OVERLAY_EDGE_OFFSET as int, scale)
    } else {
        offset_coordinate(p.x + s.width - width, -(OVERLAY_EDGE_OFFSET as int), scale)
    }
}

/// The y of a corner placement: the top offset below the top edge, or the
/// bottom offset above the bottom edge.
pub open spec fn corner_y(p: PhysicalPosition, s: PhysicalSize, scale: ScaleFactor, height: int, top: bool) -> int {
    if top {
        offset_coordinate(p.y as int, OVERLAY_TOP_OFFSET as int, scale)
    } else {
        offset_coordinate(p.y + s.height - height, -(OVERLAY_BOTTOM_OFFSET as int), scale)
    }
}

/// The overlay rectangle for a configured position and the focused text target.
pub open spec fn spec_windows_overlay_bounds(
    p: PhysicalPosition,
    s: PhysicalSize,
    scale: ScaleFactor,
    logical_width: int,
    logical_height: int,
    position: OverlayPosition,
    text_target: Option<TextTarget>,
) -> (int, int, int, int) {
    let width = scaled_extent(logical_width, scale);
    let height = scaled_extent(logical_height, scale);
    match (position, text_target) {
        (OverlayPosition::Field, Some(TextTarget::Caret(caret))) => spec_caret_overlay_bounds(
            p,
            s,
            scale,
            width,
            height,
            caret,
        ),
        (OverlayPosition::Field, Some(TextTarget::Field(field))) => spec_text_field_overlay_bounds(
            p,
            s,
            scale,
            width,
            height,
            field,
        ),
        _ => (
            corner_x(p, s, scale, width, position.spec_is_left()),
            corner_y(p, s, scale, height, position.spec_is_top()),
            width,
            height,
        ),
    }
}

/// The inputs that the placement computes on without `i32` overflow.
pub open spec fn windows_overlay_in_range(
    p: PhysicalPosition,
    s: PhysicalSize,
    scale: ScaleFactor,
    logical_width: int,
    logical_height: int,
    position: OverlayPosition,
    text_target: Option<TextTarget>,
) -> bool {
    let width = scaled_extent(logical_width, scale);
    let height = scaled_extent(logical_height, scale);
    match (position, text_target) {
        (OverlayPosition::Field, Some(TextTarget::Caret(caret))) => caret_overlay_in_range(
            p,
            s,
            scale,
            width,
            height,
            caret,
        ),
        (OverlayPosition::Field, Some(TextTarget::Field(field))) => text_field_overlay_in_range(
            p,
            s,
            scale,
            width,
            height,
            field,
        ),
        _ => true,
    }
}

/// `round(a + b * scale)` saturated to `i32`.
fn offset_coordinate_exec(a: i64, b: i64, scale: ScaleFactor) -> (r: i32)
    requires
        scale.wf(),
        -0x1_0000_0000_0000 <= a <= 0x1_0000_0000_0000,
        -100 <= b <= 100,
    ensures
        r == offset_coordinate(a as int, b as int, scale),
{
    let den = scale.denominator as i128;
    let num = scale.numerator as i128;
    assert(abs((a as int) * (den as int)) <= 0x1_0000_0000_0000 * 0x1_0000_0000_0000_0000)
        by (nonlinear_arith)
        requires
            -0x1_0000_0000_0000 <= a <= 0x1_0000_0000_0000,
            0 < den <= 0xffff_ffff_ffff_ffff,
    ;
    assert(abs((b as int) * (num as int)) <= 100 * 0x1_0000_0000_0000_0000) by (nonlinear_arith)
        requires
            -100 <= b <= 100,
            0 <= num <= 0xffff_ffff_ffff_ffff,
    ;
    let p: i128 = (a as i128) * den + (b as i128) * num;
    saturate_to_i32(div_round(p, den))
}

/// Overlay rectangle `(x, y, width, height)` in the destination monitor's
/// physical pixels, so nothing is converted through the window's
/// previous-monitor DPI. The logical size is scaled by the monitor's factor;
/// beside the focused text when the position is `Field` and a target is
/// known, else in the configured corner (`Field` without a target uses the
/// bottom-right corner).
pub fn windows_overlay_bounds(
    monitor_position: PhysicalPosition,
    monitor_size: PhysicalSize,
    scale: ScaleFactor,
    logical_width: u32,
    logical_height: u32,
    overlay_position: OverlayPosition,
    text_target: Option<TextTarget>,
) -> (r: ScreenRect)
    requires
        scale.wf(),
        windows_overlay_in_range(
            monitor_position,
            monitor_size,
            scale,
            logical_width as int,
            logical_height as int,
            overlay_position,
            text_target,
        ),
    ensures
        rect_int(r) == spec_windows_overlay_bounds(
            monitor_position,
            monitor_size,
            scale,
            logical_width as int,
            logical_height as int,
            overlay_position,
            text_target,
        ),
        r.2 >= 1 && r.3 >= 1,
{
    let width = scaled_extent_exec(logical_width, scale);
    let height = scaled_extent_exec(logical_height, scale);
    match overlay_position {
        OverlayPosition::Field => match text_target {
            Some(TextTarget::Caret(caret_rect)) => {
                return caret_overlay_bounds(
                    monitor_position,
                    monitor_size,
                    scale,
                    width,
                    height,
                    caret_rect,
                );
            },
            Some(TextTarget::Field(field_rect)) => {
                return text_field_overlay_bounds(
                    monitor_position,
                    monitor_size,
                    scale,
                    width,
                    height,
                    field_rect,
                );
            },
            None => {},
        },
        _ => {},
    }

    let x = if overlay_position.is_left() {
        offset_coordinate_exec(monitor_position.x as i64, OVERLAY_EDGE_OFFSET as i64, scale)
    } else {
        offset_coordinate_exec(
            monitor_position.x as i64 + monitor_size.width as i64 - width as i64,
            0 - OVERLAY_EDGE_OFFSET as i64,
            scale,
        )
    };
    let y = if overlay_position.is_top() {
        offset_coordinate_exec(monitor_position.y as i64, OVERLAY_TOP_OFFSET as i64, scale)
    } else {
        offset_coordinate_exec(
            monitor_position.y as i64 + monitor_size.height as i64 - height as i64,
            0 - OVERLAY_BOTTOM_OFFSET as i64,
            scale,
        )
    };

    (x, y, width, height)
}

/// Whether an `i64` value fits in `i32`.
fn fits_i32_exec(v: i64) -> (r: bool)
    ensures
        r == fits_i32(v as int),
{
    i32::MIN as i64 <= v && v <= i32::MAX as i64
}

/// Whether testing `point` against the monitor stays within `i32`
/// (`within_monitor_in_range`); callers that cannot prove it test it.
pub fn point_test_in_range(point: (i32, i32), position: &PhysicalPosition, size: &PhysicalSize) -> (r: bool)
    ensures
        r == within_monitor_in_range(point, *position, *size),
{
    let right = position.x as i64 + (size.width as i32) as i64;
    let bottom = position.y as i64 + (size.height as i32) as i64;
    if point.0 >= position.x && !fits_i32_exec(right) {
        return false;
    }
    if point.0 >= position.x && (point.0 as i64) < right && point.1 >= position.y && !fits_i32_exec(
        bottom,
    ) {
        return false;
    }
    true
}

/// Whether searching the monitors for `point` stays within `i32`
/// (`monitor_search_in_range`).
pub fn monitor_search_is_in_range(monitors: &Vec<MonitorArea>, point: (i32, i32)) -> (r: bool)
    ensures
        r == monitor_search_in_range(monitors@, point),
{
    let n = monitors.len();
    let mut i: usize = 0;
    while i < n
        invariant
            n == monitors@.len(),
            i <= n,
            none_before(monitors@, point, i as int),
            forall|k: int|
                0 <= k < i && none_before(monitors@, point, k) ==> within_monitor_in_range(
                    point,
                    #[trigger] monitors@[k].position,
                    monitors@[k].size,
                ),
        decreases n - i,
    {
        let m = &monitors[i];
        if !point_test_in_range(point, &m.position, &m.size) {
            return false;
        }
        if is_mouse_within_monitor(point, &m.position, &m.size) {
            assert forall|k: int|
                0 <= k < monitors@.len() && none_before(monitors@, point, k) implies within_monitor_in_range(
                point,
                #[trigger] monitors@[k].position,
                monitors@[k].size,
            ) by {
                if k > i {
                    assert(!spec_within_monitor(point, monitors@[i as int].position, monitors@[i as int].size));
                }
            }
            return true;
        }
        i = i + 1;
    }
    true
}

/// Whether the caret placement stays within `i32` (`caret_overlay_in_range`).
fn caret_overlay_is_in_range(
    p: PhysicalPosition,
    s: PhysicalSize,
    scale: ScaleFactor,
    width: i32,
    height: i32,
    caret: ScreenRect,
) -> (r: bool)
    requires
        scale.wf(),
    ensures
        r == caret_overlay_in_range(p, s, scale, width as int, height as int, caret),
{
    let gap = scaled_offset_exec(OVERLAY_FIELD_GAP, scale) as i64;
    let gutter = scaled_offset_exec(OVERLAY_FIELD_GUTTER, scale) as i64;
    let (w, h) = (width as i64, height as i64);
    let (cl, ct, cr, cb) = (caret.0 as i64, caret.1 as i64, caret.2 as i64, caret.3 as i64);
    let right = p.x as i64 + (s.width as i32) as i64;
    let bottom = p.y as i64 + (s.height as i32) as i64;
    let band = fits_i32_exec(right) && fits_i32_exec(bottom) && fits_i32_exec(p.x as i64 + gutter)
        && fits_i32_exec(right - w) && fits_i32_exec(right - w - gutter) && fits_i32_exec(
        p.y as i64 + gutter,
    ) && fits_i32_exec(bottom - h) && fits_i32_exec(bottom - h - gutter);
    let right_fits = cr + gap + w <= right - gutter;
    let span = cb - ct - h;
    let half = if span >= 0 { span / 2 } else { 0 - ((0 - span) / 2) };
    band && fits_i32_exec(cr + gap) && fits_i32_exec(cr + gap + w) && fits_i32_exec(right - gutter)
        && (right_fits || (fits_i32_exec(cl - gap) && fits_i32_exec(cl - gap - w)))
        && fits_i32_exec(cb - ct) && fits_i32_exec(span) && fits_i32_exec(ct + half)
}

/// Whether the field placement stays within `i32` and the wide-field clamp
/// gets a non-empty band (`text_field_overlay_in_range`).
fn text_field_overlay_is_in_range(
    p: PhysicalPosition,
    s: PhysicalSize,
    scale: ScaleFactor,
    width: i32,
    height: i32,
    field: ScreenRect,
) -> (r: bool)
    requires
        scale.wf(),
    ensures
        r == text_field_overlay_in_range(p, s, scale, width as int, height as int, field),
{
    let gap = scaled_offset_exec(OVERLAY_FIELD_GAP, scale) as i64;
    let gutter = scaled_offset_exec(OVERLAY_FIELD_GUTTER, scale) as i64;
    let (w, h) = (width as i64, height as i64);
    let (fl, ft, fr, fb) = (field.0 as i64, field.1 as i64, field.2 as i64, field.3 as i64);
    let right = p.x as i64 + (s.width as i32) as i64;
    let bottom = p.y as i64 + (s.height as i32) as i64;
    let band = fits_i32_exec(right) && fits_i32_exec(bottom) && fits_i32_exec(p.x as i64 + gutter)
        && fits_i32_exec(right - w) && fits_i32_exec(right - w - gutter) && fits_i32_exec(
        p.y as i64 + gutter,
    ) && fits_i32_exec(bottom - h) && fits_i32_exec(bottom - h - gutter);
    let above = ft - gap - h;
    let too_wide = fr - fl > (s.width as i32) as i64 - gutter * 2;
    band && fits_i32_exec(fr - w) && fits_i32_exec(ft - gap) && fits_i32_exec(above) && (above >= p.y
        as i64 + gutter || fits_i32_exec(fb + gap)) && fits_i32_exec(fr - fl) && fits_i32_exec(
        gutter * 2,
    ) && fits_i32_exec((s.width as i32) as i64 - gutter * 2) && (!too_wide || p.x as i64 + gutter
        <= right - w - gutter)
}

/// Whether `windows_overlay_bounds` computes within `i32` on these inputs
/// (`windows_overlay_in_range`); callers that cannot prove it test it.
pub fn windows_overlay_is_in_range(
    monitor_position: PhysicalPosition,
    monitor_size: PhysicalSize,
    scale: ScaleFactor,
    logical_width: u32,
    logical_height: u32,
    overlay_position: OverlayPosition,
    text_target: Option<TextTarget>,
) -> (r: bool)
    requires
        scale.wf(),
    ensures
        r == windows_overlay_in_range(
            monitor_position,
            monitor_size,
            scale,
            logical_width as int,
            logical_height as int,
            overlay_position,
            text_target,
        ),
{
    let width = scaled_extent_exec(logical_width, scale);
    let height = scaled_extent_exec(logical_height, scale);
    match overlay_position {
        OverlayPosition::Field => match text_target {
            Some(TextTarget::Caret(caret)) => caret_overlay_is_in_range(
                monitor_position,
                monitor_size,
                scale,
                width,
                height,
                caret,
            ),
            Some(TextTarget::Field(field)) => text_field_overlay_is_in_range(
                monitor_position,
                monitor_size,
                scale,
                width,
                height,
                field,
            ),
            None => true,
        },
        _ => true,
    }
}

/// The overlay size (logical points) for a UI state: the larger streaming
/// layout for `"streaming"`, the compact one for every other state.
pub open spec fn spec_overlay_dimensions(state: Seq<char>) -> (u32, u32) {
    if state == "streaming"@ {
        (OVERLAY_STREAM_WIDTH, OVERLAY_STREAM_HEIGHT)
    } else {
        (OVERLAY_WIDTH, OVERLAY_HEIGHT)
    }
}

/// Overlay window size (logical points) for a given UI state.
pub fn overlay_dimensions(state: &str) -> (r: (u32, u32))
    ensures
        r == spec_overlay_dimensions(state@),
{
    if str_equals(state, "streaming") {
        (OVERLAY_STREAM_WIDTH, OVERLAY_STREAM_HEIGHT)
    } else {
        (OVERLAY_WIDTH, OVERLAY_HEIGHT)
    }
}

/// The placement the overlay actually takes: `Field` without a known text
/// target falls back to the bottom-right corner.
pub open spec fn spec_effective_placement(configured: OverlayPosition, has_text_target: bool) -> OverlayPosition {
    if configured is Field && !has_text_target {
        OverlayPosition::BottomRight
    } else {
        configured
    }
}

/// The placement reported to the overlay's web view, so the card anchors to
/// the corner the window was actually put in.
pub fn effective_overlay_placement(configured: OverlayPosition, has_text_target: bool) -> (r: OverlayPosition)
    ensures
        r == spec_effective_placement(configured, has_text_target),
{
    match configured {
        OverlayPosition::Field => {
            if has_text_target {
                OverlayPosition::Field
            } else {
                OverlayPosition::BottomRight
            }
        },
        other => other,
    }
}

/// A monitor's bounds, in the coordinate space of the points it is tested with.
#[derive(Clone, Copy, Debug, PartialEq, Eq, Structural)]
pub struct MonitorArea {
    pub position: PhysicalPosition,
    pub size: PhysicalSize,
}

/// No monitor before `i` contains the point.
pub open spec fn none_before(monitors: Seq<MonitorArea>, point: (i32, i32), i: int) -> bool {
    forall|j: int| 0 <= j < i ==> !spec_within_monitor(point, #[trigger] monitors[j].position, monitors[j].size)
}

/// Every monitor that the search reaches is tested without `i32` overflow.
pub open spec fn monitor_search_in_range(monitors: Seq<MonitorArea>, point: (i32, i32)) -> bool {
    forall|i: int|
        0 <= i < monitors.len() && none_before(monitors, point, i) ==> within_monitor_in_range(
            point,
            #[trigger] monitors[i].position,
            monitors[i].size,
        )
}

/// The index of the first monitor that contains `point`, if any.
pub fn monitor_at_position(monitors: &Vec<MonitorArea>, point: (i32, i32)) -> (r: Option<usize>)
    requires
        monitor_search_in_range(monitors@, point),
    ensures
        match r {
            Some(i) => i < monitors@.len() && spec_within_monitor(
                point,
                monitors@[i as int].position,
                monitors@[i as int].size,
            ) && none_before(monitors@, point, i as int),
            None => none_before(monitors@, point, monitors@.len() as int),
        },
{
    let n = monitors.len();
    let mut i: usize = 0;
    while i < n
        invariant
            n == monitors@.len(),
            i <= n,
            none_before(monitors@, point, i as int),
            monitor_search_in_range(monitors@, point),
        decreases n - i,
    {
        let m = &monitors[i];
        if is_mouse_within_monitor(point, &m.position, &m.size) {
            return Some(i);
        }
        i = i + 1;
    }
    None
}

/// The state of microphone-level events sent to the overlay: whether the
/// overlay is enabled (cached from its style setting), and when the last event
/// went out.
#[derive(Clone, Copy, Debug, PartialEq, Eq, Structural)]
pub struct LevelEmitState {
    pub overlay_enabled: bool,
    pub last_emit_ms: u64,
}

/// Minimum spacing of level events: about 30 per second.
pub const EMIT_THROTTLE_MS: u64 = 33;

impl LevelEmitState {
    /// The state at startup: disabled until settings are loaded, nothing sent.
    pub fn new() -> (r: Self)
        ensures
            !r.overlay_enabled,
            r.last_emit_ms == 0,
    {
        LevelEmitState { overlay_enabled: false, last_emit_ms: 0 }
    }
}

/// The state with its cached overlay-enabled flag set to `enabled`.
pub open spec fn spec_update_enabled(state: LevelEmitState, enabled: bool) -> LevelEmitState {
    LevelEmitState { overlay_enabled: enabled, ..state }
}

/// Update the cached overlay-enabled flag (at startup after settings load,
/// and whenever the user changes whether the overlay is shown).
pub fn update_overlay_enabled_cache(state: &mut LevelEmitState, enabled: bool)
    ensures
        *final(state) == spec_update_enabled(*old(state), enabled),
{
    state.overlay_enabled = enabled;
}

/// `now.saturating_sub(last) < EMIT_THROTTLE_MS`: too soon after the last event.
pub open spec fn too_soon(now_ms: u64, last_ms: u64) -> bool {
    (if now_ms >= last_ms { now_ms - last_ms } else { 0 }) < EMIT_THROTTLE_MS
}

/// The decision for a level event at `now_ms` and the state afterwards.
pub open spec fn spec_emit_levels(state: LevelEmitState, now_ms: u64) -> (bool, LevelEmitState) {
    if state.overlay_enabled && !too_soon(now_ms, state.last_emit_ms) {
        (true, LevelEmitState { last_emit_ms: now_ms, ..state })
    } else {
        (false, state)
    }
}

/// Decides whether a level event goes out at `now_ms` (milliseconds since the
/// Unix epoch): only when the overlay is enabled and at least
/// `EMIT_THROTTLE_MS` have passed since the last one; an event that goes out
/// is recorded as the last.
pub fn should_emit_levels(state: &mut LevelEmitState, now_ms: u64) -> (r: bool)
    ensures
        (r, *final(state)) == spec_emit_levels(*old(state), now_ms),
{
    if !state.overlay_enabled {
        return false;
    }
    if now_ms.saturating_sub(state.last_emit_ms) < EMIT_THROTTLE_MS {
        return false;
    }
    state.last_emit_ms = now_ms;
    true
}

/// Values that turn a flag off: empty, `0`, `false`, `no`, `off`.
pub open spec fn is_falsy_flag(v: Seq<char>) -> bool {
    v == ""@ || v == "0"@ || v == "false"@ || v == "no"@ || v == "off"@
}

/// A set flag is enabled unless its trimmed, ASCII-lowercased value is falsy.
pub open spec fn spec_flag_value_enabled(value: Seq<char>) -> bool {
    !is_falsy_flag(ascii_lowercase(trim(value)))
}

/// Whether the value of a set environment variable turns its flag on:
/// `"1"`, `"true"`, `"yes"`, `"on"` and any other value do; `"0"`, `"false"`,
/// `"no"`, `"off"` and the empty string do not (case-insensitive, surrounding
/// whitespace ignored).
pub fn flag_value_enabled(value: &str) -> (r: bool)
    ensures
        r == spec_flag_value_enabled(value@),
{
    let (start, end) = trim_bounds(value);
    let falsy = range_lowers_to(value, start, end, "") || range_lowers_to(value, start, end, "0")
        || range_lowers_to(value, start, end, "false") || range_lowers_to(value, start, end, "no")
        || range_lowers_to(value, start, end, "off");
    !falsy
}

/// An environment flag is on when the variable is set (`Some`) to a value
/// that turns it on; an unset variable leaves it off.
pub fn env_flag_enabled(value: Option<&str>) -> (r: bool)
    ensures
        r == (value matches Some(v) && spec_flag_value_enabled(v@)),
{
    match value {
        Some(v) => flag_value_enabled(v),
        None => false,
    }
}

/// The rectangle and the placement reported to the overlay agree: placing at
/// the configured position gives the same rectangle as placing at the
/// effective placement that is reported.
pub proof fn law_reported_placement_matches_bounds(
    p: PhysicalPosition,
    s: PhysicalSize,
    scale: ScaleFactor,
    logical_width: u32,
    logical_height: u32,
    position: OverlayPosition,
    text_target: Option<TextTarget>,
)
    ensures
        spec_windows_overlay_bounds(
            p,
            s,
            scale,
            logical_width as int,
            logical_height as int,
            position,
            text_target,
        ) == spec_windows_overlay_bounds(
            p,
            s,
            scale,
            logical_width as int,
            logical_height as int,
            spec_effective_placement(position, text_target is Some),
            text_target,
        ),
{
}

/// Beside a caret the overlay sits to the caret's right, a gap away, whenever
/// that spot lies in the monitor's band; otherwise to its left when that spot
/// lies in the band. Vertically it is centred on the caret when that fits.
pub proof fn law_caret_overlay_prefers_right(
    p: PhysicalPosition,
    s: PhysicalSize,
    scale: ScaleFactor,
    width: int,
    height: int,
    caret: ScreenRect,
)
    ensures
        ({
            let gap = field_gap(scale);
            let gutter = field_gutter(scale);
            let r = spec_caret_overlay_bounds(p, s, scale, width, height, caret);
            &&& band_min_x(p, gutter) <= caret.2 + gap <= band_max_x(p, s, width, gutter) ==> r.0
                == caret.2 + gap
            &&& (caret.2 + gap > band_max_x(p, s, width, gutter) && band_min_x(p, gutter)
                <= caret.0 - gap - width <= band_max_x(p, s, width, gutter)) ==> r.0 == caret.0 - gap
                - width
            &&& band_min_y(p, gutter) <= caret.1 + half_toward_zero(caret.3 - caret.1 - height)
                <= band_max_y(p, s, height, gutter) ==> r.1 == caret.1 + half_toward_zero(
                caret.3 - caret.1 - height,
            )
        }),
{
}

/// Beside a focused field the overlay is right-aligned with the field when
/// that fits, and sits just above the field when there is room, else just
/// below it when that fits.
pub proof fn law_field_overlay_above_then_below(
    p: PhysicalPosition,
    s: PhysicalSize,
    scale: ScaleFactor,
    width: int,
    height: int,
    field: ScreenRect,
)
    ensures
        ({
            let gap = field_gap(scale);
            let gutter = field_gutter(scale);
            let r = spec_text_field_overlay_bounds(p, s, scale, width, height, field);
            let above = field_above_y(scale, height, field);
            &&& band_min_y(p, gutter) <= above <= band_max_y(p, s, height, gutter) ==> r.1 == above
            &&& (above < band_min_y(p, gutter) && band_min_y(p, gutter) <= field.3 + gap
                <= band_max_y(p, s, height, gutter)) ==> r.1 == field.3 + gap
            &&& (!field_is_too_wide(s, scale, field) && band_min_x(p, gutter) <= field.2 - width
                <= band_max_x(p, s, width, gutter)) ==> r.0 == field.2 - width
        }),
{
}

/// Beside a caret, in terms of the inputs: with `gutter` and `gap` the scaled
/// margins, the overlay's x is the spot right of the caret when the overlay
/// fits there (else left of it) clamped into `[p.x + gutter, right edge -
/// width - gutter]`, and its y is the caret's centre line (`top + (bottom -
/// top - height) / 2`, truncating) clamped into `[p.y + gutter, bottom edge -
/// height - gutter]`; on a monitor too small for that band the coordinate is
/// the monitor's origin. The size is kept.
pub proof fn law_caret_overlay_is_clamped_beside_caret(
    p: PhysicalPosition,
    s: PhysicalSize,
    scale: ScaleFactor,
    width: int,
    height: int,
    caret: ScreenRect,
)
    ensures
        ({
            let gutter = field_gutter(scale);
            let gap = field_gap(scale);
            let right_edge = p.x + (s.width as i32);
            let bottom_edge = p.y + (s.height as i32);
            let lo_x = p.x + gutter;
            let hi_x = right_edge - width - gutter;
            let lo_y = p.y + gutter;
            let hi_y = bottom_edge - height - gutter;
            let want_x = if caret.2 + gap + width <= right_edge - gutter {
                caret.2 + gap
            } else {
                caret.0 - gap - width
            };
            let span = caret.3 - caret.1 - height;
            let centre = caret.1 + (if span >= 0 { span / 2 } else { -((-span) / 2) });
            let r = spec_caret_overlay_bounds(p, s, scale, width, height, caret);
            &&& lo_x <= hi_x ==> r.0 == (if want_x < lo_x {
                lo_x
            } else if want_x > hi_x {
                hi_x
            } else {
                want_x
            })
            &&& lo_x > hi_x ==> r.0 == p.x
            &&& lo_y <= hi_y ==> r.1 == (if centre < lo_y {
                lo_y
            } else if centre > hi_y {
                hi_y
            } else {
                centre
            })
            &&& lo_y > hi_y ==> r.1 == p.y
            &&& r.2 == width && r.3 == height
        }),
{
}

/// Beside a focused field, in terms of the inputs: the overlay's y is just
/// above the field (`top - gap - height`) when that is not above `p.y +
/// gutter`, else just below it (`bottom + gap`), clamped into the band; its x
/// is right-aligned with the field (`right - width`) clamped into the band,
/// or, for a field wider than the monitor minus both gutters, the field's
/// left edge clamped into the band. On a monitor too small for the band the
/// coordinate is the monitor's origin. The size is kept.
pub proof fn law_field_overlay_is_clamped_beside_field(
    p: PhysicalPosition,
    s: PhysicalSize,
    scale: ScaleFactor,
    width: int,
    height: int,
    field: ScreenRect,
)
    ensures
        ({
            let gutter = field_gutter(scale);
            let gap = field_gap(scale);
            let lo_x = p.x + gutter;
            let hi_x = p.x + (s.width as i32) - width - gutter;
            let lo_y = p.y + gutter;
            let hi_y = p.y + (s.height as i32) - height - gutter;
            let above = field.1 - gap - height;
            let want_y = if above >= lo_y { above } else { field.3 + gap };
            let too_wide = field.2 - field.0 > (s.width as i32) - gutter * 2;
            let r = spec_text_field_overlay_bounds(p, s, scale, width, height, field);
            &&& lo_y <= hi_y ==> r.1 == (if want_y < lo_y {
                lo_y
            } else if want_y > hi_y {
                hi_y
            } else {
                want_y
            })
            &&& lo_y > hi_y ==> r.1 == p.y
            &&& (!too_wide && lo_x <= hi_x) ==> r.0 == (if field.2 - width < lo_x {
                lo_x
            } else if field.2 - width > hi_x {
                hi_x
            } else {
                field.2 - width
            })
            &&& (!too_wide && lo_x > hi_x) ==> r.0 == p.x
            &&& (too_wide && lo_x <= hi_x) ==> r.0 == (if field.0 < lo_x {
                lo_x
            } else if field.0 > hi_x {
                hi_x
            } else {
                field.0 as int
            })
            &&& r.2 == width && r.3 == height
        }),
{
}

/// The monitor hit test, in terms of the inputs: a point is on the monitor
/// exactly when `x <= px < x + width` and `y <= py < y + height`. A point
/// above or left of the monitor is never on it, nor one on its right or
/// bottom edge.
pub proof fn law_hit_test_is_half_open(point: (i32, i32), p: PhysicalPosition, s: PhysicalSize)
    ensures
        spec_within_monitor(point, p, s) == (p.x <= point.0 && point.0 < p.x + (s.width as i32)
            && p.y <= point.1 && point.1 < p.y + (s.height as i32)),
{
}

/// The monitor search returns the first monitor whose half-open bounds hold
/// the point: every monitor before it lies elsewhere.
pub proof fn law_monitor_search_finds_first_containing(
    monitors: Seq<MonitorArea>,
    point: (i32, i32),
    i: int,
)
    requires
        0 <= i <= monitors.len(),
        none_before(monitors, point, i),
    ensures
        forall|j: int|
            0 <= j < i ==> !(monitors[j].position.x <= point.0 && point.0 < monitors[j].position.x
                + (monitors[j].size.width as i32) && monitors[j].position.y <= point.1 && point.1
                < monitors[j].position.y + (monitors[j].size.height as i32)),
{
    assert forall|j: int| 0 <= j < i implies !(monitors[j].position.x <= point.0 && point.0
        < monitors[j].position.x + (monitors[j].size.width as i32) && monitors[j].position.y
        <= point.1 && point.1 < monitors[j].position.y + (monitors[j].size.height as i32)) by {
        assert(!spec_within_monitor(point, monitors[j].position, monitors[j].size));
    }
}

proof fn lemma_round_exact(k: int, d: int)
    requires
        d > 0,
    ensures
        round_ratio(k * d, d) == k,
{
    if k >= 0 {
        assert(k * d >= 0) by (nonlinear_arith)
            requires
                d > 0,
                k >= 0,
        ;
        assert((2 * (k * d) + d) / (2 * d) == k) by (nonlinear_arith)
            requires
                d > 0,
                k >= 0,
        ;
    } else {
        assert(k * d < 0) by (nonlinear_arith)
            requires
                d > 0,
                k < 0,
        ;
        assert(-2 * (k * d) + d == 2 * ((-k) * d) + d) by (nonlinear_arith);
        assert((2 * ((-k) * d) + d) / (2 * d) == -k) by (nonlinear_arith)
            requires
                d > 0,
                k < 0,
        ;
    }
}

/// On a monitor at scale 1 the corners anchor exactly to the requested screen
/// edges: 24 px from the left or right edge, 4 px below the top edge or 40 px
/// above the bottom edge, with the logical size unchanged.
pub proof fn law_unit_scale_corners(
    p: PhysicalPosition,
    s: PhysicalSize,
    scale: ScaleFactor,
    logical_width: u32,
    logical_height: u32,
    position: OverlayPosition,
)
    requires
        scale.wf(),
        scale.numerator == scale.denominator,
        1 <= logical_width <= i32::MAX,
        1 <= logical_height <= i32::MAX,
    ensures
        ({
            let r = spec_windows_overlay_bounds(
                p,
                s,
                scale,
                logical_width as int,
                logical_height as int,
                position,
                None,
            );
            &&& r.2 == logical_width && r.3 == logical_height
            &&& position.spec_is_left() ==> r.0 == saturate_i32(p.x + OVERLAY_EDGE_OFFSET)
            &&& !position.spec_is_left() ==> r.0 == saturate_i32(
                p.x + s.width - logical_width - OVERLAY_EDGE_OFFSET,
            )
            &&& position.spec_is_top() ==> r.1 == saturate_i32(p.y + OVERLAY_TOP_OFFSET)
            &&& !position.spec_is_top() ==> r.1 == saturate_i32(
                p.y + s.height - logical_height - OVERLAY_BOTTOM_OFFSET,
            )
        }),
{
    let d = scale.denominator as int;
    assert(logical_width * scale.numerator == (logical_width as int) * d);
    lemma_round_exact(logical_width as int, d);
    lemma_round_exact(logical_height as int, d);
    let w = logical_width as int;
    let h = logical_height as int;
    assert((p.x as int) * d + 24 * d == (p.x + 24) * d) by (nonlinear_arith);
    lemma_round_exact(p.x + 24, d);
    assert((p.x + s.width - w) * d + (-24) * d == (p.x + s.width - w - 24) * d) by (nonlinear_arith);
    lemma_round_exact(p.x + s.width - w - 24, d);
    assert((p.y as int) * d + 4 * d == (p.y + 4) * d) by (nonlinear_arith);
    lemma_round_exact(p.y + 4, d);
    assert((p.y + s.height - h) * d + (-40) * d == (p.y + s.height - h - 40) * d) by (nonlinear_arith);
    lemma_round_exact(p.y + s.height - h - 40, d);
}

/// Level events that go out are at least `EMIT_THROTTLE_MS` apart, whatever
/// the clock did in between.
pub proof fn law_level_events_are_spaced(state: LevelEmitState, first_ms: u64, second_ms: u64)
    requires
        spec_emit_levels(state, first_ms).0,
        spec_emit_levels(spec_emit_levels(state, first_ms).1, second_ms).0,
    ensures
        second_ms >= first_ms + EMIT_THROTTLE_MS,
{
}

/// While the overlay is disabled (at startup, until settings are loaded, and
/// after it is turned off) no level event goes out and nothing changes.
pub proof fn law_disabled_overlay_emits_nothing(state: LevelEmitState, now_ms: u64)
    requires
        !state.overlay_enabled,
    ensures
        spec_emit_levels(state, now_ms) == (false, state),
{
}

/// The cached flag is what was last written to it.
pub proof fn law_enabled_cache_holds_last_update(state: LevelEmitState, first: bool, second: bool)
    ensures
        spec_update_enabled(spec_update_enabled(state, first), second).overlay_enabled == second,
        spec_update_enabled(spec_update_enabled(state, first), second).last_emit_ms
            == state.last_emit_ms,
{
}

proof fn lemma_lower_keeps_white_space(c: char)
    ensures
        is_white_space(ascii_lower(c)) == is_white_space(c),
{
}

proof fn lemma_trim_start_lower(v: Seq<char>)
    ensures
        trim_start(ascii_lowercase(v)) == ascii_lowercase(trim_start(v)),
    decreases v.len(),
{
    let lv = ascii_lowercase(v);
    if v.len() > 0 {
        lemma_lower_keeps_white_space(v[0]);
        assert(lv[0] == ascii_lower(v[0]));
        if is_white_space(v[0]) {
            assert(lv.drop_first() =~= ascii_lowercase(v.drop_first()));
            lemma_trim_start_lower(v.drop_first());
        }
    }
}

proof fn lemma_trim_end_lower(v: Seq<char>)
    ensures
        trim_end(ascii_lowercase(v)) == ascii_lowercase(trim_end(v)),
    decreases v.len(),
{
    let lv = ascii_lowercase(v);
    if v.len() > 0 {
        lemma_lower_keeps_white_space(v.last());
        assert(lv.last() == ascii_lower(v.last()));
        if is_white_space(v.last()) {
            assert(lv.drop_last() =~= ascii_lowercase(v.drop_last()));
            lemma_trim_end_lower(v.drop_last());
        }
    }
}

proof fn lemma_lower_idempotent(v: Seq<char>)
    ensures
        ascii_lowercase(ascii_lowercase(v)) == ascii_lowercase(v),
{
    assert(ascii_lowercase(ascii_lowercase(v)) =~= ascii_lowercase(v));
}

/// Flag values are case-insensitive: a value and its ASCII-lowercased form
/// turn the flag on or off alike.
pub proof fn law_flag_case_insensitive(value: Seq<char>)
    ensures
        spec_flag_value_enabled(value) == spec_flag_value_enabled(ascii_lowercase(value)),
{
    lemma_trim_start_lower(value);
    lemma_trim_end_lower(trim_start(value));
    lemma_lower_idempotent(trim(value));
}

proof fn lemma_trim_start_idempotent(v: Seq<char>)
    ensures
        trim_start(trim_start(v)) == trim_start(v),
        trim_start(v).len() > 0 ==> !is_white_space(trim_start(v)[0]),
    decreases v.len(),
{
    if v.len() > 0 && is_white_space(v[0]) {
        lemma_trim_start_idempotent(v.drop_first());
    }
}

proof fn lemma_trim_end_keeps_front(v: Seq<char>)
    requires
        v.len() > 0 ==> !is_white_space(v[0]),
    ensures
        trim_start(trim_end(v)) == trim_end(v),
        trim_end(trim_end(v)) == trim_end(v),
    decreases v.len(),
{
    if v.len() > 0 && is_white_space(v.last()) {
        if v.len() > 1 {
            assert(v.drop_last()[0] == v[0]);
        }
        lemma_trim_end_keeps_front(v.drop_last());
    }
}

/// Surrounding whitespace does not matter: a value and its trimmed form turn
/// the flag on or off alike.
pub proof fn law_flag_ignores_surrounding_whitespace(value: Seq<char>)
    ensures
        spec_flag_value_enabled(value) == spec_flag_value_enabled(trim(value)),
{
    lemma_trim_start_idempotent(value);
    lemma_trim_end_keeps_front(trim_start(value));
}

} // verus!

verus! {

/// `round_ratio(p, q)` is `p / q` rounded to the nearest integer with halves
/// away from zero: for `p >= 0` it is the `r` with `r - 1/2 <= p/q < r + 1/2`,
/// and it is odd-symmetric, `round(-p/q) == -round(p/q)`.
pub proof fn law_round_ratio_is_nearest_half_away(p: int, q: int)
    requires
        q > 0,
    ensures
        p >= 0 ==> 2 * round_ratio(p, q) * q <= 2 * p + q && 2 * p + q < 2 * (round_ratio(p, q) + 1)
            * q,
        p < 0 ==> 2 * (-round_ratio(p, q)) * q <= -2 * p + q && -2 * p + q < 2 * (-round_ratio(
            p,
            q,
        ) + 1) * q,
        round_ratio(-p, q) == -round_ratio(p, q) || p == 0,
{
    let n = if p >= 0 { 2 * p + q } else { -2 * p + q };
    let m = n / (2 * q);
    assert(m * (2 * q) <= n < (m + 1) * (2 * q)) by (nonlinear_arith)
        requires
            q > 0,
            n >= 0,
            m == n / (2 * q),
    ;
    assert(2 * m * q == m * (2 * q) && 2 * (m + 1) * q == (m + 1) * (2 * q)) by (nonlinear_arith);
}

/// A float-to-`i32` cast saturates: values in range are kept, values below
/// or above go to `i32::MIN` or `i32::MAX`.
pub proof fn law_saturate_i32(v: int)
    ensures
        (i32::MIN <= v <= i32::MAX) ==> saturate_i32(v) == v,
        v < i32::MIN ==> saturate_i32(v) == -0x8000_0000,
        v > i32::MAX ==> saturate_i32(v) == 0x7fff_ffff,
{
}

/// A corner placement, in terms of the inputs: the size is the logical size
/// times the scale, rounded, at least 1; the left corners sit `round(x + 24 *
/// scale)`, the right ones `round(x + width_px - w - 24 * scale)`; the top
/// corners `round(y + 4 * scale)`, the bottom ones `round(y + height_px - h -
/// 40 * scale)`; all saturated to `i32`. `Field` without a text target uses
/// the bottom-right corner.
pub proof fn law_corner_placement(
    p: PhysicalPosition,
    s: PhysicalSize,
    scale: ScaleFactor,
    logical_width: int,
    logical_height: int,
    position: OverlayPosition,
)
    requires
        scale.wf(),
    ensures
        ({
            let num = scale.numerator as int;
            let den = scale.denominator as int;
            let rw = round_ratio(logical_width * num, den);
            let rh = round_ratio(logical_height * num, den);
            let r = spec_windows_overlay_bounds(
                p,
                s,
                scale,
                logical_width,
                logical_height,
                position,
                None,
            );
            let left = position is TopLeft || position is BottomLeft;
            let top = position is TopLeft || position is TopRight;
            &&& r.2 == saturate_i32(if rw < 1 { 1 } else { rw })
            &&& r.3 == saturate_i32(if rh < 1 { 1 } else { rh })
            &&& left ==> r.0 == saturate_i32(round_ratio(p.x * den + 24 * num, den))
            &&& !left ==> r.0 == saturate_i32(round_ratio((p.x + s.width - r.2) * den - 24 * num, den))
            &&& top ==> r.1 == saturate_i32(round_ratio(p.y * den + 4 * num, den))
            &&& !top ==> r.1 == saturate_i32(round_ratio((p.y + s.height - r.3) * den - 40 * num, den))
        }),
{
}

/// The reported placement: `Field` without a text target is reported as the
/// bottom-right corner; every other configuration is reported as configured.
pub proof fn law_effective_placement(configured: OverlayPosition, has_text_target: bool)
    ensures
        (configured is Field && !has_text_target) ==> spec_effective_placement(
            configured,
            has_text_target,
        ) == OverlayPosition::BottomRight,
        !(configured is Field && !has_text_target) ==> spec_effective_placement(
            configured,
            has_text_target,
        ) == configured,
{
}

/// The overlay is 492 x 164 points in the `streaming` state and 320 x 68 in
/// every other state.
pub proof fn law_overlay_dimensions(state: Seq<char>)
    ensures
        state =~= seq!['s', 't', 'r', 'e', 'a', 'm', 'i', 'n', 'g'] ==> spec_overlay_dimensions(state)
            == (492u32, 164u32),
        !(state =~= seq!['s', 't', 'r', 'e', 'a', 'm', 'i', 'n', 'g']) ==> spec_overlay_dimensions(
            state,
        ) == (320u32, 68u32),
{
    reveal_strlit("streaming");
    assert("streaming"@ =~= seq!['s', 't', 'r', 'e', 'a', 'm', 'i', 'n', 'g']);
}

/// A level event goes out exactly when the overlay is enabled and at least
/// 33 ms have passed since the last one (a clock that went back counts as no
/// time); an event that goes out is recorded with its time, and nothing else
/// changes.
pub proof fn law_level_event_decision(state: LevelEmitState, now_ms: u64)
    ensures
        spec_emit_levels(state, now_ms).0 == (state.overlay_enabled && now_ms >= state.last_emit_ms
            + 33),
        spec_emit_levels(state, now_ms).0 ==> spec_emit_levels(state, now_ms).1.overlay_enabled
            == state.overlay_enabled && spec_emit_levels(state, now_ms).1.last_emit_ms == now_ms,
        !spec_emit_levels(state, now_ms).0 ==> spec_emit_levels(state, now_ms).1 == state,
        spec_update_enabled(state, true).overlay_enabled && !spec_update_enabled(
            state,
            false,
        ).overlay_enabled,
{
}

/// A set flag is off exactly when its value, trimmed and folded to lower
/// case, is empty, `0`, `false`, `no` or `off`; every other value turns it on.
pub proof fn law_flag_falsy_values(value: Seq<char>)
    ensures
        ({
            let t = ascii_lowercase(trim(value));
            spec_flag_value_enabled(value) == !(t.len() == 0 || t =~= seq!['0'] || t =~= seq![
                'f',
                'a',
                'l',
                's',
                'e',
            ] || t =~= seq!['n', 'o'] || t =~= seq!['o', 'f', 'f'])
        }),
{
    reveal_strlit("");
    reveal_strlit("0");
    reveal_strlit("false");
    reveal_strlit("no");
    reveal_strlit("off");
    assert(""@ =~= Seq::<char>::empty());
    assert("0"@ =~= seq!['0']);
    assert("false"@ =~= seq!['f', 'a', 'l', 's', 'e']);
    assert("no"@ =~= seq!['n', 'o']);
    assert("off"@ =~= seq!['o', 'f', 'f']);
    let t = ascii_lowercase(trim(value));
    if t.len() == 0 {
        assert(t =~= ""@);
    }
}

} // verus!

verus! {

/// Which placement is used: with the `Field` position and a caret, the
/// overlay goes beside the caret; with the `Field` position and only a field,
/// beside the field; in every other case (a corner position, or no text
/// target) in a corner. The pixel size is the scaled logical size in every
/// case.
pub proof fn law_placement_follows_position_and_target(
    p: PhysicalPosition,
    s: PhysicalSize,
    scale: ScaleFactor,
    logical_width: int,
    logical_height: int,
    position: OverlayPosition,
    text_target: Option<TextTarget>,
)
    ensures
        ({
            let w = scaled_extent(logical_width, scale);
            let h = scaled_extent(logical_height, scale);
            let r = spec_windows_overlay_bounds(
                p,
                s,
                scale,
                logical_width,
                logical_height,
                position,
                text_target,
            );
            &&& position is Field ==> (text_target matches Some(TextTarget::Caret(c)) ==> r
                == spec_caret_overlay_bounds(p, s, scale, w, h, c))
            &&& position is Field ==> (text_target matches Some(TextTarget::Field(f)) ==> r
                == spec_text_field_overlay_bounds(p, s, scale, w, h, f))
            &&& !(position is Field && text_target is Some) ==> r == spec_windows_overlay_bounds(
                p,
                s,
                scale,
                logical_width,
                logical_height,
                position,
                None,
            )
            &&& r.2 == w && r.3 == h
        }),
{
}

} // verus!
