//! The focused application's text target (caret or text field) and the
//! short-lived cache that keeps repeated lookups cheap.
use vstd::prelude::*;

verus! {

/// A rectangle in physical screen pixels: `(left, top, right, bottom)`.
pub type ScreenRect = (i32, i32, i32, i32);

/// Where the focused text lives: an exact caret rectangle, or only the
/// bounding rectangle of the focused text field.
#[derive(Clone, Copy, Debug, PartialEq, Eq)]
pub enum TextTarget {
    Caret(ScreenRect),
    Field(ScreenRect),
}

impl TextTarget {
    /// The rectangle carried by either kind of target.
    pub open spec fn spec_rect(self) -> ScreenRect {
        match self {
            TextTarget::Caret(r) => r,
            TextTarget::Field(r) => r,
        }
    }

    /// Returns the rectangle of the target, whichever kind it is.
    pub fn rect(self) -> (r: ScreenRect)
        ensures
            r == self.spec_rect(),
    {
        match self {
            TextTarget::Caret(rect) => rect,
            TextTarget::Field(rect) => rect,
        }
    }
}

/// A screen rectangle is usable when it is not inverted horizontally and has a
/// positive height (a caret may be zero pixels wide).
pub open spec fn is_usable_screen_rect(left: int, top: int, right: int, bottom: int) -> bool {
    right >= left && bottom > top
}

/// Keeps a rectangle only when it is usable.
pub fn normalize_screen_rect(left: i32, top: i32, right: i32, bottom: i32) -> (r: Option<ScreenRect>)
    ensures
        r == (if is_usable_screen_rect(left as int, top as int, right as int, bottom as int) {
            Some((left, top, right, bottom))
        } else {
            None
        }),
{
    if right >= left && bottom > top {
        Some((left, top, right, bottom))
    } else {
        None
    }
}

/// A rectangle is kept exactly when it is not inverted horizontally and has a
/// positive height, wherever it lies: negative coordinates (monitors left of
/// or above the primary one) are kept like any others.
pub proof fn law_usable_rects_are_kept(left: i32, top: i32, right: i32, bottom: i32)
    ensures
        is_usable_screen_rect(left as int, top as int, right as int, bottom as int) == (right
            >= left && bottom > top),
        (right >= left && bottom > top) ==> (if is_usable_screen_rect(
            left as int,
            top as int,
            right as int,
            bottom as int,
        ) {
            Some((left, top, right, bottom))
        } else {
            None::<ScreenRect>
        }) == Some((left, top, right, bottom)),
{
}

/// The caret rectangle spanned by two converted corner points (in either
/// order), when it is usable.
pub fn caret_rect_from_corners(top_left: (i32, i32), bottom_right: (i32, i32)) -> (r: Option<ScreenRect>)
    ensures
        ({
            let left = if top_left.0 <= bottom_right.0 { top_left.0 } else { bottom_right.0 };
            let right = if top_left.0 <= bottom_right.0 { bottom_right.0 } else { top_left.0 };
            let top = if top_left.1 <= bottom_right.1 { top_left.1 } else { bottom_right.1 };
            let bottom = if top_left.1 <= bottom_right.1 { bottom_right.1 } else { top_left.1 };
            r == if is_usable_screen_rect(left as int, top as int, right as int, bottom as int) {
                Some((left, top, right, bottom))
            } else {
                None
            }
        }),
{
    let left = if top_left.0 <= bottom_right.0 { top_left.0 } else { bottom_right.0 };
    let right = if top_left.0 <= bottom_right.0 { bottom_right.0 } else { top_left.0 };
    let top = if top_left.1 <= bottom_right.1 { top_left.1 } else { bottom_right.1 };
    let bottom = if top_left.1 <= bottom_right.1 { bottom_right.1 } else { top_left.1 };
    normalize_screen_rect(left, top, right, bottom)
}

/// UI Automation control type of an edit control.
pub const UIA_EDIT_CONTROL_TYPE_ID: i32 = 50004;
/// UI Automation control type of a document control.
pub const UIA_DOCUMENT_CONTROL_TYPE_ID: i32 = 50030;

/// Whether the focused element's bounding rectangle may stand in for the text
/// target when no caret was found: it must support a text pattern or be an
/// edit or document control.
pub fn field_fallback_allowed(text_pattern_supported: bool, control_type: i32) -> (r: bool)
    ensures
        r == (text_pattern_supported || control_type == UIA_EDIT_CONTROL_TYPE_ID || control_type
            == UIA_DOCUMENT_CONTROL_TYPE_ID),
{
    !(!text_pattern_supported && control_type != UIA_EDIT_CONTROL_TYPE_ID && control_type
        != UIA_DOCUMENT_CONTROL_TYPE_ID)
}

/// How long a looked-up text target is reused: 500 ms, in nanoseconds.
pub const TEXT_TARGET_FRESH_NANOS: u64 = 500_000_000;

/// The last looked-up text target and the monotonic time (nanoseconds) at
/// which it was captured.
#[derive(Clone, Copy, Debug, PartialEq, Eq)]
pub struct TextTargetCache {
    pub entry: Option<(u64, Option<TextTarget>)>,
}

impl TextTargetCache {
    /// An empty cache.
    pub fn new() -> (r: Self)
        ensures
            r.entry is None,
    {
        TextTargetCache { entry: None }
    }
}

/// `now.saturating_sub(captured) < 500 ms`, as `Instant::elapsed` measures.
pub open spec fn is_fresh(captured_nanos: u64, now_nanos: u64) -> bool {
    (if now_nanos >= captured_nanos { now_nanos - captured_nanos } else { 0 }) < TEXT_TARGET_FRESH_NANOS
}

/// The cached answer at `now_nanos`, when one is still fresh.
pub open spec fn spec_cached_target(cache: TextTargetCache, now_nanos: u64) -> Option<Option<TextTarget>> {
    match cache.entry {
        Some((captured, target)) => if is_fresh(captured, now_nanos) {
            Some(target)
        } else {
            None
        },
        None => None,
    }
}

/// The target that a fresh lookup yields: the legacy caret when the cheap
/// legacy lookup finds one, else the UI Automation answer.
pub open spec fn spec_preferred_target(legacy: Option<ScreenRect>, uia: Option<TextTarget>) -> Option<TextTarget> {
    match legacy {
        Some(rect) => Some(TextTarget::Caret(rect)),
        None => uia,
    }
}

/// The answer at `now_nanos`: the cached target while it is fresh, else the
/// target that the lookups `legacy` and `uia` yield.
pub open spec fn spec_text_target(
    cache: TextTargetCache,
    now_nanos: u64,
    legacy: Option<ScreenRect>,
    uia: Option<TextTarget>,
) -> Option<TextTarget> {
    match spec_cached_target(cache, now_nanos) {
        Some(cached) => cached,
        None => spec_preferred_target(legacy, uia),
    }
}

/// Looks the target up afresh: the legacy caret first (`legacy`, cheap), and
/// only when it finds none, UI Automation (`uia`).
pub fn detect_text_target<L: FnOnce() -> Option<ScreenRect>, U: FnOnce() -> Option<TextTarget>>(
    legacy: L,
    uia: U,
) -> (r: Option<TextTarget>)
    requires
        legacy.requires(()),
        uia.requires(()),
    ensures
        exists|caret: Option<ScreenRect>|
            {
                &&& #[trigger] legacy.ensures((), caret)
                &&& match caret {
                    Some(rect) => r == Some(TextTarget::Caret(rect)),
                    None => uia.ensures((), r),
                }
            },
{
    match legacy() {
        Some(rect) => Some(TextTarget::Caret(rect)),
        None => uia(),
    }
}

/// Returns the focused application's caret or text-field rectangle in
/// physical screen pixels, with whether it was looked up afresh. A lookup
/// made less than 500 ms before `now_nanos` is reused; otherwise the legacy
/// caret is tried first and UI Automation only when there is none. A fresh
/// answer is to be recorded with `record_text_target` and the time it arrived.
pub fn get_text_target<L: FnOnce() -> Option<ScreenRect>, U: FnOnce() -> Option<TextTarget>>(
    cache: &TextTargetCache,
    now_nanos: u64,
    legacy: L,
    uia: U,
) -> (r: (Option<TextTarget>, bool))
    requires
        legacy.requires(()),
        uia.requires(()),
    ensures
        match spec_cached_target(*cache, now_nanos) {
            Some(cached) => r == (cached, false),
            None => r.1 && exists|caret: Option<ScreenRect>, answer: Option<TextTarget>|
                {
                    &&& legacy.ensures((), caret)
                    &&& (caret is None ==> uia.ensures((), answer))
                    &&& r.0 == #[trigger] spec_text_target(*cache, now_nanos, caret, answer)
                },
        },
{
    match cache.entry {
        Some((captured, target)) => {
            if now_nanos.saturating_sub(captured) < TEXT_TARGET_FRESH_NANOS {
                return (target, false);
            }
        },
        None => {},
    }
    let target = detect_text_target(legacy, uia);
    proof {
        let caret = choose|caret: Option<ScreenRect>|
            #[trigger] legacy.ensures((), caret) && match caret {
                Some(rect) => target == Some(TextTarget::Caret(rect)),
                None => uia.ensures((), target),
            };
        assert(legacy.ensures((), caret));
        assert(caret is None ==> uia.ensures((), target));
        assert(target == spec_text_target(*cache, now_nanos, caret, target));
        assert(legacy.ensures((), caret) && (caret is None ==> uia.ensures((), target)) && target
            == spec_text_target(*cache, now_nanos, caret, target));
    }
    (target, true)
}

/// Records a freshly looked-up target with the time `captured_nanos` at which
/// it arrived.
pub fn record_text_target(cache: &mut TextTargetCache, captured_nanos: u64, target: Option<TextTarget>)
    ensures
        final(cache).entry == Some((captured_nanos, target)),
{
    cache.entry = Some((captured_nanos, target));
}

/// A target looked up less than 500 ms ago is answered from the cache: a call
/// soon after recording an answer returns that same answer.
pub proof fn law_recent_target_is_reused(
    cache: TextTargetCache,
    captured: u64,
    target: Option<TextTarget>,
    now: u64,
    legacy: Option<ScreenRect>,
    uia: Option<TextTarget>,
)
    requires
        cache.entry == Some((captured, target)),
        captured <= now < captured + TEXT_TARGET_FRESH_NANOS,
    ensures
        spec_cached_target(cache, now) == Some(target),
        spec_text_target(cache, now, legacy, uia) == target,
{
}

/// A target looked up 500 ms ago or earlier is looked up again.
pub proof fn law_stale_target_is_refreshed(captured: u64, target: Option<TextTarget>, now: u64)
    requires
        now >= captured + TEXT_TARGET_FRESH_NANOS,
    ensures
        spec_cached_target(TextTargetCache { entry: Some((captured, target)) }, now) is None,
{
}

/// A target whose rectangle is usable (not inverted, positive height); `None`
/// counts as such.
pub open spec fn is_normalized_target(target: Option<TextTarget>) -> bool {
    match target {
        Some(t) => {
            let r = t.spec_rect();
            is_usable_screen_rect(r.0 as int, r.1 as int, r.2 as int, r.3 as int)
        },
        None => true,
    }
}

/// Every target in the cache is normalized.
pub open spec fn cache_is_normalized(cache: TextTargetCache) -> bool {
    cache.entry matches Some((_, target)) ==> is_normalized_target(target)
}

/// Every returned target is a normalized rectangle: when the cache holds only
/// normalized targets and both lookups give normalized rectangles (as
/// `caret_rect_from_corners` and `normalize_screen_rect` do), so does the
/// answer, and recording it keeps the cache normalized.
pub proof fn law_returned_targets_are_normalized(
    cache: TextTargetCache,
    now: u64,
    legacy: Option<ScreenRect>,
    uia: Option<TextTarget>,
    captured: u64,
)
    requires
        cache_is_normalized(cache),
        legacy matches Some(r) ==> is_usable_screen_rect(r.0 as int, r.1 as int, r.2 as int, r.3 as int),
        is_normalized_target(uia),
    ensures
        is_normalized_target(spec_text_target(cache, now, legacy, uia)),
        cache_is_normalized(
            TextTargetCache { entry: Some((captured, spec_text_target(cache, now, legacy, uia))) },
        ),
{
}

/// An empty cache is normalized.
pub proof fn law_empty_cache_is_normalized()
    ensures
        cache_is_normalized(TextTargetCache { entry: None }),
{
}

} // verus!

verus! {

/// Which target a lookup returns, in terms of the inputs: with no cached
/// target, or one captured 500 ms or more before `now`, the legacy caret
/// wins when there is one (`Caret(rect)`), and otherwise the UI Automation
/// answer is returned as it is; a target captured less than 500 ms before
/// `now` (or stamped later than `now`) is returned instead.
pub proof fn law_legacy_caret_wins(
    cache: TextTargetCache,
    now: u64,
    legacy: Option<ScreenRect>,
    uia: Option<TextTarget>,
)
    ensures
        (cache.entry is None || (cache.entry matches Some((captured, _)) && now >= captured
            + 500_000_000)) ==> spec_text_target(cache, now, legacy, uia) == match legacy {
            Some(rect) => Some(TextTarget::Caret(rect)),
            None => uia,
        },
        cache.entry matches Some((captured, target)) ==> (now < captured + 500_000_000
            ==> spec_text_target(cache, now, legacy, uia) == target),
{
}

} // verus!
