use eegui::geometry::{Pos, ScreenRect};
use eegui::gesture::PointerInput;
use eegui::registry::PlotCtx;
use eegui::viewport::{Memory, LIMIT};

fn square() -> ScreenRect {
    ScreenRect::new(0, 0, 100, 100)
}

fn held(x: i32, y: i32) -> PointerInput {
    PointerInput { pos: Some(Pos::new(x, y)), pressed: true, scroll: 0 }
}

fn released(x: i32, y: i32) -> PointerInput {
    PointerInput { pos: Some(Pos::new(x, y)), pressed: false, scroll: 0 }
}

fn scrolled(x: i32, y: i32, scroll: i32) -> PointerInput {
    PointerInput { pos: Some(Pos::new(x, y)), pressed: false, scroll }
}

#[test]
fn default_memory() {
    let m = Memory::default();
    assert_eq!((m.y_start, m.y_end), (-100, 100));
    assert_eq!(m.last_pos, None);
}

#[test]
fn drag_sequence_keeps_span() {
    let r = square();
    let mut m = Memory::with_range(-300, 300);
    let path = [(50, 10), (50, 30), (50, 25), (50, 80)];
    let mut ranges = vec![];
    for (x, y) in path {
        m.drag(&r, Some(Pos::new(x, y)), true);
        assert_eq!(m.y_end - m.y_start, 600);
        ranges.push((m.y_start, m.y_end));
    }
    assert_eq!(ranges, vec![(-300, 300), (-180, 420), (-210, 390), (120, 720)]);
    assert_eq!(m.last_pos, Some(Pos::new(50, 80)));
}

#[test]
fn drag_down_then_release_outside() {
    let r = square();
    let mut m = Memory::with_range(-300, 300);
    m.apply_gestures(&r, &held(50, 20), true, true);
    assert_eq!(m.last_pos, Some(Pos::new(50, 20)));
    assert_eq!((m.y_start, m.y_end), (-300, 300));
    m.apply_gestures(&r, &held(50, 70), true, true);
    assert_eq!((m.y_start, m.y_end), (0, 600));
    m.apply_gestures(&r, &released(50, 150), true, true);
    assert_eq!(m.last_pos, None);
    assert_eq!((m.y_start, m.y_end), (0, 600));
    m.apply_gestures(&r, &released(50, 160), true, true);
    m.apply_gestures(&r, &held(50, 200), true, true);
    assert_eq!(m.last_pos, None);
    assert_eq!((m.y_start, m.y_end), (0, 600));
}

#[test]
fn drag_ends_when_pointer_is_gone() {
    let r = square();
    let mut m = Memory::with_range(-300, 300);
    m.drag(&r, Some(Pos::new(50, 20)), true);
    m.drag(&r, None, true);
    assert_eq!(m.last_pos, None);
    assert_eq!((m.y_start, m.y_end), (-300, 300));
}

#[test]
fn drag_goes_on_outside_once_started() {
    let r = square();
    let mut m = Memory::with_range(-300, 300);
    m.drag(&r, Some(Pos::new(50, 90)), true);
    m.drag(&r, Some(Pos::new(50, 140)), true);
    assert_eq!((m.y_start, m.y_end), (0, 600));
}

#[test]
fn drag_disabled_leaves_state() {
    let r = square();
    let mut m = Memory::with_range(-300, 300);
    m.apply_gestures(&r, &held(50, 20), false, true);
    assert_eq!(m.last_pos, None);
}

#[test]
fn zoom_in_at_center_is_symmetric() {
    let r = square();
    let mut m = Memory::with_range(-300, 300);
    m.zoom(&r, Some(Pos::new(50, 50)), 10);
    assert_eq!((m.y_start, m.y_end), (-270, 270));
    let mut m = Memory::with_range(-300, 300);
    m.zoom(&r, Some(Pos::new(50, 50)), 1);
    assert_eq!((m.y_start, m.y_end), (-297, 297));
}

#[test]
fn zoom_clamps_scroll() {
    let r = square();
    let mut m = Memory::with_range(-300, 300);
    m.zoom(&r, Some(Pos::new(50, 50)), 50);
    assert_eq!((m.y_start, m.y_end), (-270, 270));
}

#[test]
fn zoom_out_at_center() {
    let r = square();
    let mut m = Memory::with_range(-300, 300);
    m.apply_gestures(&r, &scrolled(50, 50, -10), true, true);
    assert_eq!((m.y_start, m.y_end), (-330, 330));
}

#[test]
fn zoom_at_bottom_keeps_bottom_value() {
    let r = square();
    let mut m = Memory::with_range(-300, 300);
    m.zoom(&r, Some(Pos::new(50, 100)), 10);
    assert_eq!((m.y_start, m.y_end), (-300, 240));
}

#[test]
fn zoom_needs_pointer_inside_and_scroll() {
    let r = square();
    let mut m = Memory::with_range(-300, 300);
    m.zoom(&r, Some(Pos::new(150, 50)), 10);
    m.zoom(&r, Some(Pos::new(50, 50)), 0);
    m.zoom(&r, None, 10);
    assert_eq!((m.y_start, m.y_end), (-300, 300));
}

#[test]
fn zoom_disabled_leaves_range() {
    let r = square();
    let mut m = Memory::with_range(-300, 300);
    m.apply_gestures(&r, &scrolled(50, 50, 10), true, false);
    assert_eq!((m.y_start, m.y_end), (-300, 300));
}

#[test]
fn zoom_out_stops_at_limit() {
    let r = square();
    let mut m = Memory::with_range(-LIMIT + 10, LIMIT - 10);
    m.zoom(&r, Some(Pos::new(50, 50)), -10);
    assert_eq!((m.y_start, m.y_end), (-LIMIT, LIMIT));
}

#[test]
fn set_y_range_corrects_bad_ranges() {
    let mut m = Memory::with_range(-300, 300);
    m.set_y_range(-50, 80);
    assert_eq!((m.y_start, m.y_end), (-50, 80));
    m.set_y_range(5, 5);
    assert_eq!((m.y_start, m.y_end), (5, 6));
    m.set_y_range(10, 0);
    assert_eq!((m.y_start, m.y_end), (10, 11));
    m.set_y_range(-600_000_000, 10);
    assert_eq!((m.y_start, m.y_end), (-600_000_000, 10));
    m.set_y_range(i64::MIN, 0);
    assert_eq!((m.y_start, m.y_end), (-LIMIT, 0));
    m.set_y_range(0, i64::MAX);
    assert_eq!((m.y_start, m.y_end), (0, LIMIT));
}

#[test]
fn pan_stops_at_limit_and_keeps_span() {
    let mut m = Memory::with_range(LIMIT - 1000, LIMIT);
    m.pan(5000);
    assert_eq!((m.y_start, m.y_end), (LIMIT - 1000, LIMIT));
    m.pan(-300);
    assert_eq!((m.y_start, m.y_end), (LIMIT - 1300, LIMIT - 300));
    m.pan(i128::MIN);
    assert_eq!((m.y_start, m.y_end), (-LIMIT, -LIMIT + 1000));
}

#[test]
fn registry_creates_once_and_keeps_state() {
    let mut ctx = PlotCtx::default();
    assert!(!ctx.contains(1));
    let m = ctx.get_or_create(1);
    assert_eq!((m.y_start, m.y_end), (-300, 300));
    assert_eq!(m.last_pos, None);
    assert!(ctx.contains(1));
    assert_eq!(ctx.len(), 1);
    let z = ctx.apply_gestures(1, &square(), &scrolled(50, 50, 10), true, true);
    assert_eq!((z.y_start, z.y_end), (-270, 270));
    let again = ctx.get_or_create(1);
    assert_eq!(again, z);
    assert_eq!(ctx.len(), 1);
    let other = ctx.get_or_create(2);
    assert_eq!((other.y_start, other.y_end), (-300, 300));
    assert_eq!(ctx.len(), 2);
}

#[test]
fn registry_with_configured_default() {
    let mut ctx = PlotCtx::with_default(-100, 100);
    let m = ctx.get_or_create(7);
    assert_eq!((m.y_start, m.y_end), (-100, 100));
    let mut stored = m;
    stored.set_y_range(1, 2);
    ctx.store(7, stored);
    assert_eq!(ctx.get_or_create(7), stored);
}

#[test]
fn zoom_out_on_wide_range_is_symmetric() {
    let r = square();
    let mut m = Memory::with_range(-499_999_999, 0);
    m.zoom(&r, Some(Pos::new(50, 50)), -10);
    assert_eq!((m.y_start, m.y_end), (-524_999_998, 24_999_999));
}

#[test]
fn registry_new_plot_is_not_dragging() {
    let mut ctx = PlotCtx::with_default(-100, 100);
    let m = ctx.apply_gestures(5, &square(), &held(50, 20), true, false);
    assert_eq!((m.y_start, m.y_end), (-100, 100));
    assert_eq!(m.last_pos, Some(Pos::new(50, 20)));
}
