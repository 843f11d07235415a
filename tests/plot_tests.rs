use eegui::geometry::{Pos, ScreenRect};
use eegui::gesture::PointerInput;
use eegui::plot::{value_at_pointer, DataPoint, Plot, Tick};
use eegui::viewport::Memory;
use eegui::registry::PlotCtx;

fn idle() -> PointerInput {
    PointerInput { pos: None, pressed: false, scroll: 0 }
}

#[test]
fn new_plot_settings() {
    let p = Plot::new(3);
    assert_eq!(p.id, 3);
    assert_eq!((p.width, p.height), (100, 100));
    assert_eq!(p.title, None);
    assert!(!p.show_title && !p.show_xticks && !p.show_yticks);
    assert!(!p.drag_yaxis && !p.zoom_y);
    assert_eq!(p.x_end, 1000);
}

#[test]
fn builders_set_one_field_each() {
    let p = Plot::new(1)
        .title("ch 1".to_string())
        .size(200, 150)
        .show_title(true)
        .show_ytick_val(true)
        .set_drag_yaxis(true)
        .set_zoom_y(true)
        .set_x_end(500);
    assert_eq!(p.title, Some("ch 1".to_string()));
    assert_eq!((p.width, p.height), (200, 150));
    assert!(p.show_title && p.show_yticks && p.drag_yaxis && p.zoom_y);
    assert!(!p.show_xticks);
    assert_eq!(p.x_end, 500);
    assert!(Plot::new(1).show_xlabel(true).show_xticks);
    assert!(Plot::new(1).show_xtick_val(true).show_xticks);
    assert!(!Plot::new(1).show_xtick_val(true).show_xlabel(false).show_xticks);
}

#[test]
fn plot_rect_leaves_margins() {
    let full = ScreenRect::new(10, 20, 200, 150);
    let p = Plot::new(1).show_ytick_val(true).show_xtick_val(true);
    assert_eq!(p.plot_rect(&full), ScreenRect::new(50, 20, 156, 130));
    let p = Plot::new(1).show_title(true);
    assert_eq!(p.plot_rect(&full), ScreenRect::new(10, 30, 196, 140));
    assert_eq!(Plot::new(1).plot_rect(&full), ScreenRect::new(10, 20, 196, 150));
}

#[test]
fn show_maps_ticks_and_samples() {
    let mut ctx = PlotCtx::default();
    let p = Plot::new(4);
    let full = ScreenRect::new(0, 0, 104, 100);
    let f = p.show(&mut ctx, &full, &idle(), &vec![0, 300, -300]);
    assert_eq!(f.rect, ScreenRect::new(0, 0, 100, 100));
    assert_eq!(
        f.x_ticks,
        vec![
            Tick { value: 0, screen: 0 },
            Tick { value: 400, screen: 40 },
            Tick { value: 800, screen: 80 },
        ]
    );
    assert_eq!(
        f.y_ticks,
        vec![
            Tick { value: -300, screen: 100 },
            Tick { value: -100, screen: 66 },
            Tick { value: 100, screen: 33 },
            Tick { value: 300, screen: 0 },
        ]
    );
    assert_eq!(f.line, vec![(0, 50), (0, 0), (0, 100)]);
    assert_eq!(f.palette, 3);
    assert!(ctx.contains(4));
}

#[test]
fn show_spreads_samples_over_domain() {
    let mut ctx = PlotCtx::default();
    let p = Plot::new(4).set_x_end(2);
    let full = ScreenRect::new(0, 0, 104, 100);
    let f = p.show(&mut ctx, &full, &idle(), &vec![0, 300, -300]);
    assert_eq!(f.line, vec![(0, 50), (50, 0), (100, 100)]);
    assert_eq!(
        f.x_ticks.iter().map(|t| t.value).collect::<Vec<i64>>(),
        vec![0, 1, 2]
    );
}

#[test]
fn show_applies_gestures_before_drawing() {
    let mut ctx = PlotCtx::default();
    let p = Plot::new(9).set_zoom_y(true).set_drag_yaxis(true);
    let full = ScreenRect::new(0, 0, 104, 100);
    let input = PointerInput { pos: Some(Pos::new(50, 50)), pressed: false, scroll: 10 };
    let f = p.show(&mut ctx, &full, &input, &vec![270]);
    assert_eq!((f.memory.y_start, f.memory.y_end), (-270, 270));
    assert_eq!(f.line, vec![(0, 0)]);
    assert_eq!(ctx.get_or_create(9), f.memory);
    assert_eq!(f.palette, 8);
    let f = Plot::new(17).show(&mut ctx, &full, &idle(), &vec![]);
    assert_eq!(f.palette, 0);
}

#[test]
fn ctx_plot_creates_state() {
    let mut ctx = PlotCtx::default();
    let p = ctx.plot(12);
    assert_eq!(p.id, 12);
    assert!(ctx.contains(12));
}

#[test]
fn value_at_pointer_reads_data_point() {
    let m = Memory::with_range(-300, 300);
    let r = ScreenRect::new(0, 0, 100, 100);
    assert_eq!(value_at_pointer(&m, 1000, &r, Some(Pos::new(50, 50))), Some(DataPoint { index: 500, value: 0 }));
    assert_eq!(value_at_pointer(&m, 1000, &r, Some(Pos::new(10, 0))), Some(DataPoint { index: 100, value: 300 }));
    assert_eq!(value_at_pointer(&m, 1000, &r, Some(Pos::new(150, 50))), None);
    assert_eq!(value_at_pointer(&m, 1000, &r, None), None);
}
