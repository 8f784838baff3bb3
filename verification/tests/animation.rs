use bounce::geom::{ColorRect, Rgb, COORD_SCALE, DT_SCALE, VEL_SCALE};
use bounce::paint::{can_paint, paint_rects};
use bounce::sim::AppData;
use bounce::ticker::{LoopEvent, Phase, TickLoop};

fn rect(x0: i64, y0: i64, x1: i64, y1: i64, vx: i64, vy: i64) -> ColorRect {
    ColorRect {
        x0,
        y0,
        x1,
        y1,
        vx,
        vy,
        color: Rgb { r: 10, g: 20, b: 30 },
    }
}

#[test]
fn scales_are_consistent() {
    // milli * milli = micro: a velocity of 1.0 over one tick at dt_scale
    // 0.001 moves a coordinate by 0.001 of the normalized unit.
    assert_eq!(VEL_SCALE * VEL_SCALE, COORD_SCALE);
    assert_eq!(DT_SCALE, 1);
}

#[test]
fn step_adds_velocity_times_dt_scale() {
    // One tick moves each coordinate by exactly velocity * dt_scale.
    let mut data = AppData::new(vec![rect(250_000, 300_000, 400_000, 450_000, 2_000, -3_000)]);
    assert!(data.can_step());
    data.step();
    let r = data.rects[0];
    assert_eq!((r.x0, r.y0, r.x1, r.y1), (252_000, 297_000, 402_000, 447_000));
    assert_eq!((r.vx, r.vy), (2_000, -3_000));
}

#[test]
fn one_tick_scenario() {
    // (0.0, 0.0, 0.1, 0.1), velocity (1, 1), dt_scale 0.001:
    // one tick gives (0.001, 0.001, 0.101, 0.101).
    let mut data = AppData::new(vec![rect(0, 0, 100_000, 100_000, 1_000, 1_000)]);
    assert!(data.can_step());
    data.step();
    let r = data.rects[0];
    assert_eq!((r.x0, r.y0, r.x1, r.y1), (1_000, 1_000, 101_000, 101_000));
}

#[test]
fn zero_velocity_never_moves() {
    // (0.5, 0.5, 0.75, 0.75) with velocity (0, 0) stays put over any
    // number of ticks.
    let start = rect(500_000, 500_000, 750_000, 750_000, 0, 0);
    let mut data = AppData::new(vec![start]);
    for _ in 0..1000 {
        assert!(data.can_step());
        data.step();
    }
    let r = data.rects[0];
    assert_eq!((r.x0, r.y0, r.x1, r.y1), (500_000, 500_000, 750_000, 750_000));
}

#[test]
fn rectangles_may_drift_out_of_range() {
    // No bounds checking: coordinates keep drifting past 1.0.
    let mut data = AppData::new(vec![rect(990_000, 0, 1_000_000, 10_000, 20_000, 0)]);
    data.step();
    let r = data.rects[0];
    assert_eq!((r.x0, r.x1), (1_010_000, 1_020_000));
}

#[test]
fn can_step_refuses_near_overflow() {
    let data = AppData::new(vec![rect(i64::MAX, 0, i64::MAX, 10_000, 1, 0)]);
    assert!(!data.can_step());
}

#[test]
fn paint_maps_by_window_size() {
    // (x0, y0, x1, y1) maps to (x0*W, y0*H, x1*W, y1*H), in micro-pixels.
    let v = vec![rect(500_000, 500_000, 750_000, 750_000, 0, 0)];
    let out = paint_rects(&v, 800, 600);
    assert_eq!(out.len(), 1);
    let p = out[0];
    // 0.5 * 800 = 400 px and 0.75 * 800 = 600 px horizontally;
    // 0.5 * 600 = 300 px and 0.75 * 600 = 450 px vertically.
    assert_eq!(p.x0, 400 * 1_000_000);
    assert_eq!(p.y0, 300 * 1_000_000);
    assert_eq!(p.x1, 600 * 1_000_000);
    assert_eq!(p.y1, 450 * 1_000_000);
    assert_eq!((p.color.r, p.color.g, p.color.b), (10, 20, 30));
}

#[test]
fn paint_is_idempotent() {
    let v = vec![
        rect(0, 0, 100_000, 100_000, 500, 500),
        rect(-50_000, 250_000, 400_000, 900_000, -100, 7),
    ];
    let a = paint_rects(&v, 1024, 768);
    let b = paint_rects(&v, 1024, 768);
    assert_eq!(a, b);
}

#[test]
fn doubling_width_doubles_horizontal_extent_only() {
    let v = vec![rect(125_000, 300_000, 625_000, 800_000, 0, 0)];
    let narrow = paint_rects(&v, 640, 480)[0];
    let wide = paint_rects(&v, 1280, 480)[0];
    assert_eq!(wide.x0, 2 * narrow.x0);
    assert_eq!(wide.x1, 2 * narrow.x1);
    assert_eq!(wide.y0, narrow.y0);
    assert_eq!(wide.y1, narrow.y1);
}

#[test]
fn empty_list_draws_nothing() {
    let v: Vec<ColorRect> = Vec::new();
    let out = paint_rects(&v, 800, 600);
    assert_eq!(out.len(), 0);
}

#[test]
fn resize_rescales_proportionally() {
    // A resize between two paints of the same state rescales the output
    // proportionally and leaves the normalized state untouched.
    let v = vec![rect(100_000, 200_000, 300_000, 400_000, 50, 60)];
    let before = v.clone();
    let small = paint_rects(&v, 800, 600)[0];
    let large = paint_rects(&v, 2000, 900)[0];
    assert_eq!(small.x0 * 2000, large.x0 * 800);
    assert_eq!(small.x1 * 2000, large.x1 * 800);
    assert_eq!(small.y0 * 900, large.y0 * 600);
    assert_eq!(small.y1 * 900, large.y1 * 600);
    assert_eq!(v, before);
}

#[test]
fn can_paint_refuses_near_overflow() {
    let ok = vec![rect(0, 0, 1_000_000, 1_000_000, 0, 0)];
    assert!(can_paint(&ok, u32::MAX, u32::MAX));
    let too_far = vec![rect(i64::MAX / 2, 0, i64::MAX / 2, 1, 0, 0)];
    assert!(!can_paint(&too_far, 4, 4));
}

#[test]
fn from_origin_size_places_far_corner() {
    let c = Rgb { r: 1, g: 2, b: 3 };
    let r = ColorRect::from_origin_size(100_000, 200_000, 50_000, 25_000, 7, -7, c);
    assert_eq!((r.x0, r.y0, r.x1, r.y1), (100_000, 200_000, 150_000, 225_000));
    assert_eq!((r.vx, r.vy), (7, -7));
    assert_eq!(r.color, c);
}

#[test]
fn connection_starts_the_loop() {
    let mut t = TickLoop::new(0);
    assert_eq!(t.phase, Phase::Uninitialized);
    let d = t.on_event(&LoopEvent::WindowConnected);
    assert_eq!(t.phase, Phase::Running);
    assert!(!d.step_sim);
    assert!(d.request_paint);
    assert!(d.arm_timer);
}

#[test]
fn armed_timer_drives_a_tick() {
    let mut t = TickLoop::new(0);
    t.on_event(&LoopEvent::WindowConnected);
    t.timer_armed(42);
    let d = t.on_event(&LoopEvent::Timer(42));
    assert!(d.step_sim);
    assert!(d.request_paint);
    assert!(d.arm_timer);
}

#[test]
fn foreign_timer_is_ignored() {
    let mut t = TickLoop::new(0);
    t.on_event(&LoopEvent::WindowConnected);
    t.timer_armed(42);
    let d = t.on_event(&LoopEvent::Timer(41));
    assert!(!d.step_sim && !d.request_paint && !d.arm_timer);
    assert_eq!(t.phase, Phase::Running);
    assert_eq!(t.timer_id, 42);
}

#[test]
fn timer_before_connection_is_ignored() {
    let mut t = TickLoop::new(0);
    let d = t.on_event(&LoopEvent::Timer(0));
    assert!(!d.step_sim && !d.request_paint && !d.arm_timer);
    assert_eq!(t.phase, Phase::Uninitialized);
}

#[test]
fn other_events_are_ignored() {
    let mut t = TickLoop::new(0);
    t.on_event(&LoopEvent::WindowConnected);
    let d = t.on_event(&LoopEvent::Other);
    assert!(!d.step_sim && !d.request_paint && !d.arm_timer);
    assert_eq!(t.phase, Phase::Running);
}

#[test]
fn repaint_exactly_when_data_changed() {
    let a = AppData::new(vec![rect(0, 0, 100_000, 100_000, 500, 500)]);
    let same = AppData::new(vec![rect(0, 0, 100_000, 100_000, 500, 500)]);
    assert!(!a.needs_repaint(&same));
    let mut moved = AppData::new(vec![rect(0, 0, 100_000, 100_000, 500, 500)]);
    moved.step();
    assert!(a.needs_repaint(&moved));
    let shorter = AppData::new(Vec::new());
    assert!(a.needs_repaint(&shorter));
}
