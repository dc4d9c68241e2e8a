use titan::projection::{FineWorldPoint, ScreenPoint, WorldPoint, INVERSE_DENOM, ISO_COS, ISO_SIN, TRIG_DENOM};

fn pixel(num: i64) -> i64 {
    num / TRIG_DENOM
}

#[test]
fn forward_transform_exact_values() {
    assert_eq!(ScreenPoint::transform(0, 0, 0), (0, 0));
    assert_eq!(ScreenPoint::transform(10, 20, 1), (-2691300, 3876200));
    assert_eq!(ScreenPoint::transform(3, 1, 0), (538260, 530160));
    assert_eq!(ScreenPoint::transform(1, 3, 2), (-538260, 330160));
    assert_eq!(ScreenPoint::transform(-5, 7, 0), (-3229560, 265080));
    assert_eq!(ScreenPoint::transform(100, 100, 6), (0, 25908000));
}

#[test]
fn pixels_truncate_toward_zero() {
    let p = |x, y, h| ScreenPoint::from_world(&WorldPoint { x, y, h });
    assert_eq!(p(10, 20, 1), ScreenPoint { x: -269, y: 387 });
    assert_eq!(p(3, 1, 0), ScreenPoint { x: 53, y: 53 });
    assert_eq!(p(1, 3, 2), ScreenPoint { x: -53, y: 33 });
    assert_eq!(p(-5, 7, 0), ScreenPoint { x: -322, y: 26 });
    assert_eq!(p(100, 100, 6), ScreenPoint { x: 0, y: 2590 });
    assert_eq!(pixel(ScreenPoint::transform(-5, 7, 0).0), -322);
}

#[test]
fn screen_point_from_world_point() {
    let p = ScreenPoint::from_world(&WorldPoint { x: 10, y: 20, h: 1 });
    assert_eq!(p, ScreenPoint { x: -269, y: 387 });
}

#[test]
fn inverse_transform_exact_values() {
    assert_eq!(INVERSE_DENOM, 2378032680);
    assert_eq!(FineWorldPoint::inverse_transform(0, 0), (0, 0));
    assert_eq!(FineWorldPoint::inverse_transform(-269 * TRIG_DENOM, 397 * TRIG_DENOM), (23730450000, 47499290000));
    let w = FineWorldPoint::from_screen(&ScreenPoint { x: 53, y: 53 });
    assert_eq!(w, FineWorldPoint { x_num: 7096170000, y_num: 2413090000 });
}

#[test]
fn round_trip_is_exact() {
    for &(x, y) in &[(0, 0), (1, 0), (10, 20), (3, 1), (57, 12), (100, 100), (-40, 75), (99, 0)] {
        let (sx, sy) = ScreenPoint::transform(x, y, 0);
        let (nx, ny) = FineWorldPoint::inverse_transform(sx, sy);
        assert_eq!(nx, x as i64 * INVERSE_DENOM);
        assert_eq!(ny, y as i64 * INVERSE_DENOM);
    }
}

#[test]
fn pixel_round_trip_stays_within_rounding_of_a_pixel() {
    let tolerance = TRIG_DENOM * (ISO_SIN + ISO_COS);
    for &(x, y) in &[(0, 0), (10, 20), (3, 1), (57, 12), (100, 100), (-40, 75), (99, 0)] {
        let p = ScreenPoint::from_world(&WorldPoint { x, y, h: 0 });
        let w = FineWorldPoint::from_screen(&p);
        assert!((w.x_num - x as i64 * INVERSE_DENOM).abs() < tolerance);
        assert!((w.y_num - y as i64 * INVERSE_DENOM).abs() < tolerance);
    }
}
