use marine_sim::math::{clamp_i64, toward_zero, sat_sub_u32, scale_milli};
use marine_sim::components::{fresh_track, TrackId};
use marine_sim::animation::advance_track;

#[test]
fn clamp_inside_and_outside() {
    assert_eq!(clamp_i64(5, -10, 10), 5);
    assert_eq!(clamp_i64(-11, -10, 10), -10);
    assert_eq!(clamp_i64(11, -10, 10), 10);
    assert_eq!(clamp_i64(10, -10, 10), 10);
}

#[test]
fn toward_zero_stops_at_zero() {
    assert_eq!(toward_zero(500, 200), 300);
    assert_eq!(toward_zero(500, 700), 0);
    assert_eq!(toward_zero(-500, 200), -300);
    assert_eq!(toward_zero(-500, 700), 0);
    assert_eq!(toward_zero(0, 700), 0);
}

#[test]
fn sat_sub_floors_at_zero() {
    assert_eq!(sat_sub_u32(300, 16), 284);
    assert_eq!(sat_sub_u32(10, 16), 0);
    assert_eq!(sat_sub_u32(16, 16), 0);
}

#[test]
fn scale_rounds_toward_zero() {
    // 12000 milliunits/s over 16 ms is 192 milliunits
    assert_eq!(scale_milli(12000, 16), 192);
    assert_eq!(scale_milli(-12000, 16), -192);
    // 192 * 16 / 1000 = 3.072, truncated toward zero on both signs
    assert_eq!(scale_milli(192, 16), 3);
    assert_eq!(scale_milli(-192, 16), -3);
    assert_eq!(scale_milli(100, 0), 0);
    assert_eq!(scale_milli(0, 1000), 0);
}

#[test]
fn fresh_track_starts_at_frame_zero() {
    let t = fresh_track(TrackId::BulletImpact);
    assert_eq!(t.frame, 0);
    assert_eq!(t.timer_ms, 0);
    assert_eq!(t.frame_count, 4);
    assert_eq!(t.frame_ms, 70);
    assert!(!t.looping);
    let f = fresh_track(TrackId::BulletFly);
    assert!(f.looping);
    assert_eq!(f.frame_count, 2);
}

#[test]
fn looping_track_wraps() {
    // BulletFly: 2 frames of 80 ms, looping
    let mut t = fresh_track(TrackId::BulletFly);
    let finished = advance_track(&mut t, 90);
    assert!(!finished);
    assert_eq!(t.frame, 1);
    assert_eq!(t.timer_ms, 10);
    let finished = advance_track(&mut t, 90);
    assert!(!finished);
    assert_eq!(t.frame, 0);
    assert_eq!(t.timer_ms, 20);
}

#[test]
fn one_shot_track_clamps_then_finishes() {
    // BulletImpact: 4 frames of 70 ms, one-shot (280 ms in all)
    let mut t = fresh_track(TrackId::BulletImpact);
    assert!(!advance_track(&mut t, 100));
    assert_eq!(t.frame, 1);
    assert_eq!(t.timer_ms, 30);
    assert!(!advance_track(&mut t, 100));
    assert_eq!(t.frame, 2);
    assert_eq!(t.timer_ms, 60);
    // stepping past the last frame finishes, frame stays in bounds
    assert!(advance_track(&mut t, 100));
    assert_eq!(t.frame, 3);
    assert_eq!(t.timer_ms, 0);
}

#[test]
fn frame_index_always_in_bounds() {
    let mut t = fresh_track(TrackId::MarineWalk);
    let steps: [u32; 7] = [0, 5, 99, 100, 1000, 7, 100000];
    for dt in steps {
        advance_track(&mut t, dt);
        assert!(t.frame < t.frame_count);
        assert!(t.timer_ms < t.frame_ms);
    }
    let mut o = fresh_track(TrackId::BulletImpact);
    for dt in steps {
        advance_track(&mut o, dt);
        assert!(o.frame < o.frame_count);
    }
}
