use marine_sim::components::{
    Transform, Velocity, Acceleration, MarineState, AttackCooldown, BulletState, CollisionBounds,
    AnimationTrack, TrackId, Facing, fresh_track,
};
use marine_sim::entities::{Marine, Bullet};
use marine_sim::geometry::{Rect, overlaps_rect, bodies_overlap};
use marine_sim::input::InputState;
use marine_sim::animation::select_track;
use marine_sim::marine::{marine_acceleration_step, marine_collision_step};
use marine_sim::combat::{attack_step, bullet_collision_step, BulletOutcome};

fn test_marine(x: i64, y: i64) -> Marine {
    Marine {
        id: 0,
        transform: Transform { x, y, layer: 0 },
        velocity: Velocity { vx: 0, vy: 0 },
        accel: Acceleration { ax: 0 },
        state: MarineState {
            facing: Facing::Right,
            attacking: false,
            attack_timer_ms: 0,
            grounded: false,
        },
        cooldown: AttackCooldown { remaining_ms: 0 },
        bounds: CollisionBounds { half_x: 500, half_y: 500 },
        anim: fresh_track(TrackId::MarineIdle),
    }
}

fn held(left: bool, right: bool, jump: bool, fire: bool) -> InputState {
    InputState { move_left: left, move_right: right, jump, fire }
}

#[test]
fn overlap_is_strict() {
    let t = Transform { x: 0, y: 0, layer: 0 };
    let b = CollisionBounds { half_x: 500, half_y: 500 };
    // interior overlap
    assert!(overlaps_rect(&t, &b, &Rect { min_x: 400, min_y: -100, max_x: 900, max_y: 100 }));
    // touching edges do not overlap
    assert!(!overlaps_rect(&t, &b, &Rect { min_x: 500, min_y: -100, max_x: 900, max_y: 100 }));
    assert!(!overlaps_rect(&t, &b, &Rect { min_x: -900, min_y: 500, max_x: 900, max_y: 600 }));
    // disjoint
    assert!(!overlaps_rect(&t, &b, &Rect { min_x: 600, min_y: 600, max_x: 900, max_y: 900 }));
    let t2 = Transform { x: 900, y: 0, layer: 0 };
    assert!(bodies_overlap(&t, &b, &t2, &b));
    let t3 = Transform { x: 1000, y: 0, layer: 0 };
    assert!(!bodies_overlap(&t, &b, &t3, &b));
}

#[test]
fn track_selection_precedence() {
    let mut s = MarineState {
        facing: Facing::Right,
        attacking: false,
        attack_timer_ms: 0,
        grounded: true,
    };
    assert_eq!(select_track(&s, 0), TrackId::MarineIdle);
    assert_eq!(select_track(&s, 100), TrackId::MarineWalk);
    assert_eq!(select_track(&s, -100), TrackId::MarineWalk);
    s.grounded = false;
    assert_eq!(select_track(&s, 100), TrackId::MarineFall);
    s.attacking = true;
    assert_eq!(select_track(&s, 100), TrackId::MarineAttack);
    s.grounded = true;
    assert_eq!(select_track(&s, 0), TrackId::MarineAttack);
}

#[test]
fn walking_shown_whenever_grounded_and_moving() {
    // never idle while the marine moves on the ground, whatever else holds
    let speeds: [i64; 4] = [1, -1, 6000, -6000];
    for vx in speeds {
        for attacking in [false, true] {
            let s = MarineState {
                facing: Facing::Left,
                attacking,
                attack_timer_ms: 0,
                grounded: true,
            };
            assert!(select_track(&s, vx) != TrackId::MarineIdle);
        }
    }
}

#[test]
fn acceleration_ramps_and_clamps() {
    let mut m = test_marine(0, 0);
    marine_acceleration_step(&mut m, &held(false, true, false, false), 16);
    assert_eq!(m.velocity.vx, 192);
    assert_eq!(m.accel.ax, 12000);
    assert_eq!(m.transform.x, 3);
    // hold right for two simulated seconds; the speed caps at 6000
    for _ in 0..124 {
        marine_acceleration_step(&mut m, &held(false, true, false, false), 16);
        assert!(m.velocity.vx <= 6000);
    }
    assert_eq!(m.velocity.vx, 6000);
}

#[test]
fn speed_stays_clamped_for_any_input_sequence() {
    let mut m = test_marine(0, 0);
    let inputs = [
        held(false, true, false, false),
        held(true, false, false, false),
        held(true, true, true, true),
        held(false, false, false, false),
    ];
    let dts: [u32; 5] = [0, 1, 16, 100, 5000];
    for k in 0..200usize {
        marine_acceleration_step(&mut m, &inputs[k % 4], dts[k % 5]);
        assert!(m.velocity.vx.abs() <= 6000);
    }
}

#[test]
fn friction_decays_toward_zero() {
    let mut m = test_marine(0, 0);
    m.velocity.vx = 150;
    marine_acceleration_step(&mut m, &held(false, false, false, false), 10);
    // 12000 * 10 / 1000 = 120 of decay
    assert_eq!(m.velocity.vx, 30);
    marine_acceleration_step(&mut m, &held(false, false, false, false), 10);
    assert_eq!(m.velocity.vx, 0);
}

#[test]
fn facing_follows_velocity_sign() {
    let mut m = test_marine(0, 0);
    marine_acceleration_step(&mut m, &held(true, false, false, false), 16);
    assert_eq!(m.state.facing, Facing::Left);
    marine_acceleration_step(&mut m, &held(false, true, false, false), 100);
    assert_eq!(m.state.facing, Facing::Right);
    // no horizontal motion keeps the last facing
    let mut stopped = test_marine(0, 0);
    stopped.state.facing = Facing::Left;
    marine_acceleration_step(&mut stopped, &held(false, false, false, false), 16);
    assert_eq!(stopped.state.facing, Facing::Left);
}

#[test]
fn landing_snaps_and_grounds() {
    // falling marine whose feet sank just below the platform top
    let mut m = test_marine(0, 450);
    m.velocity.vy = -3000;
    let terrain = vec![Rect { min_x: -10000, min_y: -1000, max_x: 10000, max_y: 0 }];
    // this frame's descent is 3000 * 50 / 1000 = 150, more than the 50 sunk
    marine_collision_step(&mut m, &terrain, 50);
    assert!(m.state.grounded);
    assert_eq!(m.velocity.vy, 0);
    assert_eq!(m.transform.y, 500);
}

#[test]
fn fast_fall_cannot_tunnel_through_a_platform() {
    // one long frame at terminal speed: the feet swept 20 units downward
    // and ended 5 units below the platform top — still caught
    let mut m = test_marine(0, -4500);
    m.velocity.vy = -20000;
    let terrain = vec![Rect { min_x: -10000, min_y: -1000, max_x: 10000, max_y: 0 }];
    marine_collision_step(&mut m, &terrain, 1000);
    assert!(m.state.grounded);
    assert_eq!(m.velocity.vy, 0);
    assert_eq!(m.transform.y, 500);
}

#[test]
fn feet_below_this_frames_descent_do_not_land() {
    // the feet are 5 units below the top but this frame only descended
    // 16 milliunits: the platform top was not crossed this frame
    let mut m = test_marine(0, -4500);
    m.velocity.vy = -1000;
    let terrain = vec![Rect { min_x: -10000, min_y: -6000, max_x: 10000, max_y: 0 }];
    marine_collision_step(&mut m, &terrain, 16);
    assert!(!m.state.grounded);
}

#[test]
fn rising_marine_does_not_land() {
    let mut m = test_marine(0, 450);
    m.velocity.vy = 3000;
    let terrain = vec![Rect { min_x: -10000, min_y: -1000, max_x: 10000, max_y: 0 }];
    marine_collision_step(&mut m, &terrain, 50);
    assert!(!m.state.grounded);
    assert_eq!(m.velocity.vy, 3000);
}

#[test]
fn wall_halts_horizontal_motion() {
    let mut m = test_marine(1700, 5000);
    m.velocity.vx = 4000;
    // a wall whose left face is at 2000; the marine's box leaks into it
    let terrain = vec![Rect { min_x: 2000, min_y: 0, max_x: 4000, max_y: 10000 }];
    marine_collision_step(&mut m, &terrain, 16);
    assert_eq!(m.velocity.vx, 0);
    assert_eq!(m.transform.x, 1500);
    assert!(!m.state.grounded);
}

#[test]
fn fire_with_cooldown_zero_spawns_one_bullet() {
    let mut m = test_marine(0, 0);
    let spawned = attack_step(&mut m, true, 16, 7);
    let b = spawned.expect("a ready weapon must fire");
    assert_eq!(b.id, 7);
    assert_eq!(b.owner, 0);
    assert_eq!(b.transform.x, 700);
    assert_eq!(b.transform.y, 100);
    assert_eq!(b.state.vx, 15000);
    assert_eq!(b.state.vy, 0);
    assert_eq!(b.state.damage, 25);
    assert_eq!(b.state.lifetime_ms, 2000);
    assert!(!b.state.spent);
    assert_eq!(b.anim.track, TrackId::BulletFly);
    assert_eq!(m.cooldown.remaining_ms, 300);
    assert!(m.state.attacking);
    // still pressed next frame: the cooldown gates the shot
    let again = attack_step(&mut m, true, 16, 8);
    assert!(again.is_none());
    assert_eq!(m.cooldown.remaining_ms, 284);
    assert!(m.state.attacking);
}

#[test]
fn firing_left_mirrors_the_muzzle() {
    let mut m = test_marine(0, 0);
    m.state.facing = Facing::Left;
    let b = attack_step(&mut m, true, 16, 1).expect("a ready weapon must fire");
    assert_eq!(b.transform.x, -700);
    assert_eq!(b.state.vx, -15000);
}

#[test]
fn attack_pose_lapses_after_its_timer() {
    let mut m = test_marine(0, 0);
    m.cooldown.remaining_ms = 1000;
    attack_step(&mut m, true, 16, 1);
    assert!(m.state.attacking);
    assert_eq!(m.state.attack_timer_ms, 250);
    attack_step(&mut m, false, 200, 2);
    assert!(m.state.attacking);
    assert_eq!(m.state.attack_timer_ms, 50);
    attack_step(&mut m, false, 200, 3);
    assert!(!m.state.attacking);
    assert_eq!(m.state.attack_timer_ms, 0);
}

fn test_bullet(x: i64, y: i64, vx: i64) -> Bullet {
    Bullet {
        id: 1,
        owner: 0,
        transform: Transform { x, y, layer: 0 },
        state: BulletState { vx, vy: 0, lifetime_ms: 2000, damage: 25, spent: false },
        bounds: CollisionBounds { half_x: 100, half_y: 100 },
        anim: fresh_track(TrackId::BulletFly),
    }
}

#[test]
fn bullet_hits_terrain_and_goes_inert() {
    let mut b = test_bullet(500, 0, 15000);
    let terrain = vec![Rect { min_x: 2000, min_y: -1000, max_x: 3000, max_y: 1000 }];
    let marines: Vec<Marine> = Vec::new();
    // 15000 * 100 / 1000 = 1500 of travel: the box reaches into the wall
    let o = bullet_collision_step(&mut b, &terrain, &marines, 100);
    assert!(matches!(o, BulletOutcome::HitTerrain { .. }));
    assert!(b.state.spent);
    assert_eq!(b.anim.track, TrackId::BulletImpact);
    assert_eq!(b.anim.frame, 0);
    // a spent bullet is collision-inert in every later frame
    let before = b.transform.x;
    let o2 = bullet_collision_step(&mut b, &terrain, &marines, 100);
    assert!(matches!(o2, BulletOutcome::Inert));
    assert_eq!(b.transform.x, before);
    assert!(b.state.spent);
}

#[test]
fn bullet_hits_marine_once_only() {
    let mut b = test_bullet(500, 0, 15000);
    let terrain: Vec<Rect> = Vec::new();
    let mut target = test_marine(2200, 0);
    target.id = 3;
    let marines = vec![target];
    let o = bullet_collision_step(&mut b, &terrain, &marines, 100);
    match o {
        BulletOutcome::HitMarine { marine } => assert_eq!(marine, 0),
        _ => panic!("expected a marine hit"),
    }
    assert!(b.state.spent);
    // the same bullet never registers damage again
    let o2 = bullet_collision_step(&mut b, &terrain, &marines, 100);
    assert!(matches!(o2, BulletOutcome::Inert));
}

#[test]
fn bullet_skips_its_owner() {
    let mut b = test_bullet(500, 0, 0);
    let terrain: Vec<Rect> = Vec::new();
    // the only overlapping marine is the owner
    let marines = vec![test_marine(500, 0)];
    let o = bullet_collision_step(&mut b, &terrain, &marines, 16);
    assert!(matches!(o, BulletOutcome::Flying));
    assert!(!b.state.spent);
}

#[test]
fn terrain_hit_wins_over_marine_hit() {
    let mut b = test_bullet(500, 0, 0);
    let terrain = vec![Rect { min_x: 400, min_y: -1000, max_x: 700, max_y: 1000 }];
    let mut other = test_marine(500, 0);
    other.id = 9;
    let marines = vec![other];
    let o = bullet_collision_step(&mut b, &terrain, &marines, 16);
    assert!(matches!(o, BulletOutcome::HitTerrain { .. }));
}

#[test]
fn bullet_expires_when_lifetime_runs_out() {
    let mut b = test_bullet(0, 0, 0);
    b.state.lifetime_ms = 50;
    let terrain: Vec<Rect> = Vec::new();
    let marines: Vec<Marine> = Vec::new();
    let o = bullet_collision_step(&mut b, &terrain, &marines, 60);
    assert!(matches!(o, BulletOutcome::Expired));
    assert!(b.state.spent);
    // no impact animation on expiry
    assert_eq!(b.anim.track, TrackId::BulletFly);
}
