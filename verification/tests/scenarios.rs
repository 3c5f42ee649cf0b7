use marine_sim::world::World;
use marine_sim::geometry::Rect;
use marine_sim::input::InputState;
use marine_sim::components::TrackId;

fn idle_input() -> InputState {
    InputState { move_left: false, move_right: false, jump: false, fire: false }
}

fn right_input() -> InputState {
    InputState { move_left: false, move_right: true, jump: false, fire: false }
}

fn fire_input() -> InputState {
    InputState { move_left: false, move_right: false, jump: false, fire: true }
}

/// A scene with one wide platform whose top is at y = 0 and one marine
/// standing on it, feet exactly on the surface.
fn standing_scene() -> World {
    let mut w = World::new();
    w.add_terrain(Rect { min_x: -50000, min_y: -2000, max_x: 50000, max_y: 0 });
    let id = w.spawn_marine(0, 500, 0, 500, 500);
    w.set_camera_target(Some(id));
    w
}

#[test]
fn rest_without_input_holds_position() {
    // sixty frames of 1/60 s at rest: position unchanged, idle track
    let mut w = standing_scene();
    for _ in 0..60 {
        let events = w.tick(&idle_input(), 16);
        assert!(events.is_empty());
        assert_eq!(w.marines[0].transform.x, 0);
        assert_eq!(w.marines[0].transform.y, 500);
    }
    assert_eq!(w.marines[0].anim.track, TrackId::MarineIdle);
    assert_eq!(w.marines[0].velocity.vx, 0);
    assert!(w.marines[0].state.grounded);
}

#[test]
fn holding_right_ramps_to_the_clamp() {
    let mut w = standing_scene();
    // settle the grounded flag first
    w.tick(&idle_input(), 16);
    assert_eq!(w.marines[0].anim.track, TrackId::MarineIdle);
    // first frame of input: velocity becomes non-zero, walking is shown
    w.tick(&right_input(), 16);
    assert_eq!(w.marines[0].velocity.vx, 192);
    assert_eq!(w.marines[0].anim.track, TrackId::MarineWalk);
    // two seconds of holding right: speed approaches and caps at 6000
    for _ in 0..124 {
        w.tick(&right_input(), 16);
        assert!(w.marines[0].velocity.vx <= 6000);
    }
    assert_eq!(w.marines[0].velocity.vx, 6000);
    assert_eq!(w.marines[0].anim.track, TrackId::MarineWalk);
}

#[test]
fn fire_spawns_exactly_one_bullet_per_cooldown() {
    let mut w = standing_scene();
    let events = w.tick(&fire_input(), 16);
    assert!(events.is_empty());
    assert_eq!(w.bullets.len(), 1);
    assert_eq!(w.marines[0].cooldown.remaining_ms, 300);
    assert!(w.marines[0].state.attacking);
    assert_eq!(w.marines[0].anim.track, TrackId::MarineAttack);
    // fire stays pressed: no second bullet while the cooldown runs
    w.tick(&fire_input(), 16);
    assert_eq!(w.bullets.len(), 1);
    assert_eq!(w.marines[0].cooldown.remaining_ms, 284);
    // run the cooldown out; the moment it reaches zero a second bullet comes
    let mut fired = 1usize;
    for _ in 0..30 {
        let before = w.bullets.len();
        w.tick(&fire_input(), 16);
        if w.bullets.len() > before {
            fired += 1;
        }
    }
    assert_eq!(fired, 2);
}

#[test]
fn bullet_impact_plays_before_despawn() {
    let mut w = World::new();
    // a wall to the right of the shooter
    w.add_terrain(Rect { min_x: 2000, min_y: -100000, max_x: 3000, max_y: 100000 });
    w.spawn_marine(0, 0, 0, 500, 500);
    let events = w.tick(&fire_input(), 100);
    // muzzle at 700 plus 1500 of travel reaches into the wall
    assert!(events.is_empty());
    assert_eq!(w.bullets.len(), 1);
    assert!(w.bullets[0].state.spent);
    assert_eq!(w.bullets[0].anim.track, TrackId::BulletImpact);
    // the one-shot impact track (4 frames of 70 ms) stays visible
    w.tick(&idle_input(), 100);
    assert_eq!(w.bullets.len(), 1);
    assert!(w.bullets[0].state.spent);
    assert_eq!(w.bullets[0].anim.track, TrackId::BulletImpact);
    // only once its last frame has shown for its full duration is it removed
    w.tick(&idle_input(), 100);
    assert_eq!(w.bullets.len(), 0);
}

#[test]
fn damage_applied_once_per_bullet() {
    let mut w = World::new();
    let shooter = w.spawn_marine(0, 0, 0, 500, 500);
    let target = w.spawn_marine(2200, 0, 0, 500, 500);
    let events = w.tick(&fire_input(), 100);
    assert_eq!(events.len(), 1);
    assert_eq!(events[0].target, target);
    assert_ne!(events[0].bullet, shooter);
    assert_eq!(events[0].amount, 25);
    assert!(w.bullets[0].state.spent);
    // later frames report nothing more for that bullet
    let later = w.tick(&idle_input(), 16);
    assert!(later.is_empty());
    let again = w.tick(&idle_input(), 16);
    assert!(again.is_empty());
}

#[test]
fn falling_marine_lands_on_platform_top() {
    let mut w = World::new();
    w.add_terrain(Rect { min_x: -50000, min_y: -2000, max_x: 50000, max_y: 0 });
    w.spawn_marine(0, 2000, 0, 500, 500);
    // first frames: airborne and moving down, the falling track is shown
    w.tick(&idle_input(), 50);
    assert!(!w.marines[0].state.grounded);
    assert!(w.marines[0].velocity.vy < 0);
    assert_eq!(w.marines[0].anim.track, TrackId::MarineFall);
    let mut landed = false;
    for _ in 0..100 {
        w.tick(&idle_input(), 50);
        if w.marines[0].state.grounded {
            landed = true;
            break;
        }
    }
    assert!(landed);
    assert_eq!(w.marines[0].velocity.vy, 0);
    assert_eq!(w.marines[0].transform.y, 500);
    // no residual horizontal velocity: idle is shown after the landing
    assert_eq!(w.marines[0].anim.track, TrackId::MarineIdle);
}

#[test]
fn jump_leaves_the_ground_and_returns() {
    let mut w = standing_scene();
    w.tick(&idle_input(), 16);
    assert!(w.marines[0].state.grounded);
    let jump = InputState { move_left: false, move_right: false, jump: true, fire: false };
    w.tick(&jump, 16);
    assert!(w.marines[0].velocity.vy > 0);
    assert!(!w.marines[0].state.grounded);
    assert_eq!(w.marines[0].anim.track, TrackId::MarineFall);
    let mut back = false;
    for _ in 0..400 {
        w.tick(&idle_input(), 16);
        if w.marines[0].state.grounded {
            back = true;
            break;
        }
    }
    assert!(back);
    assert_eq!(w.marines[0].transform.y, 500);
}

#[test]
fn camera_follows_its_target_smoothly() {
    let mut w = World::new();
    let id = w.spawn_marine(10000, 0, 0, 500, 500);
    w.set_camera_target(Some(id));
    let events = w.tick(&idle_input(), 100);
    assert!(events.is_empty());
    // fraction covered: 5 * 100 / 1000 = one half of the distance
    assert_eq!(w.camera.x, 5000);
    // the marine fell to y = -200 during the frame; the camera follows it
    assert_eq!(w.marines[0].transform.y, -200);
    assert_eq!(w.camera.y, -100);
}

#[test]
fn camera_holds_position_without_a_live_target() {
    let mut w = World::new();
    w.spawn_marine(10000, 0, 0, 500, 500);
    // a target id no entity carries: hold position, no fault
    w.set_camera_target(Some(999));
    w.tick(&idle_input(), 100);
    assert_eq!(w.camera.x, 0);
    assert_eq!(w.camera.y, 0);
    // no target at all: the same
    w.set_camera_target(None);
    w.tick(&idle_input(), 100);
    assert_eq!(w.camera.x, 0);
    assert_eq!(w.camera.y, 0);
}

#[test]
fn bullet_expires_without_impact_animation() {
    let mut w = World::new();
    w.spawn_marine(0, 0, 0, 500, 500);
    w.tick(&fire_input(), 16);
    assert_eq!(w.bullets.len(), 1);
    // the bullet's lifetime is 2000 ms; one long empty frame runs it out
    // and the entity is removed directly, with no impact animation
    w.tick(&idle_input(), 3000);
    assert_eq!(w.bullets.len(), 0);
}

#[test]
fn zero_frame_time_changes_nothing() {
    let mut w = standing_scene();
    w.tick(&idle_input(), 16);
    let x = w.marines[0].transform.x;
    let y = w.marines[0].transform.y;
    let frame = w.marines[0].anim.frame;
    w.tick(&right_input(), 0);
    assert_eq!(w.marines[0].transform.x, x);
    assert_eq!(w.marines[0].transform.y, y);
    assert_eq!(w.marines[0].velocity.vx, 0);
    assert_eq!(w.marines[0].anim.frame, frame);
}

#[test]
fn huge_frame_time_clamps_to_the_playfield() {
    let mut w = World::new();
    w.spawn_marine(0, 500, 0, 500, 500);
    w.tick(&right_input(), u32::MAX);
    // speed capped, then one integration step clamped into the playfield
    assert_eq!(w.marines[0].velocity.vx, 6000);
    assert_eq!(w.marines[0].transform.x, 1_000_000_000);
    assert_eq!(w.marines[0].velocity.vy, -20000);
    assert_eq!(w.marines[0].transform.y, -1_000_000_000);
}
