use bazooka::explosion::{EntityKind, Explosion};
use bazooka::fixed::{HALF_PI, SCALE, TAU};
use bazooka::movement::{brake, KinematicSnapshot, MoveInput, PlayerKinematicBody};
use bazooka::player::{Area, DynamicSnapshot, InputEvent, Player, PlayerDynamicBody, ShootRequest};
use bazooka::rocket::{ProjectileState, DEFAULT_LIFETIME};
use bazooka::timer::Countdown;
use bazooka::vector::Vec3;

const DT: i64 = 16_667;

fn gravity() -> Vec3 {
    Vec3::new(0, -9_800_000, 0)
}

fn owner() -> Player {
    Player::new(1, 1, Vec3::new(0, 1_000_000, 0), Vec3::zero(), gravity(), 2_000_000, 1_000_000)
}

fn mirror() -> Player {
    Player::new(2, 1, Vec3::new(0, 1_000_000, 0), Vec3::zero(), gravity(), 2_000_000, 1_000_000)
}

fn idle(on_floor: bool) -> MoveInput {
    MoveInput { captured: true, movement: Vec3::zero(), jump: false, on_floor }
}

fn exactly_one_live(p: &Player) -> bool {
    let kin = p.kinematic.visible && p.kinematic.processing;
    let rag = p.dynamic.visible && p.dynamic.processing;
    kin != rag && rag == p.ragdoll && p.kinematic.visible == p.kinematic.processing
        && p.dynamic.visible == p.dynamic.processing
}

#[test]
fn countdown_expires_once() {
    let mut c = Countdown::new(500_000);
    assert!(!c.tick(1_000_000));
    c.start();
    assert!(!c.tick(200_000));
    assert_eq!(c.remaining, 300_000);
    assert!(c.tick(300_000));
    assert!(!c.running);
    assert!(!c.tick(300_000));
}

#[test]
fn braking_reaches_zero_and_stays_there() {
    let mut body = PlayerKinematicBody::new(Vec3::zero(), Vec3::zero(), gravity());
    body.velocity = Vec3::new(3_000_000, 0, 0);
    for tick in 1..=14 {
        body.physics_process(true, DT, idle(true));
        assert_eq!(body.velocity.x, 3_000_000 - tick * 200_004);
        assert_eq!(body.velocity.z, 0);
    }
    body.physics_process(true, DT, idle(true));
    assert_eq!(body.velocity.x, 0);
    assert_eq!(body.velocity.z, 0);
    for _ in 0..10 {
        body.physics_process(true, DT, idle(true));
        assert_eq!(body.velocity.x, 0);
        assert_eq!(body.velocity.z, 0);
    }
}

#[test]
fn braking_never_overshoots_on_a_diagonal() {
    let mut h = Vec3::new(-2_000_000, 0, 1_500_000);
    let mut last = h.length();
    let mut ticks = 0;
    while h != Vec3::zero() {
        h = brake(h, 200_004);
        assert!(h.length() <= last - 200_004 || h == Vec3::zero());
        assert!(h.x <= 0 && h.z >= 0);
        last = h.length();
        ticks += 1;
    }
    assert!(ticks <= 13);
    assert_eq!(brake(h, 200_004), Vec3::zero());
}

#[test]
fn gravity_pulls_and_a_jump_needs_the_floor() {
    let mut body = PlayerKinematicBody::new(Vec3::zero(), Vec3::zero(), gravity());
    let air = MoveInput { captured: true, movement: Vec3::zero(), jump: true, on_floor: false };
    let snap = body.physics_process(true, 100_000, air).unwrap();
    assert_eq!(body.velocity, Vec3::new(0, -980_000, 0));
    assert!(body.jumping);
    assert_eq!(snap.velocity, body.velocity);
    assert!(snap.jumping);
    let floor = MoveInput { captured: true, movement: Vec3::zero(), jump: true, on_floor: true };
    body.physics_process(true, 100_000, floor);
    assert_eq!(body.velocity.y, 4_000_000);
    assert!(body.jumping);
    let rest = MoveInput { captured: true, movement: Vec3::zero(), jump: false, on_floor: true };
    body.physics_process(true, 100_000, rest);
    assert_eq!(body.velocity.y, 4_000_000 - 980_000);
    assert!(!body.jumping);
}

#[test]
fn walking_accelerates_up_to_the_top_speed() {
    let mut body = PlayerKinematicBody::new(Vec3::zero(), Vec3::zero(), gravity());
    let walk = MoveInput {
        captured: true,
        movement: Vec3::new(0, 7_000_000, -2_000_000),
        jump: false,
        on_floor: true,
    };
    body.physics_process(true, 100_000, walk);
    assert_eq!(body.velocity.x, 0);
    assert_eq!(body.velocity.z, -1_200_000);
    for _ in 0..10 {
        body.physics_process(true, 100_000, walk);
    }
    assert_eq!(body.velocity.z, -4_000_000);
    assert_eq!(body.velocity.x, 0);
}

#[test]
fn input_is_ignored_while_not_captured() {
    let mut body = PlayerKinematicBody::new(Vec3::zero(), Vec3::zero(), gravity());
    let paused = MoveInput {
        captured: false,
        movement: Vec3::new(1_000_000, 0, 0),
        jump: true,
        on_floor: true,
    };
    body.physics_process(true, 100_000, paused);
    assert_eq!(body.velocity, Vec3::new(0, -980_000, 0));
    assert!(!body.jumping);
    let before = body;
    body.input(true, false, 5_000_000, 5_000_000);
    assert_eq!(body, before);
}

#[test]
fn observers_and_frozen_bodies_do_not_integrate() {
    let mut body = PlayerKinematicBody::new(Vec3::zero(), Vec3::zero(), gravity());
    let before = body;
    assert_eq!(body.physics_process(false, DT, idle(true)), None);
    assert_eq!(body, before);
    body.processing = false;
    let frozen = body;
    assert_eq!(body.physics_process(true, DT, idle(true)), None);
    assert_eq!(body, frozen);
}

#[test]
fn yaw_wraps_below_zero() {
    let mut body = PlayerKinematicBody::new(Vec3::zero(), Vec3::zero(), gravity());
    body.base_mouse_sensitivity = SCALE;
    body.on_mouse_sensitivity_changed(SCALE);
    body.rotation = Vec3::new(0, 100_000, 0);
    body.input(true, true, 200_000, 0);
    assert_eq!(body.rotation.y, TAU - 100_000);
    assert!(body.rotation.y >= 0);
    body.input(true, true, -200_000, 0);
    assert_eq!(body.rotation.y, 100_000);
}

#[test]
fn pitch_is_clamped_and_sensitivity_scales() {
    let mut body = PlayerKinematicBody::new(Vec3::zero(), Vec3::zero(), gravity());
    body.input(true, true, -100_000_000, 100_000_000);
    assert_eq!(body.rotation.y, 350_000);
    assert_eq!(body.camera_rotation.x, -350_000);
    assert_eq!(body.mesh_rotation, body.camera_rotation);
    assert_eq!(body.bazooka_rotation, Vec3::new(-350_000, 0, 0));
    body.input(true, true, 0, 1_000_000_000);
    assert_eq!(body.camera_rotation.x, -HALF_PI);
    body.input(true, true, 0, -2_000_000_000);
    assert_eq!(body.camera_rotation.x, HALF_PI);
    body.on_mouse_sensitivity_changed(1_000_000);
    body.input(true, true, 0, 100_000_000);
    assert_eq!(body.camera_rotation.x, HALF_PI - 700_000);
}

#[test]
fn authority_never_applies_its_own_snapshots() {
    let snap = KinematicSnapshot {
        jumping: false,
        position: Vec3::new(9, 9, 9),
        velocity: Vec3::new(8, 8, 8),
        yaw_rotation: Vec3::new(0, 7, 0),
        cam_rotation: Vec3::new(6, 0, 0),
    };
    let mut body = PlayerKinematicBody::new(Vec3::zero(), Vec3::zero(), gravity());
    let before = body;
    body.sync_state(true, snap);
    assert_eq!(body, before);
    body.sync_state(false, snap);
    assert_eq!(body.position, snap.position);
    assert_eq!(body.velocity, snap.velocity);
    assert_eq!(body.rotation, snap.yaw_rotation);
    assert_eq!(body.camera_rotation, snap.cam_rotation);
    assert_eq!(body.mesh_rotation, snap.cam_rotation);
    assert!(!body.jumping);
    let again = body;
    body.sync_state(false, snap);
    assert_eq!(body, again);

    let dsnap = DynamicSnapshot {
        position: Vec3::new(1, 2, 3),
        rotation: Vec3::new(4, 5, 6),
        velocity: Vec3::new(7, 8, 9),
        ang_velocity: Vec3::new(10, 11, 12),
    };
    let mut rag = PlayerDynamicBody::new(Vec3::zero(), Vec3::zero(), 1);
    let rag_before = rag;
    rag.update_states(true, dsnap);
    assert_eq!(rag, rag_before);
    rag.update_states(false, dsnap);
    assert_eq!(rag.position, dsnap.position);
    assert_eq!(rag.rotation, dsnap.rotation);
    assert_eq!(rag.linear_velocity, dsnap.velocity);
    assert_eq!(rag.angular_velocity, dsnap.ang_velocity);

    let mut me = owner();
    let me_before = me;
    me.sync_ragdoll(true);
    assert_eq!(me, me_before);
}

#[test]
fn ragdoll_body_sends_only_from_the_live_authority() {
    let mut rag = PlayerDynamicBody::new(Vec3::new(1, 2, 3), Vec3::zero(), 0xffff_ff01);
    assert_eq!(rag.physics_process(true), None);
    rag.processing = true;
    assert_eq!(rag.physics_process(false), None);
    let snap = rag.physics_process(true).unwrap();
    assert_eq!(snap.position, Vec3::new(1, 2, 3));
    rag.ready(true);
    assert_eq!(rag.collision_layer, 0xffff_ff81);
    rag.ready(false);
    assert_eq!(rag.collision_layer, 0x01);
    assert_eq!(owner().dynamic.collision_layer, 0x81);
    assert_eq!(mirror().dynamic.collision_layer, 0x01);
}

#[test]
fn one_body_is_live_through_every_transition() {
    let mut p = owner();
    assert!(exactly_one_live(&p));
    assert!(!p.ragdoll);
    p.begin_ragdoll();
    assert!(exactly_one_live(&p) && p.ragdoll);
    p.physics_process(DT);
    assert!(exactly_one_live(&p) && p.ragdoll);
    p.on_area_entered(Area::Explosion(Explosion::spawn(Vec3::zero())));
    assert!(exactly_one_live(&p) && p.ragdoll);
    p.respawn(Vec3::new(5, 5, 5));
    assert!(exactly_one_live(&p) && !p.ragdoll);
    p.end_ragdoll();
    assert!(exactly_one_live(&p) && !p.ragdoll);
    let mut q = mirror();
    q.sync_ragdoll(true);
    assert!(exactly_one_live(&q) && q.ragdoll);
    q.sync_ragdoll(true);
    assert!(exactly_one_live(&q) && q.ragdoll);
    q.sync_ragdoll(false);
    assert!(exactly_one_live(&q) && !q.ragdoll);
}

#[test]
fn recovery_resumes_from_the_ragdolls_pose() {
    let mut q = mirror();
    q.sync_ragdoll(true);
    q.dynamic.position = Vec3::new(1_000_000, 1_000_000, 1_000_000);
    q.dynamic.linear_velocity = Vec3::new(0, -3_000_000, 500_000);
    q.sync_ragdoll(false);
    assert!(!q.ragdoll);
    assert!(exactly_one_live(&q));
    assert_eq!(q.kinematic.position, Vec3::new(1_000_000, 1_000_000, 1_000_000));
    assert_eq!(q.kinematic.velocity, Vec3::new(0, -3_000_000, 500_000));

    let mut p = owner();
    p.begin_ragdoll();
    p.dynamic.position = Vec3::new(7, 8, 9);
    p.dynamic.linear_velocity = Vec3::new(1, 2, 3);
    p.end_ragdoll();
    assert_eq!(p.kinematic.position, Vec3::new(7, 8, 9));
    assert_eq!(p.kinematic.velocity, Vec3::new(1, 2, 3));
    let settled = p;
    p.dynamic.position = Vec3::new(0, 0, 0);
    p.end_ragdoll();
    let mut expected = settled;
    expected.dynamic.position = Vec3::new(0, 0, 0);
    assert_eq!(p, expected);

    let mut t = owner();
    t.begin_ragdoll();
    t.dynamic.position = Vec3::new(4, 5, 6);
    t.dynamic.linear_velocity = Vec3::new(6, 5, 4);
    t.physics_process(2_000_000);
    assert!(!t.ragdoll);
    assert_eq!(t.kinematic.position, Vec3::new(4, 5, 6));
    assert_eq!(t.kinematic.velocity, Vec3::new(6, 5, 4));
}

#[test]
fn begin_ragdoll_twice_only_restarts_the_timer() {
    let mut p = owner();
    p.begin_ragdoll();
    p.physics_process(500_000);
    assert_eq!(p.ragdoll_timer.remaining, 1_500_000);
    let before = p;
    p.begin_ragdoll();
    assert_eq!(p.ragdoll_timer.remaining, 2_000_000);
    let mut expected = before;
    expected.ragdoll_timer.remaining = 2_000_000;
    assert_eq!(p, expected);
}

#[test]
fn timer_expiry_returns_to_kinematic_after_many_triggers() {
    let mut p = owner();
    let mut blast = Explosion::spawn(Vec3::zero());
    p.on_area_entered(Area::Explosion(blast));
    assert!(p.ragdoll);
    for _ in 0..5 {
        p.physics_process(30_000);
        blast.physics_process(30_000);
        p.on_area_entered(Area::Explosion(blast));
        p.input(true, InputEvent { ragdoll_pressed: true, shoot_pressed: false }, Vec3::zero(), Vec3::zero());
    }
    assert!(p.ragdoll);
    assert_eq!(p.ragdoll_timer.remaining, 2_000_000);
    p.physics_process(1_999_999);
    assert!(p.ragdoll);
    p.physics_process(1);
    assert!(!p.ragdoll);
    assert!(exactly_one_live(&p));
    p.physics_process(5_000_000);
    assert!(!p.ragdoll);
}

#[test]
fn lethal_window_decides_the_knockback() {
    let mut early = Explosion::spawn(Vec3::zero());
    early.physics_process(190_000);
    let mut late = Explosion::spawn(Vec3::zero());
    late.physics_process(210_000);

    let mut p = owner();
    p.dynamic.position = Vec3::new(0, 0, -2_000_000);
    p.on_area_entered(Area::Explosion(early));
    assert!(p.ragdoll);
    assert_eq!(p.dynamic.linear_velocity, Vec3::new(0, 0, -20_000_000));

    let mut q = owner();
    q.dynamic.position = Vec3::new(0, 0, -2_000_000);
    let before = q;
    q.on_area_entered(Area::Explosion(late));
    assert_eq!(q, before);
    q.on_area_entered(Area::Other(EntityKind::Player));
    assert_eq!(q, before);
}

#[test]
fn tick_mirrors_the_live_body_into_the_other() {
    let mut p = owner();
    p.kinematic.position = Vec3::new(1, 2, 3);
    p.kinematic.velocity = Vec3::new(4, 5, 6);
    let report = p.physics_process(DT);
    assert_eq!(p.dynamic.position, Vec3::new(1, 2, 3));
    assert_eq!(p.dynamic.linear_velocity, Vec3::new(4, 5, 6));
    assert_eq!(p.position, Vec3::new(1, 2, 3));
    assert_eq!(report.sync_ragdoll, Some(false));
    assert!(!report.out_of_bounds);
    p.begin_ragdoll();
    p.dynamic.position = Vec3::new(7, -10_000_001, 9);
    p.dynamic.linear_velocity = Vec3::new(1, 1, 1);
    let report = p.physics_process(DT);
    assert_eq!(p.kinematic.position, Vec3::new(7, -10_000_001, 9));
    assert_eq!(p.kinematic.velocity, Vec3::new(1, 1, 1));
    assert_eq!(report.sync_ragdoll, Some(true));
    assert!(report.out_of_bounds);
    assert!(p.out_of_bounds());
    let mut q = mirror();
    q.kinematic.position = Vec3::new(0, -20_000_000, 0);
    let report = q.physics_process(DT);
    assert_eq!(report.sync_ragdoll, None);
    assert!(!report.out_of_bounds);
    p.dynamic.position = Vec3::new(0, -10_000_000, 0);
    assert!(!p.physics_process(DT).out_of_bounds);
}

#[test]
fn shooting_needs_a_loaded_bazooka() {
    let mut p = owner();
    p.kinematic.velocity = Vec3::new(1_000_000, 0, 0);
    let shoot = InputEvent { ragdoll_pressed: false, shoot_pressed: true };
    let aim = Vec3::new(0, 1_500_000, -500_000);
    let request = p.input(true, shoot, aim, Vec3::new(0, 100_000, 0)).unwrap();
    assert_eq!(
        request,
        ShootRequest { position: aim, rotation: Vec3::new(0, 100_000, 0), base_velocity: p.kinematic.velocity }
    );
    assert_eq!(p.input(false, shoot, aim, Vec3::zero()), None);
    let rocket = p.shoot_rocket(request, Vec3::new(0, 0, -1_000_000)).unwrap();
    assert_eq!(rocket.authority, 1);
    assert_eq!(rocket.local_id, 1);
    assert_eq!(rocket.position, aim);
    assert_eq!(rocket.rotation, Vec3::new(0, 100_000, 0));
    assert_eq!(rocket.linear_velocity, Vec3::new(1_000_000, 0, -15_000_000));
    assert_eq!(rocket.state, ProjectileState::Armed { lifetime: DEFAULT_LIFETIME });
    assert!(!p.bazooka_loaded);
    assert_eq!(p.shoot_rocket(request, Vec3::new(0, 0, -1_000_000)), None);
    p.physics_process(999_999);
    assert!(!p.bazooka_loaded);
    p.physics_process(1);
    assert!(p.bazooka_loaded);
    assert!(p.shoot_rocket(request, Vec3::new(0, 0, -1_000_000)).is_some());
}

#[test]
fn a_ragdoll_cannot_shoot_and_observers_ignore_input() {
    let mut p = owner();
    let both = InputEvent { ragdoll_pressed: true, shoot_pressed: true };
    assert_eq!(p.input(true, both, Vec3::zero(), Vec3::zero()), None);
    assert!(p.ragdoll);
    let shoot = InputEvent { ragdoll_pressed: false, shoot_pressed: true };
    assert_eq!(p.input(true, shoot, Vec3::zero(), Vec3::zero()), None);
    let mut q = mirror();
    let before = q;
    assert_eq!(q.input(true, both, Vec3::zero(), Vec3::zero()), None);
    assert_eq!(q, before);
}

#[test]
fn respawn_resets_place_motion_and_mode() {
    let mut p = Player::new(1, 1, Vec3::zero(), Vec3::new(0, 250_000, 0), gravity(), 2_000_000, 1_000_000);
    p.begin_ragdoll();
    p.dynamic.linear_velocity = Vec3::new(1, 2, 3);
    p.dynamic.angular_velocity = Vec3::new(1, 2, 3);
    p.dynamic.rotation = Vec3::new(9, 9, 9);
    p.kinematic.rotation = Vec3::new(0, 3_000_000, 0);
    p.kinematic.velocity = Vec3::new(4, 5, 6);
    let pos = Vec3::new(10_000_000, 0, -10_000_000);
    p.respawn(pos);
    assert_eq!(p.position, pos);
    assert_eq!(p.kinematic.position, pos);
    assert_eq!(p.dynamic.position, pos);
    assert_eq!(p.kinematic.velocity, Vec3::zero());
    assert_eq!(p.dynamic.linear_velocity, Vec3::zero());
    assert_eq!(p.dynamic.angular_velocity, Vec3::zero());
    assert_eq!(p.kinematic.rotation, Vec3::new(0, 250_000, 0));
    assert_eq!(p.dynamic.rotation, Vec3::new(0, 250_000, 0));
    assert!(!p.ragdoll);
    assert!(exactly_one_live(&p));
    p.set_peer_id(5);
    assert_eq!(p.get_peer_id(), 5);
    assert!(!p.is_authority());
    p.set_camera_current(true);
    assert!(p.kinematic.camera_current);
}
