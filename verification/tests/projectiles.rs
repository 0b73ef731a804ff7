use bazooka::explosion::{
    knockback_velocity, EntityKind, Explosion, Mine, RepeatExploder, KNOCKBACK_SPEED, LETHAL_WINDOW,
};
use bazooka::rocket::{
    compute_load, ContactOutcome, ProjectileState, Rocket, RocketAction, RocketParams,
    DEFAULT_LIFETIME,
};
use bazooka::vector::Vec3;

fn rocket_held_by(local_id: i64) -> Rocket {
    Rocket::new(
        local_id,
        7,
        Vec3::new(1_000_000, 2_000_000, 3_000_000),
        Vec3::zero(),
        Vec3::new(0, 0, -10_000_000),
    )
}

fn armed() -> Rocket {
    rocket_held_by(7)
}

fn observed() -> Rocket {
    rocket_held_by(8)
}

#[test]
fn load_of_a_rocket_flying_straight() {
    let p = RocketParams::standard();
    let load = compute_load(&p, Vec3::new(0, 0, -10_000_000), Vec3::new(0, 0, -1_000_000));
    assert_eq!(load.force, Vec3::new(0, 0, 35_000_000));
    assert_eq!(load.torque, Vec3::zero());
}

#[test]
fn load_of_a_rocket_flying_sideways() {
    let p = RocketParams::standard();
    let load = compute_load(&p, Vec3::new(10_000_000, 0, 0), Vec3::new(0, 1_000_000, 0));
    assert_eq!(load.force, Vec3::new(550_000_000, -1_985_000_000, 0));
    assert_eq!(load.torque, Vec3::new(0, 0, -5_000_000_000));
}

#[test]
fn load_of_a_rocket_at_rest_is_its_thrust() {
    let p = RocketParams::standard();
    let load = compute_load(&p, Vec3::zero(), Vec3::new(0, 0, -1_000_000));
    assert_eq!(load.force, Vec3::new(0, 0, -15_000_000));
    assert_eq!(load.torque, Vec3::zero());
}

#[test]
fn only_the_authority_simulates_a_rocket() {
    let mut r = observed();
    let before = r;
    let tick = r.physics_process(100_000, Vec3::new(0, 0, -1_000_000));
    assert_eq!(r, before);
    assert_eq!(tick.load, None);
    assert_eq!(tick.action, RocketAction::Nothing);
    assert!(!r.is_authority());
    assert!(armed().is_authority());
}

#[test]
fn lifetime_shrinks_by_the_tick() {
    let mut r = armed();
    let tick = r.physics_process(250_000, Vec3::new(0, 0, -1_000_000));
    assert_eq!(r.state, ProjectileState::Armed { lifetime: DEFAULT_LIFETIME - 250_000 });
    assert_eq!(tick.action, RocketAction::Nothing);
    assert_eq!(tick.load.unwrap().force, Vec3::new(0, 0, 35_000_000));
}

#[test]
fn timeout_detonates_in_place() {
    let mut r = armed();
    r.physics_process(600_000, Vec3::new(0, 0, -1_000_000));
    let tick = r.physics_process(400_000, Vec3::new(0, 0, -1_000_000));
    assert_eq!(r.state, ProjectileState::Exploding);
    assert_eq!(tick.action, RocketAction::BroadcastExplode(r.position));
    let again = r.physics_process(400_000, Vec3::new(0, 0, -1_000_000));
    assert_eq!(again.action, RocketAction::Nothing);
    assert_eq!(again.load, None);
    let blast = r.explode(r.position);
    assert_eq!(blast, Some(Explosion::spawn(Vec3::new(1_000_000, 2_000_000, 3_000_000))));
    assert_eq!(r.state, ProjectileState::Freed);
}

#[test]
fn legacy_timeout_leaves_silently() {
    let mut r = armed();
    r.detonate_on_timeout = false;
    let tick = r.physics_process(1_000_001, Vec3::new(0, 0, -1_000_000));
    assert_eq!(tick.action, RocketAction::Despawned);
    assert_eq!(r.state, ProjectileState::Freed);
    assert_eq!(r.explode(r.position), None);
}

#[test]
fn duplicate_contacts_create_one_explosion() {
    let mut r = armed();
    let mut created = 0;
    let mut broadcasts = 0;
    for _ in 0..3 {
        match r.on_body_entered() {
            ContactOutcome::Broadcast(p) => {
                assert_eq!(p, r.position);
                broadcasts += 1;
            }
            ContactOutcome::Ignored => {}
        }
    }
    assert_eq!(broadcasts, 1);
    assert_eq!(r.state, ProjectileState::Exploding);
    for _ in 0..3 {
        if r.explode(r.position).is_some() {
            created += 1;
        }
        assert_eq!(r.on_body_entered(), ContactOutcome::Ignored);
    }
    assert_eq!(created, 1);
    assert_eq!(r.state, ProjectileState::Freed);
}

#[test]
fn no_copy_detonates_on_its_own() {
    let mut seen = observed();
    let before = seen;
    assert_eq!(seen.on_body_entered(), ContactOutcome::Ignored);
    assert_eq!(seen, before);
    assert_eq!(seen.state, ProjectileState::Armed { lifetime: DEFAULT_LIFETIME });

    let mut mine = armed();
    assert_eq!(mine.on_body_entered(), ContactOutcome::Broadcast(mine.position));
    assert_eq!(mine.state, ProjectileState::Exploding);

    let at = mine.position;
    assert_eq!(seen.explode(at), Some(Explosion::spawn(at)));
    assert_eq!(mine.explode(at), Some(Explosion::spawn(at)));
    assert_eq!(seen.state, ProjectileState::Freed);
    assert_eq!(mine.state, ProjectileState::Freed);
    assert_eq!(seen.on_body_entered(), ContactOutcome::Ignored);
}

#[test]
fn explosion_counts_time_and_outlives_its_window() {
    let mut e = Explosion::spawn(Vec3::new(1, 2, 3));
    assert_eq!(e.get_time(), 0);
    assert!(e.is_lethal());
    e.physics_process(190_000);
    assert_eq!(e.get_time(), 190_000);
    assert!(e.is_lethal());
    e.physics_process(10_000);
    assert_eq!(e.get_time(), LETHAL_WINDOW);
    assert!(!e.is_lethal());
    assert!(!e.freed);
    assert!(e.emitting);
    e.on_effect_finished();
    assert!(e.freed);
    assert!(!e.emitting);
}

#[test]
fn overlap_knocks_players_back_inside_the_window() {
    let mut e = Explosion::spawn(Vec3::zero());
    let at = Vec3::new(3_000_000, 0, 4_000_000);
    e.physics_process(190_000);
    assert_eq!(e.on_overlap(EntityKind::Player, at), Some(Vec3::new(12_000_000, 0, 16_000_000)));
    assert_eq!(e.on_overlap(EntityKind::Player, at), Some(Vec3::new(12_000_000, 0, 16_000_000)));
    assert_eq!(e.on_overlap(EntityKind::RigidBody, at), None);
    e.physics_process(20_000);
    assert_eq!(e.on_overlap(EntityKind::Player, at), None);
    assert_eq!(knockback_velocity(at, at), Vec3::zero());
    assert_eq!(knockback_velocity(Vec3::zero(), Vec3::new(0, 5, 0)), Vec3::new(0, KNOCKBACK_SPEED, 0));
}

#[test]
fn mine_detonates_once_under_a_player() {
    let mut m = Mine::new(Vec3::new(5, 6, 7));
    assert_eq!(m.on_stomped(EntityKind::RigidBody), None);
    assert!(!m.freed);
    assert_eq!(m.on_stomped(EntityKind::Player), Some(Explosion::spawn(Vec3::new(5, 6, 7))));
    assert!(m.freed);
    assert_eq!(m.on_stomped(EntityKind::Player), None);
}

#[test]
fn repeat_exploder_fires_each_period() {
    let mut x = RepeatExploder::new(Vec3::new(1, 1, 1), 1_000_000);
    assert_eq!(x.physics_process(400_000), None);
    assert_eq!(x.physics_process(400_000), None);
    assert_eq!(x.physics_process(400_000), Some(Explosion::spawn(Vec3::new(1, 1, 1))));
    assert!(x.timer.running);
    assert_eq!(x.timer.remaining, 1_000_000);
    assert_eq!(x.physics_process(999_999), None);
    assert_eq!(x.physics_process(1), Some(x.spawn_new_explosion()));
}
