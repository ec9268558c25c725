use asteroids::settings::{MAX_ASTEROIDS, MAX_PROJECTILES, RADIUS_PER_LEVEL, SPAWN_LEVEL};
use asteroids::world::{collision_radius, setup, Asteroid, World};

fn alive_count(w: &World) -> usize {
    (0..MAX_PROJECTILES).filter(|&i| w.projectile_alive(i)).count()
}

fn total_levels(w: &World) -> i32 {
    (0..MAX_ASTEROIDS).map(|i| w.asteroid(i).level).sum()
}

fn within_only(slots: &[usize]) -> Vec<bool> {
    (0..MAX_ASTEROIDS).map(|i| slots.contains(&i)).collect()
}

#[test]
fn setup_starts_empty() {
    let w = setup();
    for i in 0..MAX_PROJECTILES {
        assert!(!w.projectile_alive(i));
    }
    for i in 0..MAX_ASTEROIDS {
        assert_eq!(w.asteroid(i), Asteroid { level: 0, shape_index: 0 });
    }
    assert_eq!(w.fire_slot(), 0);
    assert_eq!(w.free_asteroid_slot(), Some(0));
}

#[test]
fn fire_takes_first_free_slot() {
    let mut w = setup();
    assert_eq!(w.fire(), 0);
    assert_eq!(w.fire(), 1);
    assert_eq!(w.fire(), 2);
    w.retire_projectile(1);
    assert_eq!(w.fire_slot(), 1);
    assert_eq!(w.fire(), 1);
    assert_eq!(w.fire(), 3);
    assert_eq!(alive_count(&w), 4);
}

#[test]
fn fire_with_full_pool_reuses_slot_zero() {
    let mut w = setup();
    for k in 0..MAX_PROJECTILES {
        assert_eq!(w.fire(), k);
    }
    assert_eq!(alive_count(&w), MAX_PROJECTILES);
    assert_eq!(w.fire_slot(), 0);
    assert_eq!(w.fire(), 0);
    assert_eq!(alive_count(&w), MAX_PROJECTILES);
}

#[test]
fn fire_adds_one_projectile_when_slot_free() {
    let mut w = setup();
    w.fire();
    w.fire();
    let before = alive_count(&w);
    w.fire();
    assert_eq!(alive_count(&w), before + 1);
}

#[test]
fn spawn_fills_first_free_asteroid_slot() {
    let mut w = setup();
    w.place_asteroid(0, 2);
    w.place_asteroid(1, 1);
    assert_eq!(w.free_asteroid_slot(), Some(2));
    assert_eq!(w.asteroid(1), Asteroid { level: SPAWN_LEVEL, shape_index: 1 });
    let before = total_levels(&w);
    w.place_asteroid(2, 0);
    assert_eq!(total_levels(&w), before + SPAWN_LEVEL);
}

#[test]
fn no_free_asteroid_slot_when_all_live() {
    let mut w = setup();
    for k in 0..MAX_ASTEROIDS {
        w.place_asteroid(k, k % 3);
    }
    assert_eq!(w.free_asteroid_slot(), None);
    w.retire_asteroid(7);
    assert_eq!(w.free_asteroid_slot(), Some(7));
    assert_eq!(w.asteroid(7), Asteroid { level: 0, shape_index: 7 % 3 });
}

#[test]
fn hit_lowers_first_live_asteroid_within_reach() {
    let mut w = setup();
    w.place_asteroid(2, 0);
    w.place_asteroid(5, 1);
    let p = w.fire();
    // Slot 0 is in reach but free, slot 2 is live but out of reach.
    let hit = w.resolve_projectile(p, &within_only(&[0, 5, 6]));
    assert_eq!(hit, Some(5));
    assert_eq!(w.asteroid(5).level, SPAWN_LEVEL - 1);
    assert_eq!(w.asteroid(2).level, SPAWN_LEVEL);
    assert!(!w.projectile_alive(p));
}

#[test]
fn hit_costs_one_projectile_and_one_level() {
    let mut w = setup();
    w.place_asteroid(0, 0);
    w.place_asteroid(1, 0);
    w.fire();
    let p = w.fire();
    let levels = total_levels(&w);
    let alive = alive_count(&w);
    assert_eq!(w.resolve_projectile(p, &within_only(&[0, 1])), Some(0));
    assert_eq!(total_levels(&w), levels - 1);
    assert_eq!(alive_count(&w), alive - 1);
}

#[test]
fn miss_changes_nothing() {
    let mut w = setup();
    w.place_asteroid(4, 2);
    let p = w.fire();
    assert_eq!(w.resolve_projectile(p, &within_only(&[3])), None);
    assert!(w.projectile_alive(p));
    assert_eq!(w.asteroid(4).level, SPAWN_LEVEL);
}

#[test]
fn projectile_not_in_flight_hits_nothing() {
    let mut w = setup();
    w.place_asteroid(0, 0);
    assert_eq!(w.resolve_projectile(3, &within_only(&[0])), None);
    assert_eq!(w.asteroid(0).level, SPAWN_LEVEL);
}

#[test]
fn three_hits_destroy_an_asteroid() {
    let mut w = setup();
    w.place_asteroid(0, 1);
    for expected in [2, 1, 0] {
        let p = w.fire();
        assert_eq!(w.resolve_projectile(p, &within_only(&[0])), Some(0));
        assert_eq!(w.asteroid(0).level, expected);
    }
    let p = w.fire();
    assert_eq!(w.resolve_projectile(p, &within_only(&[0])), None);
    assert_eq!(w.free_asteroid_slot(), Some(0));
}

#[test]
fn retire_projectile_leaves_others() {
    let mut w = setup();
    w.fire();
    w.fire();
    w.retire_projectile(0);
    assert!(!w.projectile_alive(0));
    assert!(w.projectile_alive(1));
}

#[test]
fn collision_radius_grows_with_level() {
    assert_eq!(collision_radius(0), 0);
    assert_eq!(collision_radius(1), RADIUS_PER_LEVEL);
    assert_eq!(collision_radius(3), 60);
}
