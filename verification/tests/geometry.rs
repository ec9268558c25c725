use asteroids::input::{steer, Steer};
use asteroids::settings::{OFF_SCREEN_MARGIN, SCREEN_HEIGHT, SCREEN_WIDTH};
use asteroids::shapes::{asteroid_shape, fan_triangles};
use asteroids::spawn::{spawn_asteroid, spawn_origin, spawn_side, Point, SpawnSide};

#[test]
fn steer_prefers_negative_key() {
    assert_eq!(steer(true, true), Steer::Negative);
    assert_eq!(steer(true, false), Steer::Negative);
    assert_eq!(steer(false, true), Steer::Positive);
    assert_eq!(steer(false, false), Steer::Coast);
}

#[test]
fn spawn_sides_follow_roll_order() {
    assert_eq!(spawn_side(0), SpawnSide::Top);
    assert_eq!(spawn_side(1), SpawnSide::Bottom);
    assert_eq!(spawn_side(2), SpawnSide::Left);
    assert_eq!(spawn_side(3), SpawnSide::Right);
}

#[test]
fn spawn_origins_lie_a_tenth_outside() {
    assert_eq!(spawn_origin(SpawnSide::Top, 12), Point { x: 12, y: -64 });
    assert_eq!(spawn_origin(SpawnSide::Bottom, 12), Point { x: 12, y: 704 });
    assert_eq!(spawn_origin(SpawnSide::Left, 30), Point { x: -64, y: 30 });
    assert_eq!(spawn_origin(SpawnSide::Right, 30), Point { x: 704, y: 30 });
}

fn outside_screen(p: Point) -> bool {
    p.x < 0 || p.x > SCREEN_WIDTH || p.y < 0 || p.y > SCREEN_HEIGHT
}

fn beyond_margin(p: Point) -> bool {
    p.x < -OFF_SCREEN_MARGIN
        || p.x > SCREEN_WIDTH + OFF_SCREEN_MARGIN
        || p.y < -OFF_SCREEN_MARGIN
        || p.y > SCREEN_HEIGHT + OFF_SCREEN_MARGIN
}

#[test]
fn spawn_origin_off_screen_within_margin() {
    for roll in 0..4 {
        for along in [0, 1, 320, 638, 639] {
            let p = spawn_origin(spawn_side(roll), along);
            assert!(outside_screen(p));
            assert!(!beyond_margin(p));
        }
    }
}

#[test]
fn spawn_plan_heads_into_screen() {
    let plan = spawn_asteroid(0, 100, 300, 200, 2);
    assert_eq!(plan.origin, Point { x: 100, y: -64 });
    assert_eq!(plan.heading, Point { x: 200, y: 264 });
    assert_eq!(plan.shape_index, 2);
    let plan = spawn_asteroid(3, 639, 0, 639, 0);
    assert_eq!(plan.origin, Point { x: 704, y: 639 });
    assert_eq!(plan.heading, Point { x: -704, y: 0 });
    let plan = spawn_asteroid(1, 0, 0, 639, 1);
    assert_eq!(plan.heading, Point { x: 0, y: -65 });
    let plan = spawn_asteroid(2, 5, 0, 5, 1);
    assert_eq!(plan.heading, Point { x: 64, y: 0 });
}

#[test]
fn shapes_are_closed_fans() {
    for i in 0..3 {
        let s = asteroid_shape(i);
        assert_eq!(s.len(), 9);
        assert_eq!(s[0], Point { x: 0, y: 0 });
        assert_eq!(s[8], s[1]);
    }
    assert_eq!(asteroid_shape(0)[2], Point { x: 10, y: -50 });
    assert_eq!(asteroid_shape(1)[3], Point { x: 50, y: 0 });
    assert_eq!(asteroid_shape(2)[7], Point { x: -50, y: 0 });
}

#[test]
fn fan_of_nine_points_has_seven_triangles() {
    let t = fan_triangles(9);
    assert_eq!(t.len(), 7);
    assert_eq!(t[0], (0, 2, 1));
    assert_eq!(t[6], (0, 8, 7));
}

#[test]
fn small_fans_are_empty() {
    assert!(fan_triangles(1).is_empty());
    assert!(fan_triangles(2).is_empty());
    assert_eq!(fan_triangles(3), vec![(0, 2, 1)]);
}
