use vstd::prelude::*;

verus! {

/// Width of the playing field in pixels.
pub const SCREEN_WIDTH: i32 = 640;

/// Height of the playing field in pixels.
pub const SCREEN_HEIGHT: i32 = 640;

/// Number of projectile slots; a shot reuses a slot that is not in flight.
pub const MAX_PROJECTILES: usize = 30;

/// Number of asteroid slots; a slot whose level is zero is free.
pub const MAX_ASTEROIDS: usize = 10;

/// Level of a freshly spawned asteroid: it survives that many hits.
pub const SPAWN_LEVEL: i32 = 3;

/// Collision radius contributed by each remaining level of an asteroid.
pub const RADIUS_PER_LEVEL: i32 = 20;

/// Distance beyond the screen edge at which an asteroid is discarded.
pub const OFF_SCREEN_MARGIN: i32 = 100;

/// Number of asteroid outlines.
pub const SHAPE_COUNT: usize = 3;

/// Number of sides of the screen from which an asteroid may enter.
pub const SPAWN_SIDE_COUNT: i32 = 4;

/// Distance of the spawn line from the screen edge, as a fraction of the
/// screen extent: an asteroid appears one tenth of the extent outside.
pub const SPAWN_OFFSET_DIVISOR: i32 = 10;

} // verus!
