use vstd::prelude::*;

use crate::settings::{
    OFF_SCREEN_MARGIN, SCREEN_HEIGHT, SCREEN_WIDTH, SHAPE_COUNT, SPAWN_OFFSET_DIVISOR,
    SPAWN_SIDE_COUNT,
};

verus! {

/// A point with integer coordinates, in pixels.
#[derive(Clone, Copy, Debug, PartialEq, Eq, Structural)]
pub struct Point {
    pub x: i32,
    pub y: i32,
}

/// The side of the screen an asteroid enters from.
#[derive(Clone, Copy, Debug, PartialEq, Eq, Structural)]
pub enum SpawnSide {
    Top,
    Bottom,
    Left,
    Right,
}

/// Where a new asteroid starts, which way it heads, and its outline.
#[derive(Clone, Copy, Debug, PartialEq, Eq, Structural)]
pub struct SpawnPlan {
    /// Starting position, just outside the screen.
    pub origin: Point,
    /// Vector from the origin to the aimed-at point on the screen; the
    /// asteroid moves along it.
    pub heading: Point,
    /// Outline the asteroid is drawn with.
    pub shape_index: usize,
}

/// The side selected by a roll, in the order top, bottom, left, right.
pub open spec fn side_of_roll(roll: int) -> SpawnSide {
    if roll == 0 {
        SpawnSide::Top
    } else if roll == 1 {
        SpawnSide::Bottom
    } else if roll == 2 {
        SpawnSide::Left
    } else {
        SpawnSide::Right
    }
}

/// Selects the entry side from a roll in `0 .. SPAWN_SIDE_COUNT`.
pub fn spawn_side(roll: i32) -> (side: SpawnSide)
    requires
        0 <= roll < SPAWN_SIDE_COUNT,
    ensures
        side == side_of_roll(roll as int),
        roll == 0 ==> side == SpawnSide::Top,
        roll == 1 ==> side == SpawnSide::Bottom,
        roll == 2 ==> side == SpawnSide::Left,
        roll == 3 ==> side == SpawnSide::Right,
{
    if roll == 0 {
        SpawnSide::Top
    } else if roll == 1 {
        SpawnSide::Bottom
    } else if roll == 2 {
        SpawnSide::Left
    } else {
        SpawnSide::Right
    }
}

/// The starting point on the given side: one tenth of the screen extent
/// beyond the edge, at coordinate `along` along that edge.
pub open spec fn origin_of(side: SpawnSide, along: int) -> (int, int) {
    match side {
        SpawnSide::Top => (along, -(SCREEN_HEIGHT / SPAWN_OFFSET_DIVISOR)),
        SpawnSide::Right => (SCREEN_WIDTH + SCREEN_WIDTH / SPAWN_OFFSET_DIVISOR, along),
        SpawnSide::Bottom => (along, SCREEN_HEIGHT + SCREEN_HEIGHT / SPAWN_OFFSET_DIVISOR),
        SpawnSide::Left => (-(SCREEN_WIDTH / SPAWN_OFFSET_DIVISOR), along),
    }
}

/// Computes the starting point of an asteroid entering from `side`.
pub fn spawn_origin(side: SpawnSide, along: i32) -> (p: Point)
    ensures
        (p.x as int, p.y as int) == origin_of(side, along as int),
        (side == SpawnSide::Top || side == SpawnSide::Bottom) ==> p.x == along,
        (side == SpawnSide::Left || side == SpawnSide::Right) ==> p.y == along,
        side == SpawnSide::Top ==> -p.y * SPAWN_OFFSET_DIVISOR == SCREEN_HEIGHT,
        side == SpawnSide::Bottom ==> (p.y - SCREEN_HEIGHT) * SPAWN_OFFSET_DIVISOR
            == SCREEN_HEIGHT,
        side == SpawnSide::Left ==> -p.x * SPAWN_OFFSET_DIVISOR == SCREEN_WIDTH,
        side == SpawnSide::Right ==> (p.x - SCREEN_WIDTH) * SPAWN_OFFSET_DIVISOR == SCREEN_WIDTH,
{
    match side {
        SpawnSide::Top => Point { x: along, y: -(SCREEN_HEIGHT / SPAWN_OFFSET_DIVISOR) },
        SpawnSide::Right => Point {
            x: SCREEN_WIDTH + SCREEN_WIDTH / SPAWN_OFFSET_DIVISOR,
            y: along,
        },
        SpawnSide::Bottom => Point {
            x: along,
            y: SCREEN_HEIGHT + SCREEN_HEIGHT / SPAWN_OFFSET_DIVISOR,
        },
        SpawnSide::Left => Point { x: -(SCREEN_WIDTH / SPAWN_OFFSET_DIVISOR), y: along },
    }
}

/// Plans a new asteroid from the rolls drawn for it: the entry side, the
/// position along that side, the aimed-at point, and the outline. The
/// asteroid heads from its origin towards the aimed-at point.
pub fn spawn_asteroid(
    side_roll: i32,
    along_roll: i32,
    target_x: i32,
    target_y: i32,
    shape_roll: i32,
) -> (plan: SpawnPlan)
    requires
        0 <= side_roll < SPAWN_SIDE_COUNT,
        0 <= along_roll < edge_extent(side_of_roll(side_roll as int)),
        0 <= shape_roll < SHAPE_COUNT,
        0 <= target_x < SCREEN_WIDTH,
        0 <= target_y < SCREEN_HEIGHT,
    ensures
        (plan.origin.x as int, plan.origin.y as int) == origin_of(
            side_of_roll(side_roll as int),
            along_roll as int,
        ),
        (side_roll == 0 || side_roll == 1) ==> plan.origin.x == along_roll,
        (side_roll == 2 || side_roll == 3) ==> plan.origin.y == along_roll,
        plan.heading.x == target_x - plan.origin.x,
        plan.heading.y == target_y - plan.origin.y,
        plan.shape_index == shape_roll,
{
    let side = spawn_side(side_roll);
    let origin = spawn_origin(side, along_roll);
    let heading = Point { x: target_x - origin.x, y: target_y - origin.y };
    SpawnPlan { origin, heading, shape_index: shape_roll as usize }
}

/// A projectile at this point has left the screen.
pub open spec fn outside_screen(x: int, y: int) -> bool {
    x < 0 || x > SCREEN_WIDTH || y < 0 || y > SCREEN_HEIGHT
}

/// An asteroid at this point has drifted beyond the margin and is discarded.
pub open spec fn beyond_margin(x: int, y: int) -> bool {
    x < -OFF_SCREEN_MARGIN || x > SCREEN_WIDTH + OFF_SCREEN_MARGIN || y < -OFF_SCREEN_MARGIN
        || y > SCREEN_HEIGHT + OFF_SCREEN_MARGIN
}

/// The extent of the edge an asteroid enters along.
pub open spec fn edge_extent(side: SpawnSide) -> int {
    match side {
        SpawnSide::Top | SpawnSide::Bottom => SCREEN_WIDTH as int,
        SpawnSide::Left | SpawnSide::Right => SCREEN_HEIGHT as int,
    }
}

/// An asteroid starts off the screen but inside the margin, so it is neither
/// visible at once nor discarded before it moves.
pub proof fn law_spawn_origin_off_screen_within_margin(side: SpawnSide, along: int)
    requires
        0 <= along < edge_extent(side),
    ensures
        outside_screen(origin_of(side, along).0, origin_of(side, along).1),
        !beyond_margin(origin_of(side, along).0, origin_of(side, along).1),
{
}

/// An asteroid aimed at a point on the screen heads inwards across the edge
/// it entered by, so its heading is never zero and it crosses the screen.
pub proof fn law_spawn_heads_into_screen(side: SpawnSide, along: int, tx: int, ty: int)
    requires
        0 <= tx < SCREEN_WIDTH,
        0 <= ty < SCREEN_HEIGHT,
    ensures
        side == SpawnSide::Top ==> ty - origin_of(side, along).1 > 0,
        side == SpawnSide::Bottom ==> ty - origin_of(side, along).1 < 0,
        side == SpawnSide::Left ==> tx - origin_of(side, along).0 > 0,
        side == SpawnSide::Right ==> tx - origin_of(side, along).0 < 0,
        (tx - origin_of(side, along).0, ty - origin_of(side, along).1) != (0int, 0int),
{
}

/// An asteroid starts at the drawn position along its edge, and one tenth of
/// the screen extent beyond that edge.
pub proof fn law_spawn_origin_at_drawn_position(side: SpawnSide, along: int)
    ensures
        (side == SpawnSide::Top || side == SpawnSide::Bottom) ==> origin_of(side, along).0
            == along,
        (side == SpawnSide::Left || side == SpawnSide::Right) ==> origin_of(side, along).1
            == along,
        side == SpawnSide::Top ==> -origin_of(side, along).1 * SPAWN_OFFSET_DIVISOR
            == SCREEN_HEIGHT,
        side == SpawnSide::Bottom ==> (origin_of(side, along).1 - SCREEN_HEIGHT)
            * SPAWN_OFFSET_DIVISOR == SCREEN_HEIGHT,
        side == SpawnSide::Left ==> -origin_of(side, along).0 * SPAWN_OFFSET_DIVISOR
            == SCREEN_WIDTH,
        side == SpawnSide::Right ==> (origin_of(side, along).0 - SCREEN_WIDTH)
            * SPAWN_OFFSET_DIVISOR == SCREEN_WIDTH,
{
}

/// Two draws on the same side differ in their starting points exactly by the
/// difference of their positions along the edge.
pub proof fn law_spawn_origin_shifts_with_along(side: SpawnSide, a1: int, a2: int)
    ensures
        (side == SpawnSide::Top || side == SpawnSide::Bottom) ==> origin_of(side, a2).0
            - origin_of(side, a1).0 == a2 - a1 && origin_of(side, a2).1 == origin_of(side, a1).1,
        (side == SpawnSide::Left || side == SpawnSide::Right) ==> origin_of(side, a2).1
            - origin_of(side, a1).1 == a2 - a1 && origin_of(side, a2).0 == origin_of(side, a1).0,
{
}

/// Each roll selects a different side, so every side can be drawn.
pub proof fn law_spawn_rolls_cover_every_side(r1: int, r2: int)
    requires
        0 <= r1 < SPAWN_SIDE_COUNT,
        0 <= r2 < SPAWN_SIDE_COUNT,
        r1 != r2,
    ensures
        side_of_roll(r1) != side_of_roll(r2),
{
}

} // verus!
