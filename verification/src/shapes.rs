use vstd::prelude::*;

use crate::settings::SHAPE_COUNT;
use crate::spawn::Point;

verus! {

/// Builds a point.
pub open spec fn pt(x: i32, y: i32) -> Point {
    Point { x, y }
}

/// The outlines of the asteroids at full size. Each starts with the centre
/// and then walks around the rim, repeating the first rim point at the end
/// to close the loop.
pub open spec fn shape_points(index: int) -> Seq<Point> {
    if index == 0 {
        seq![
            pt(0i32, 0i32),
            pt(-40i32, -20i32),
            pt(10i32, -50i32),
            pt(50i32, -30i32),
            pt(40i32, 20i32),
            pt(10i32, 50i32),
            pt(-30i32, 40i32),
            pt(-50i32, 10i32),
            pt(-40i32, -20i32),
        ]
    } else if index == 1 {
        seq![
            pt(0i32, 0i32),
            pt(-30i32, -40i32),
            pt(30i32, -40i32),
            pt(50i32, 0i32),
            pt(30i32, 40i32),
            pt(-30i32, 40i32),
            pt(-50i32, 10i32),
            pt(-40i32, -10i32),
            pt(-30i32, -40i32),
        ]
    } else {
        seq![
            pt(0i32, 0i32),
            pt(-20i32, -50i32),
            pt(20i32, -50i32),
            pt(40i32, -20i32),
            pt(50i32, 20i32),
            pt(20i32, 50i32),
            pt(-20i32, 50i32),
            pt(-50i32, 0i32),
            pt(-20i32, -50i32),
        ]
    }
}

/// The outline with the given index, at full size.
pub fn asteroid_shape(index: usize) -> (points: Vec<Point>)
    requires
        index < SHAPE_COUNT,
    ensures
        points@ == shape_points(index as int),
        points@.len() == 9,
        points@[0] == pt(0i32, 0i32),
        points@[8] == points@[1],
        forall|i: int| 1 <= i < 8 ==> cross(#[trigger] points@[i], points@[i + 1]) > 0,
{
    let points = if index == 0 {
        vec![
            Point { x: 0, y: 0 },
            Point { x: -40, y: -20 },
            Point { x: 10, y: -50 },
            Point { x: 50, y: -30 },
            Point { x: 40, y: 20 },
            Point { x: 10, y: 50 },
            Point { x: -30, y: 40 },
            Point { x: -50, y: 10 },
            Point { x: -40, y: -20 },
        ]
    } else if index == 1 {
        vec![
            Point { x: 0, y: 0 },
            Point { x: -30, y: -40 },
            Point { x: 30, y: -40 },
            Point { x: 50, y: 0 },
            Point { x: 30, y: 40 },
            Point { x: -30, y: 40 },
            Point { x: -50, y: 10 },
            Point { x: -40, y: -10 },
            Point { x: -30, y: -40 },
        ]
    } else {
        vec![
            Point { x: 0, y: 0 },
            Point { x: -20, y: -50 },
            Point { x: 20, y: -50 },
            Point { x: 40, y: -20 },
            Point { x: 50, y: 20 },
            Point { x: 20, y: 50 },
            Point { x: -20, y: 50 },
            Point { x: -50, y: 0 },
            Point { x: -20, y: -50 },
        ]
    };
    assert(points@ =~= shape_points(index as int));
    proof {
        law_shapes_are_closed_fans(index as int);
        law_shape_rims_wind_once_around_centre(index as int);
    }
    points
}

/// The triangles that fill a fan of `n` points around point zero: for every
/// rim point `i` from one up to the last but one, the triangle of the centre,
/// the next rim point and rim point `i`.
pub fn fan_triangles(n: usize) -> (triangles: Vec<(usize, usize, usize)>)
    requires
        n >= 1,
    ensures
        n >= 2 ==> triangles@.len() == n - 2,
        n < 2 ==> triangles@.len() == 0,
        forall|k: int|
            0 <= k < triangles@.len() ==> #[trigger] triangles@[k] == (
                0usize,
                (k + 2) as usize,
                (k + 1) as usize,
            ),
{
    let mut triangles: Vec<(usize, usize, usize)> = Vec::new();
    let last = n - 1;
    let mut i: usize = 1;
    while i < last
        invariant
            n >= 1,
            last == n - 1,
            1 <= i,
            i <= last || i == 1,
            triangles@.len() == i - 1,
            forall|k: int|
                0 <= k < triangles@.len() ==> #[trigger] triangles@[k] == (
                    0usize,
                    (k + 2) as usize,
                    (k + 1) as usize,
                ),
        decreases last - i,
    {
        triangles.push((0, i + 1, i));
        i = i + 1;
    }
    triangles
}

/// Every outline is a closed fan: nine points, the centre first, and the last
/// point equal to the first rim point.
pub proof fn law_shapes_are_closed_fans(index: int)
    requires
        0 <= index < SHAPE_COUNT,
    ensures
        shape_points(index).len() == 9,
        shape_points(index)[0] == pt(0i32, 0i32),
        shape_points(index)[8] == shape_points(index)[1],
{
}

/// Twice the signed area of the triangle of the centre and two rim points;
/// positive when the rim turns clockwise on screen (counter-clockwise with
/// the y axis pointing up).
pub open spec fn cross(p: Point, q: Point) -> int {
    p.x * q.y - p.y * q.x
}

/// The rim step from `p` to `q` passes the ray from the centre along the
/// positive x axis.
pub open spec fn passes_ray(p: Point, q: Point) -> bool {
    p.y < 0 && q.y >= 0
}

/// The rim facts of outline 0, checked point by point.
proof fn lemma_rim_facts_0()
    ensures
        forall|i: int| 1 <= i < 8 ==> cross(#[trigger] shape_points(0)[i], shape_points(0)[i + 1]) > 0,
        passes_ray(shape_points(0)[3int], shape_points(0)[4int]),
        forall|i: int| 1 <= i < 8 && passes_ray(#[trigger] shape_points(0)[i], shape_points(0)[i + 1]) ==> i == 3,
        forall|i: int|
            1 <= i < 9 ==> 1600 <= (#[trigger] shape_points(0)[i]).x * shape_points(0)[i].x
                + shape_points(0)[i].y * shape_points(0)[i].y <= 3600,
{
    let s = shape_points(0);
    assert(s[0] == pt(0i32, 0i32));
    assert(s[1] == pt(-40i32, -20i32));
    assert(s[2] == pt(10i32, -50i32));
    assert(s[3] == pt(50i32, -30i32));
    assert(s[4] == pt(40i32, 20i32));
    assert(s[5] == pt(10i32, 50i32));
    assert(s[6] == pt(-30i32, 40i32));
    assert(s[7] == pt(-50i32, 10i32));
    assert(s[8] == pt(-40i32, -20i32));
    assert forall|i: int| 1 <= i < 8 implies cross(#[trigger] s[i], s[i + 1]) > 0 by {
        if i == 1 {
        } else if i == 2 {
        } else if i == 3 {
        } else if i == 4 {
        } else if i == 5 {
        } else if i == 6 {
        } else if i == 7 {
        }
    }
    assert forall|i: int| 1 <= i < 8 && passes_ray(#[trigger] s[i], s[i + 1]) implies i == 3 by {
        if i == 1 {
        } else if i == 2 {
        } else if i == 3 {
        } else if i == 4 {
        } else if i == 5 {
        } else if i == 6 {
        } else if i == 7 {
        }
    }
    assert forall|i: int| 1 <= i < 9 implies 1600 <= (#[trigger] s[i]).x * s[i].x + s[i].y * s[i].y
        <= 3600 by {
        if i == 1 {
        } else if i == 2 {
        } else if i == 3 {
        } else if i == 4 {
        } else if i == 5 {
        } else if i == 6 {
        } else if i == 7 {
        } else if i == 8 {
        }
    }
}

/// The rim facts of outline 1, checked point by point.
proof fn lemma_rim_facts_1()
    ensures
        forall|i: int| 1 <= i < 8 ==> cross(#[trigger] shape_points(1)[i], shape_points(1)[i + 1]) > 0,
        passes_ray(shape_points(1)[2int], shape_points(1)[3int]),
        forall|i: int| 1 <= i < 8 && passes_ray(#[trigger] shape_points(1)[i], shape_points(1)[i + 1]) ==> i == 2,
        forall|i: int|
            1 <= i < 9 ==> 1600 <= (#[trigger] shape_points(1)[i]).x * shape_points(1)[i].x
                + shape_points(1)[i].y * shape_points(1)[i].y <= 3600,
{
    let s = shape_points(1);
    assert(s[0] == pt(0i32, 0i32));
    assert(s[1] == pt(-30i32, -40i32));
    assert(s[2] == pt(30i32, -40i32));
    assert(s[3] == pt(50i32, 0i32));
    assert(s[4] == pt(30i32, 40i32));
    assert(s[5] == pt(-30i32, 40i32));
    assert(s[6] == pt(-50i32, 10i32));
    assert(s[7] == pt(-40i32, -10i32));
    assert(s[8] == pt(-30i32, -40i32));
    assert forall|i: int| 1 <= i < 8 implies cross(#[trigger] s[i], s[i + 1]) > 0 by {
        if i == 1 {
        } else if i == 2 {
        } else if i == 3 {
        } else if i == 4 {
        } else if i == 5 {
        } else if i == 6 {
        } else if i == 7 {
        }
    }
    assert forall|i: int| 1 <= i < 8 && passes_ray(#[trigger] s[i], s[i + 1]) implies i == 2 by {
        if i == 1 {
        } else if i == 2 {
        } else if i == 3 {
        } else if i == 4 {
        } else if i == 5 {
        } else if i == 6 {
        } else if i == 7 {
        }
    }
    assert forall|i: int| 1 <= i < 9 implies 1600 <= (#[trigger] s[i]).x * s[i].x + s[i].y * s[i].y
        <= 3600 by {
        if i == 1 {
        } else if i == 2 {
        } else if i == 3 {
        } else if i == 4 {
        } else if i == 5 {
        } else if i == 6 {
        } else if i == 7 {
        } else if i == 8 {
        }
    }
}

/// The rim facts of outline 2, checked point by point.
proof fn lemma_rim_facts_2()
    ensures
        forall|i: int| 1 <= i < 8 ==> cross(#[trigger] shape_points(2)[i], shape_points(2)[i + 1]) > 0,
        passes_ray(shape_points(2)[3int], shape_points(2)[4int]),
        forall|i: int| 1 <= i < 8 && passes_ray(#[trigger] shape_points(2)[i], shape_points(2)[i + 1]) ==> i == 3,
        forall|i: int|
            1 <= i < 9 ==> 1600 <= (#[trigger] shape_points(2)[i]).x * shape_points(2)[i].x
                + shape_points(2)[i].y * shape_points(2)[i].y <= 3600,
{
    let s = shape_points(2);
    assert(s[0] == pt(0i32, 0i32));
    assert(s[1] == pt(-20i32, -50i32));
    assert(s[2] == pt(20i32, -50i32));
    assert(s[3] == pt(40i32, -20i32));
    assert(s[4] == pt(50i32, 20i32));
    assert(s[5] == pt(20i32, 50i32));
    assert(s[6] == pt(-20i32, 50i32));
    assert(s[7] == pt(-50i32, 0i32));
    assert(s[8] == pt(-20i32, -50i32));
    assert forall|i: int| 1 <= i < 8 implies cross(#[trigger] s[i], s[i + 1]) > 0 by {
        if i == 1 {
        } else if i == 2 {
        } else if i == 3 {
        } else if i == 4 {
        } else if i == 5 {
        } else if i == 6 {
        } else if i == 7 {
        }
    }
    assert forall|i: int| 1 <= i < 8 && passes_ray(#[trigger] s[i], s[i + 1]) implies i == 3 by {
        if i == 1 {
        } else if i == 2 {
        } else if i == 3 {
        } else if i == 4 {
        } else if i == 5 {
        } else if i == 6 {
        } else if i == 7 {
        }
    }
    assert forall|i: int| 1 <= i < 9 implies 1600 <= (#[trigger] s[i]).x * s[i].x + s[i].y * s[i].y
        <= 3600 by {
        if i == 1 {
        } else if i == 2 {
        } else if i == 3 {
        } else if i == 4 {
        } else if i == 5 {
        } else if i == 6 {
        } else if i == 7 {
        } else if i == 8 {
        }
    }
}

/// Every outline is a star around its centre: each rim step turns the same
/// way around the centre, the rim goes around the centre exactly once, and
/// every rim point lies between 40 and 60 pixels from the centre. So the fan
/// triangles of an outline never fold over one another.
pub proof fn law_shape_rims_wind_once_around_centre(index: int)
    requires
        0 <= index < SHAPE_COUNT,
    ensures
        forall|i: int|
            1 <= i < 8 ==> cross(#[trigger] shape_points(index)[i], shape_points(index)[i + 1])
                > 0,
        exists|i: int|
            1 <= i < 8 && passes_ray(#[trigger] shape_points(index)[i], shape_points(index)[i + 1]),
        forall|i: int, j: int|
            1 <= i < 8 && 1 <= j < 8 && passes_ray(
                #[trigger] shape_points(index)[i],
                shape_points(index)[i + 1],
            ) && passes_ray(#[trigger] shape_points(index)[j], shape_points(index)[j + 1]) ==> i
                == j,
        forall|i: int|
            1 <= i < 9 ==> 1600 <= (#[trigger] shape_points(index)[i]).x * shape_points(index)[i].x
                + shape_points(index)[i].y * shape_points(index)[i].y <= 3600,
{
    let s = shape_points(index);
    if index == 0 {
        lemma_rim_facts_0();
        assert(passes_ray(s[3int], s[4int]));
    } else if index == 1 {
        lemma_rim_facts_1();
        assert(passes_ray(s[2int], s[3int]));
    } else {
        lemma_rim_facts_2();
        assert(passes_ray(s[3int], s[4int]));
    }
}

} // verus!
