use vstd::prelude::*;

use crate::settings::{MAX_ASTEROIDS, MAX_PROJECTILES, RADIUS_PER_LEVEL, SHAPE_COUNT, SPAWN_LEVEL};

verus! {

/// The discrete state of one asteroid slot.
#[derive(Clone, Copy, Debug, PartialEq, Eq, Structural)]
pub struct Asteroid {
    /// Hits left before the asteroid is gone; zero marks a free slot.
    pub level: i32,
    /// Which outline the asteroid is drawn with.
    pub shape_index: usize,
}

/// The discrete part of the game state: which projectile slots are in flight
/// and the level and outline of every asteroid slot.
pub struct World {
    projectiles: Vec<bool>,
    asteroids: Vec<Asteroid>,
}

/// Mathematical model of a `World`.
pub struct WorldView {
    pub alive: Seq<bool>,
    pub asteroids: Seq<Asteroid>,
}

impl View for World {
    type V = WorldView;

    closed spec fn view(&self) -> WorldView {
        WorldView { alive: self.projectiles@, asteroids: self.asteroids@ }
    }
}

/// An asteroid slot with one level less.
pub open spec fn lowered(a: Asteroid) -> Asteroid {
    Asteroid { level: (a.level - 1) as i32, shape_index: a.shape_index }
}

/// The asteroid in slot `b` can be struck: it is live and the projectile lies
/// within its collision radius.
pub open spec fn hittable(asteroids: Seq<Asteroid>, within: Seq<bool>, b: int) -> bool {
    asteroids[b].level > 0 && within[b]
}

/// Slot `a` is the first asteroid slot that the projectile strikes.
pub open spec fn is_first_hit(asteroids: Seq<Asteroid>, within: Seq<bool>, a: int) -> bool {
    &&& 0 <= a < asteroids.len()
    &&& hittable(asteroids, within, a)
    &&& forall|b: int| 0 <= b < a ==> !hittable(asteroids, within, b)
}

/// Sum of the levels of a sequence of asteroid slots.
pub open spec fn total_levels(s: Seq<Asteroid>) -> int
    decreases s.len(),
{
    if s.len() == 0 {
        0
    } else {
        total_levels(s.drop_last()) + s.last().level
    }
}

/// Number of projectile slots in flight.
pub open spec fn alive_count(s: Seq<bool>) -> int
    decreases s.len(),
{
    if s.len() == 0 {
        0
    } else {
        alive_count(s.drop_last()) + if s.last() {
            1int
        } else {
            0int
        }
    }
}

impl WorldView {
    /// Both pools have their fixed size, every level lies between zero and
    /// the spawn level, and every outline index names an outline.
    pub open spec fn wf(self) -> bool {
        &&& self.alive.len() == MAX_PROJECTILES
        &&& self.asteroids.len() == MAX_ASTEROIDS
        &&& forall|i: int|
            0 <= i < self.asteroids.len() ==> 0 <= (#[trigger] self.asteroids[i]).level <= SPAWN_LEVEL
                && self.asteroids[i].shape_index < SHAPE_COUNT
    }

    /// The state after projectile `p` struck asteroid slot `a`: the projectile
    /// is gone and the asteroid has lost one level.
    pub open spec fn after_hit(self, p: int, a: int) -> WorldView {
        WorldView {
            alive: self.alive.update(p, false),
            asteroids: self.asteroids.update(a, lowered(self.asteroids[a])),
        }
    }
}

/// The first free projectile slot, or slot zero when every slot is in flight.
pub open spec fn is_fire_slot(alive: Seq<bool>, i: int) -> bool {
    &&& 0 <= i < alive.len()
    &&& forall|j: int| 0 <= j < i ==> alive[j]
    &&& !alive[i] || (i == 0 && forall|j: int| 0 <= j < alive.len() ==> alive[j])
}

/// Collision radius of an asteroid at the given level: a fixed radius per
/// remaining level.
pub fn collision_radius(level: i32) -> (r: i32)
    requires
        0 <= level <= SPAWN_LEVEL,
    ensures
        r == level * RADIUS_PER_LEVEL,
{
    level * RADIUS_PER_LEVEL
}

/// The initial state: no projectile in flight and every asteroid slot free.
pub fn setup() -> (w: World)
    ensures
        w@.wf(),
        w@.alive == Seq::new(MAX_PROJECTILES as nat, |i: int| false),
        w@.asteroids == Seq::new(
            MAX_ASTEROIDS as nat,
            |i: int| Asteroid { level: 0, shape_index: 0 },
        ),
{
    let mut projectiles: Vec<bool> = Vec::new();
    let mut k: usize = 0;
    while k < MAX_PROJECTILES
        invariant
            k <= MAX_PROJECTILES,
            projectiles@ == Seq::new(k as nat, |i: int| false),
        decreases MAX_PROJECTILES - k,
    {
        projectiles.push(false);
        k = k + 1;
    }
    let mut asteroids: Vec<Asteroid> = Vec::new();
    let mut k: usize = 0;
    while k < MAX_ASTEROIDS
        invariant
            k <= MAX_ASTEROIDS,
            asteroids@ == Seq::new(k as nat, |i: int| Asteroid { level: 0, shape_index: 0 }),
        decreases MAX_ASTEROIDS - k,
    {
        asteroids.push(Asteroid { level: 0, shape_index: 0 });
        k = k + 1;
    }
    World { projectiles, asteroids }
}

impl World {
    /// Whether projectile slot `i` is in flight.
    pub fn projectile_alive(&self, i: usize) -> (b: bool)
        requires
            self@.wf(),
            i < MAX_PROJECTILES,
        ensures
            b == self@.alive[i as int],
    {
        self.projectiles[i]
    }

    /// The state of asteroid slot `i`.
    pub fn asteroid(&self, i: usize) -> (a: Asteroid)
        requires
            self@.wf(),
            i < MAX_ASTEROIDS,
        ensures
            a == self@.asteroids[i as int],
    {
        self.asteroids[i]
    }

    /// The slot a new shot goes into: the first slot not in flight, or slot
    /// zero when all of them are.
    pub fn fire_slot(&self) -> (i: usize)
        requires
            self@.wf(),
        ensures
            is_fire_slot(self@.alive, i as int),
            i < MAX_PROJECTILES,
            forall|j: int| 0 <= j < i ==> self@.alive[j],
            (exists|j: int| 0 <= j < MAX_PROJECTILES && !self@.alive[j]) ==> !self@.alive[i as int],
            (forall|j: int| 0 <= j < MAX_PROJECTILES ==> self@.alive[j]) ==> i == 0,
    {
        let n = self.projectiles.len();
        let mut i: usize = 0;
        while i < n
            invariant
                n == self@.alive.len(),
                n == MAX_PROJECTILES,
                i <= n,
                forall|j: int| 0 <= j < i ==> self@.alive[j],
            decreases n - i,
        {
            if !self.projectiles[i] {
                return i;
            }
            i = i + 1;
        }
        0
    }

    /// Launches a shot: the fire slot is marked in flight and returned, so
    /// that the caller can give it a position and a velocity.
    pub fn fire(&mut self) -> (i: usize)
        requires
            old(self)@.wf(),
        ensures
            final(self)@.wf(),
            is_fire_slot(old(self)@.alive, i as int),
            i < MAX_PROJECTILES,
            forall|j: int| 0 <= j < i ==> old(self)@.alive[j],
            (exists|j: int| 0 <= j < MAX_PROJECTILES && !old(self)@.alive[j]) ==> !old(
                self,
            )@.alive[i as int],
            (forall|j: int| 0 <= j < MAX_PROJECTILES ==> old(self)@.alive[j]) ==> i == 0,
            final(self)@.alive == old(self)@.alive.update(i as int, true),
            final(self)@.asteroids == old(self)@.asteroids,
    {
        let i = self.fire_slot();
        self.projectiles.set(i, true);
        i
    }

    /// Removes projectile `p` from flight (it left the screen).
    pub fn retire_projectile(&mut self, p: usize)
        requires
            old(self)@.wf(),
            p < MAX_PROJECTILES,
        ensures
            final(self)@.wf(),
            final(self)@.alive == old(self)@.alive.update(p as int, false),
            final(self)@.asteroids == old(self)@.asteroids,
    {
        self.projectiles.set(p, false);
    }

    /// Frees asteroid slot `a` (the asteroid drifted beyond the margin).
    pub fn retire_asteroid(&mut self, a: usize)
        requires
            old(self)@.wf(),
            a < MAX_ASTEROIDS,
        ensures
            final(self)@.wf(),
            final(self)@.alive == old(self)@.alive,
            final(self)@.asteroids == old(self)@.asteroids.update(
                a as int,
                Asteroid { level: 0, shape_index: old(self)@.asteroids[a as int].shape_index },
            ),
    {
        let shape_index = self.asteroids[a].shape_index;
        self.asteroids.set(a, Asteroid { level: 0, shape_index });
    }

    /// The first free asteroid slot, if any.
    pub fn free_asteroid_slot(&self) -> (r: Option<usize>)
        requires
            self@.wf(),
        ensures
            match r {
                Some(i) => {
                    &&& i < MAX_ASTEROIDS
                    &&& self@.asteroids[i as int].level == 0
                    &&& forall|j: int| 0 <= j < i ==> self@.asteroids[j].level != 0
                },
                None => forall|j: int|
                    0 <= j < MAX_ASTEROIDS ==> self@.asteroids[j].level != 0,
            },
    {
        let n = self.asteroids.len();
        let mut i: usize = 0;
        while i < n
            invariant
                n == self@.asteroids.len(),
                n == MAX_ASTEROIDS,
                i <= n,
                forall|j: int| 0 <= j < i ==> self@.asteroids[j].level != 0,
            decreases n - i,
        {
            if self.asteroids[i].level == 0 {
                return Some(i);
            }
            i = i + 1;
        }
        None
    }

    /// Puts a fresh asteroid with outline `shape_index` into slot `slot`.
    pub fn place_asteroid(&mut self, slot: usize, shape_index: usize)
        requires
            old(self)@.wf(),
            slot < MAX_ASTEROIDS,
            shape_index < SHAPE_COUNT,
        ensures
            final(self)@.wf(),
            final(self)@.alive == old(self)@.alive,
            final(self)@.asteroids == old(self)@.asteroids.update(
                slot as int,
                Asteroid { level: SPAWN_LEVEL, shape_index },
            ),
    {
        self.asteroids.set(slot, Asteroid { level: SPAWN_LEVEL, shape_index });
    }

    /// Resolves the collisions of projectile `p` for this frame. `within[b]`
    /// tells whether the projectile lies inside the collision radius of
    /// asteroid slot `b` at its current level. A projectile in flight strikes
    /// the first live asteroid it lies within: that asteroid loses one level,
    /// the projectile leaves flight, and the slot is returned. Otherwise
    /// nothing changes.
    pub fn resolve_projectile(&mut self, p: usize, within: &Vec<bool>) -> (hit: Option<usize>)
        requires
            old(self)@.wf(),
            p < MAX_PROJECTILES,
            within@.len() == MAX_ASTEROIDS,
        ensures
            final(self)@.wf(),
            match hit {
                Some(a) => {
                    &&& old(self)@.alive[p as int]
                    &&& is_first_hit(old(self)@.asteroids, within@, a as int)
                    &&& final(self)@ == old(self)@.after_hit(p as int, a as int)
                },
                None => {
                    &&& final(self)@ == old(self)@
                    &&& (!old(self)@.alive[p as int] || forall|b: int|
                        0 <= b < MAX_ASTEROIDS ==> !hittable(old(self)@.asteroids, within@, b))
                },
            },
            match hit {
                Some(a) => {
                    &&& a < MAX_ASTEROIDS
                    &&& old(self)@.asteroids[a as int].level > 0
                    &&& within@[a as int]
                    &&& forall|b: int|
                        0 <= b < a ==> old(self)@.asteroids[b].level == 0 || !within@[b]
                    &&& final(self)@.asteroids[a as int].level == old(self)@.asteroids[a as int].level
                        - 1
                    &&& final(self)@.asteroids[a as int].shape_index == old(
                        self,
                    )@.asteroids[a as int].shape_index
                    &&& forall|b: int|
                        0 <= b < MAX_ASTEROIDS && b != a ==> final(self)@.asteroids[b] == old(
                            self,
                        )@.asteroids[b]
                    &&& !final(self)@.alive[p as int]
                    &&& forall|q: int|
                        0 <= q < MAX_PROJECTILES && q != p ==> final(self)@.alive[q] == old(
                            self,
                        )@.alive[q]
                },
                None => !old(self)@.alive[p as int] || forall|b: int|
                    0 <= b < MAX_ASTEROIDS ==> old(self)@.asteroids[b].level == 0 || !within@[b],
            },
    {
        if !self.projectiles[p] {
            return None;
        }
        let n = self.asteroids.len();
        let mut b: usize = 0;
        while b < n
            invariant
                self@ == old(self)@,
                old(self)@.wf(),
                old(self)@.alive[p as int],
                p < MAX_PROJECTILES,
                n == self@.asteroids.len(),
                n == MAX_ASTEROIDS,
                within@.len() == MAX_ASTEROIDS,
                b <= n,
                forall|j: int| 0 <= j < b ==> !hittable(self@.asteroids, within@, j),
            decreases n - b,
        {
            let a = self.asteroids[b];
            if a.level > 0 && within[b] {
                proof {
                    assert forall|j: int| 0 <= j < b implies old(self)@.asteroids[j].level == 0
                        || !within@[j] by {
                        assert(!hittable(old(self)@.asteroids, within@, j));
                        assert(0 <= old(self)@.asteroids[j].level);
                    }
                }
                self.asteroids.set(b, Asteroid { level: a.level - 1, shape_index: a.shape_index });
                self.projectiles.set(p, false);
                return Some(b);
            }
            b = b + 1;
        }
        proof {
            assert forall|j: int| 0 <= j < MAX_ASTEROIDS implies old(self)@.asteroids[j].level
                == 0 || !within@[j] by {
                assert(!hittable(old(self)@.asteroids, within@, j));
                assert(0 <= old(self)@.asteroids[j].level);
            }
        }
        None
    }
}


/// Changing one asteroid slot changes the total level by the difference.
proof fn lemma_total_levels_update(s: Seq<Asteroid>, i: int, x: Asteroid)
    requires
        0 <= i < s.len(),
    ensures
        total_levels(s.update(i, x)) == total_levels(s) - s[i].level + x.level,
    decreases s.len(),
{
    if i == s.len() - 1 {
        assert(s.update(i, x).drop_last() =~= s.drop_last());
    } else {
        lemma_total_levels_update(s.drop_last(), i, x);
        assert(s.update(i, x).drop_last() =~= s.drop_last().update(i, x));
    }
}

/// Changing one projectile slot changes the count by the difference.
proof fn lemma_alive_count_update(s: Seq<bool>, i: int, x: bool)
    requires
        0 <= i < s.len(),
    ensures
        alive_count(s.update(i, x)) == alive_count(s) - (if s[i] {
            1int
        } else {
            0int
        }) + (if x {
            1int
        } else {
            0int
        }),
    decreases s.len(),
{
    if i == s.len() - 1 {
        assert(s.update(i, x).drop_last() =~= s.drop_last());
    } else {
        lemma_alive_count_update(s.drop_last(), i, x);
        assert(s.update(i, x).drop_last() =~= s.drop_last().update(i, x));
    }
}

/// Levels that all lie between zero and the spawn level add up to at most
/// the spawn level per slot.
proof fn lemma_total_levels_bounds(s: Seq<Asteroid>)
    requires
        forall|i: int| 0 <= i < s.len() ==> 0 <= (#[trigger] s[i]).level <= SPAWN_LEVEL,
    ensures
        0 <= total_levels(s) <= SPAWN_LEVEL * s.len(),
    decreases s.len(),
{
    if s.len() > 0 {
        assert(forall|i: int|
            0 <= i < s.drop_last().len() ==> #[trigger] s.drop_last()[i] == s[i]);
        lemma_total_levels_bounds(s.drop_last());
        assert(0 <= s[s.len() - 1].level <= SPAWN_LEVEL);
    }
}

/// A hit costs exactly one projectile and exactly one asteroid level.
pub proof fn law_hit_costs_one_projectile_and_one_level(
    w: WorldView,
    p: int,
    within: Seq<bool>,
    a: int,
)
    requires
        w.wf(),
        0 <= p < MAX_PROJECTILES,
        w.alive[p],
        within.len() == MAX_ASTEROIDS,
        is_first_hit(w.asteroids, within, a),
    ensures
        w.after_hit(p, a).wf(),
        total_levels(w.after_hit(p, a).asteroids) == total_levels(w.asteroids) - 1,
        alive_count(w.after_hit(p, a).alive) == alive_count(w.alive) - 1,
{
    lemma_total_levels_update(w.asteroids, a, lowered(w.asteroids[a]));
    lemma_alive_count_update(w.alive, p, false);
    assert(0 <= w.asteroids[a].level <= SPAWN_LEVEL);
}

/// Firing puts one more projectile in flight when a slot is free; when every
/// slot is in flight, the shot reuses slot zero and the count stays.
pub proof fn law_fire_adds_one_projectile_when_a_slot_is_free(w: WorldView, i: int)
    requires
        w.wf(),
        is_fire_slot(w.alive, i),
    ensures
        (exists|j: int| 0 <= j < MAX_PROJECTILES && !w.alive[j]) ==> alive_count(
            w.alive.update(i, true),
        ) == alive_count(w.alive) + 1,
        (forall|j: int| 0 <= j < MAX_PROJECTILES ==> w.alive[j]) ==> w.alive.update(i, true)
            == w.alive,
{
    lemma_alive_count_update(w.alive, i, true);
    if forall|j: int| 0 <= j < MAX_PROJECTILES ==> w.alive[j] {
        assert(w.alive.update(i, true) =~= w.alive);
    }
}

/// Placing an asteroid into a free slot adds the spawn level to the total.
pub proof fn law_spawn_adds_spawn_level(w: WorldView, slot: int, shape_index: usize)
    requires
        w.wf(),
        0 <= slot < MAX_ASTEROIDS,
        w.asteroids[slot].level == 0,
        shape_index < SHAPE_COUNT,
    ensures
        total_levels(
            w.asteroids.update(slot, Asteroid { level: SPAWN_LEVEL, shape_index }),
        ) == total_levels(w.asteroids) + SPAWN_LEVEL,
{
    lemma_total_levels_update(
        w.asteroids,
        slot,
        Asteroid { level: SPAWN_LEVEL, shape_index },
    );
}

/// In every well-formed state the asteroids together need between zero and
/// the spawn level times the number of slots hits to clear.
pub proof fn law_total_levels_bounded(w: WorldView)
    requires
        w.wf(),
    ensures
        0 <= total_levels(w.asteroids) <= SPAWN_LEVEL * MAX_ASTEROIDS,
{
    lemma_total_levels_bounds(w.asteroids);
}

/// The slot a projectile strikes is live and in reach, and no slot before it
/// is both live and in reach: the hit goes to the least such slot, whatever
/// the levels of the slots after it.
pub proof fn law_hit_strikes_least_live_slot_in_reach(
    asteroids: Seq<Asteroid>,
    within: Seq<bool>,
    a: int,
)
    requires
        is_first_hit(asteroids, within, a),
        forall|b: int| 0 <= b < asteroids.len() ==> 0 <= #[trigger] asteroids[b].level,
    ensures
        0 <= a < asteroids.len(),
        asteroids[a].level > 0,
        within[a],
        forall|b: int| 0 <= b < a ==> asteroids[b].level == 0 || !within[b],
        forall|c: int|
            #![trigger is_first_hit(asteroids, within, c)]
            is_first_hit(asteroids, within, c) ==> c == a,
{
    assert forall|b: int| 0 <= b < a implies asteroids[b].level == 0 || !within[b] by {
        assert(!hittable(asteroids, within, b));
    }
    assert forall|c: int| #![trigger is_first_hit(asteroids, within, c)]
        is_first_hit(asteroids, within, c) implies c == a by {
        if c < a {
            assert(!hittable(asteroids, within, c));
        } else if c > a {
            assert(!hittable(asteroids, within, a));
        }
    }
}

/// When nothing is struck, every slot is free or out of reach.
pub proof fn law_miss_means_nothing_live_in_reach(asteroids: Seq<Asteroid>, within: Seq<bool>)
    requires
        forall|b: int| 0 <= b < asteroids.len() ==> !hittable(asteroids, within, b),
        forall|b: int| 0 <= b < asteroids.len() ==> 0 <= #[trigger] asteroids[b].level,
    ensures
        forall|b: int| 0 <= b < asteroids.len() ==> asteroids[b].level == 0 || !within[b],
{
    assert forall|b: int| 0 <= b < asteroids.len() implies asteroids[b].level == 0
        || !within[b] by {
        assert(!hittable(asteroids, within, b));
    }
}

/// A hit on slot `a` by projectile `p` lowers that asteroid's level by one and
/// keeps its outline; it removes `p` from flight; every other asteroid and
/// every other projectile is left as it was.
pub proof fn law_hit_lowers_one_level_and_keeps_outline(w: WorldView, p: int, a: int)
    requires
        w.wf(),
        0 <= p < MAX_PROJECTILES,
        0 <= a < MAX_ASTEROIDS,
    ensures
        w.after_hit(p, a).asteroids.len() == w.asteroids.len(),
        w.after_hit(p, a).alive.len() == w.alive.len(),
        w.after_hit(p, a).asteroids[a].level == w.asteroids[a].level - 1,
        w.after_hit(p, a).asteroids[a].shape_index == w.asteroids[a].shape_index,
        forall|b: int|
            0 <= b < MAX_ASTEROIDS && b != a ==> w.after_hit(p, a).asteroids[b] == w.asteroids[b],
        !w.after_hit(p, a).alive[p],
        forall|q: int|
            0 <= q < MAX_PROJECTILES && q != p ==> w.after_hit(p, a).alive[q] == w.alive[q],
{
    assert(0 <= w.asteroids[a].level <= SPAWN_LEVEL);
}

/// The fire slot is the least slot not in flight, or slot zero when every
/// slot is in flight; hence it is determined by the pool alone.
pub proof fn law_fire_slot_is_least_free_slot(alive: Seq<bool>, i: int)
    requires
        is_fire_slot(alive, i),
    ensures
        0 <= i < alive.len(),
        forall|j: int| 0 <= j < i ==> alive[j],
        (exists|j: int| 0 <= j < alive.len() && !alive[j]) ==> !alive[i],
        (forall|j: int| 0 <= j < alive.len() ==> alive[j]) ==> i == 0,
        forall|k: int| #![trigger is_fire_slot(alive, k)] is_fire_slot(alive, k) ==> k == i,
{
    assert forall|k: int| #![trigger is_fire_slot(alive, k)] is_fire_slot(alive, k) implies k
        == i by {
        if k < i {
            assert(alive[k]);
        } else if k > i {
            assert(alive[i]);
        }
    }
}

} // verus!
