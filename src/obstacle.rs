use vstd::prelude::*;
use crate::chance::{random_in, roll, CHANCE_SCALE};
use crate::player::GROUND_Y;

verus! {

/// Where new obstacles appear, at the right edge.
pub const SPAWN_X: i64 = 88000;

/// Obstacles at or left of this line are removed.
pub const DESPAWN_X: i64 = -90000;

/// How far every obstacle moves left in one tick.
pub const SCROLL_STEP: i64 = 1000;

/// A new obstacle may appear only once the newest one is left of this line.
pub const SPAWN_GAP_X: i64 = 50000;

/// Chance, out of a million, that a tick adds an obstacle when spacing allows.
pub const SPAWN_CHANCE: i64 = 15000;

/// A kind roll strictly between these two gives a low flyer.
pub const LOW_FLYER_ABOVE: i64 = 750000;

/// A kind roll above this gives a high flyer.
pub const HIGH_FLYER_ABOVE: i64 = 820000;

/// Height range of a ground obstacle, upper end excluded.
pub const GROUND_HEIGHT_MIN: i64 = 5000;

pub const GROUND_HEIGHT_MAX: i64 = 8000;

/// The vertical extent of every flyer.
pub const FLYER_EXTENT: i64 = 1000;

/// Offset range of a low flyer, upper end excluded.
pub const LOW_FLYER_MIN: i64 = -12000;

pub const LOW_FLYER_MAX: i64 = -8000;

/// Offset range of a high flyer, upper end excluded.
pub const HIGH_FLYER_MIN: i64 = 0;

pub const HIGH_FLYER_MAX: i64 = 5000;

/// A hazard scrolling from right to left. Its kind follows from `y_offset`:
/// ground obstacles sit exactly at the ground line, flyers above it.
#[derive(Clone, Copy, Debug, PartialEq, Eq, Structural)]
pub struct Obstacle {
    pub x: i64,
    /// The vertical extent used by the collision rule.
    pub extent: i64,
    pub y_offset: i64,
}

/// The random values one tick of spawning may use.
#[derive(Clone, Copy, Debug, PartialEq, Eq, Structural)]
pub struct SpawnDraw {
    /// Decides whether anything spawns, out of a million.
    pub gate: i64,
    /// The height of a ground obstacle.
    pub base_height: i64,
    /// Decides the kind, out of a million.
    pub kind_roll: i64,
    /// The offset of a low flyer.
    pub low_offset: i64,
    /// The offset of a high flyer.
    pub high_offset: i64,
}

impl SpawnDraw {
    /// Each value lies in the range it is drawn from.
    pub open spec fn in_range(self) -> bool {
        &&& 0 <= self.gate < CHANCE_SCALE
        &&& GROUND_HEIGHT_MIN <= self.base_height < GROUND_HEIGHT_MAX
        &&& 0 <= self.kind_roll < CHANCE_SCALE
        &&& LOW_FLYER_MIN <= self.low_offset < LOW_FLYER_MAX
        &&& HIGH_FLYER_MIN <= self.high_offset < HIGH_FLYER_MAX
    }

    /// Draws every value uniformly from its range.
    pub fn draw() -> (r: SpawnDraw)
        ensures
            r.in_range(),
    {
        SpawnDraw {
            gate: roll(),
            base_height: random_in(GROUND_HEIGHT_MIN, GROUND_HEIGHT_MAX),
            kind_roll: roll(),
            low_offset: random_in(LOW_FLYER_MIN, LOW_FLYER_MAX),
            high_offset: random_in(HIGH_FLYER_MIN, HIGH_FLYER_MAX),
        }
    }
}

impl Obstacle {
    /// Not yet past the despawn line.
    pub open spec fn on_screen(self) -> bool {
        self.x > DESPAWN_X
    }

    /// The obstacle one tick further left.
    pub open spec fn scrolled(self) -> Obstacle {
        Obstacle { x: (self.x - SCROLL_STEP) as i64, ..self }
    }

    /// Sits on the ground line.
    pub open spec fn is_ground(self) -> bool {
        self.y_offset == GROUND_Y
    }
}

/// What one obstacle becomes in a tick: moved left, or gone.
pub open spec fn scroll_one(o: Obstacle) -> Option<Obstacle> {
    if o.on_screen() { Some(o.scrolled()) } else { None }
}

/// Every obstacle still on screen moves left by one step, in order; the rest
/// are dropped.
pub open spec fn scroll(s: Seq<Obstacle>) -> Seq<Obstacle> {
    s.filter_map(|o: Obstacle| scroll_one(o))
}

/// Spawning is allowed when there is no obstacle or the newest is far
/// enough left.
pub open spec fn spacing_allows(s: Seq<Obstacle>) -> bool {
    s.len() == 0 || s.last().x < SPAWN_GAP_X
}

/// Whether a tick with this draw spawns a new obstacle.
pub open spec fn spawns(s: Seq<Obstacle>, d: SpawnDraw) -> bool {
    d.gate < SPAWN_CHANCE && spacing_allows(s)
}

/// The obstacle a spawn with this draw creates.
pub open spec fn spawned(d: SpawnDraw) -> Obstacle {
    if LOW_FLYER_ABOVE < d.kind_roll < HIGH_FLYER_ABOVE {
        Obstacle { x: SPAWN_X, extent: FLYER_EXTENT, y_offset: d.low_offset }
    } else if d.kind_roll > HIGH_FLYER_ABOVE {
        Obstacle { x: SPAWN_X, extent: FLYER_EXTENT, y_offset: d.high_offset }
    } else {
        Obstacle { x: SPAWN_X, extent: d.base_height, y_offset: GROUND_Y }
    }
}

/// The obstacles after one tick: maybe one spawned at the tail, then all
/// scrolled.
pub open spec fn advanced(s: Seq<Obstacle>, d: SpawnDraw) -> Seq<Obstacle> {
    scroll(if spawns(s, d) { s.push(spawned(d)) } else { s })
}

/// Strictly ascending by `x`: oldest, and nearest to the player, first.
pub open spec fn ordered(s: Seq<Obstacle>) -> bool {
    forall|i: int, j: int| 0 <= i < j < s.len() ==> s[i].x < s[j].x
}

proof fn lemma_scroll_step(s: Seq<Obstacle>)
    requires
        s.len() > 0,
    ensures
        scroll(s) == if s.last().on_screen() {
            scroll(s.drop_last()).push(s.last().scrolled())
        } else {
            scroll(s.drop_last())
        },
{
    assert(seq![s.last().scrolled()] =~= Seq::empty().push(s.last().scrolled()));
    assert(scroll(s.drop_last()) + seq![s.last().scrolled()] =~= scroll(s.drop_last()).push(
        s.last().scrolled(),
    ));
}

proof fn lemma_scroll_below(s: Seq<Obstacle>, bound: int)
    requires
        forall|i: int| 0 <= i < s.len() ==> s[i].x < bound,
    ensures
        forall|k: int| 0 <= k < scroll(s).len() ==> scroll(s)[k].x < bound - SCROLL_STEP,
    decreases s.len(),
{
    if s.len() > 0 {
        lemma_scroll_step(s);
        lemma_scroll_below(s.drop_last(), bound);
    }
}

proof fn lemma_scroll_ordered(s: Seq<Obstacle>)
    requires
        ordered(s),
    ensures
        ordered(scroll(s)),
    decreases s.len(),
{
    if s.len() > 0 {
        lemma_scroll_step(s);
        lemma_scroll_ordered(s.drop_last());
        lemma_scroll_below(s.drop_last(), s.last().x as int);
    }
}

proof fn lemma_scroll_suffix(s: Seq<Obstacle>, n: int)
    requires
        0 <= n <= s.len(),
        forall|i: int| 0 <= i < n ==> !s[i].on_screen(),
        forall|i: int| n <= i < s.len() ==> s[i].on_screen(),
    ensures
        scroll(s).len() == s.len() - n,
        forall|k: int| 0 <= k < s.len() - n ==> scroll(s)[k] == s[n + k].scrolled(),
    decreases s.len(),
{
    if s.len() > 0 {
        lemma_scroll_step(s);
        if s.last().on_screen() {
            lemma_scroll_suffix(s.drop_last(), n);
        } else {
            lemma_scroll_suffix(s.drop_last(), n - 1);
        }
    }
}

/// In one tick, when the first `n` obstacles are past the despawn line and the
/// others are not, the first `n` are removed and every other obstacle moves
/// left by exactly one step and keeps its place; a spawned obstacle, if any,
/// comes last, already moved once.
pub proof fn lemma_obstacles_move_one_step(s: Seq<Obstacle>, d: SpawnDraw, n: int)
    requires
        0 <= n <= s.len(),
        forall|i: int| 0 <= i < n ==> !s[i].on_screen(),
        forall|i: int| n <= i < s.len() ==> s[i].on_screen(),
    ensures
        advanced(s, d).len() == s.len() - n + (if spawns(s, d) { 1int } else { 0int }),
        forall|k: int| 0 <= k < s.len() - n ==> advanced(s, d)[k] == s[n + k].scrolled(),
        spawns(s, d) ==> advanced(s, d).last() == spawned(d).scrolled(),
{
    if spawns(s, d) {
        let g = s.push(spawned(d));
        assert(forall|i: int| 0 <= i < n ==> g[i] == s[i]);
        lemma_scroll_suffix(g, n);
    } else {
        lemma_scroll_suffix(s, n);
    }
}

/// In an ordered line the obstacles past the despawn line come first.
pub proof fn lemma_despawned_lead(s: Seq<Obstacle>, i: int, j: int)
    requires
        ordered(s),
        0 <= i < j < s.len(),
        !s[j].on_screen(),
    ensures
        !s[i].on_screen(),
{
}

/// No obstacle spawns while the newest one is at or right of the spacing line.
pub proof fn lemma_no_spawn_too_close(s: Seq<Obstacle>, d: SpawnDraw)
    requires
        s.len() > 0,
        s.last().x >= SPAWN_GAP_X,
    ensures
        !spawns(s, d),
        advanced(s, d) == scroll(s),
{
}

/// One tick of obstacle motion: maybe spawn a new obstacle at the tail, then
/// move every obstacle on screen one step left and drop the others.
pub fn advance_obstacles(obstacles: &mut Vec<Obstacle>, draw: &SpawnDraw)
    ensures
        final(obstacles)@ == advanced(old(obstacles)@, *draw),
        ordered(old(obstacles)@) ==> ordered(final(obstacles)@),
{
    let n = obstacles.len();
    let room = n == 0 || obstacles[n - 1].x < SPAWN_GAP_X;
    if draw.gate < SPAWN_CHANCE && room {
        let fresh = if LOW_FLYER_ABOVE < draw.kind_roll && draw.kind_roll < HIGH_FLYER_ABOVE {
            Obstacle { x: SPAWN_X, extent: FLYER_EXTENT, y_offset: draw.low_offset }
        } else if draw.kind_roll > HIGH_FLYER_ABOVE {
            Obstacle { x: SPAWN_X, extent: FLYER_EXTENT, y_offset: draw.high_offset }
        } else {
            Obstacle { x: SPAWN_X, extent: draw.base_height, y_offset: GROUND_Y }
        };
        obstacles.push(fresh);
    }
    let ghost grown = obstacles@;
    assert(ordered(old(obstacles)@) ==> ordered(grown));
    let mut kept: Vec<Obstacle> = Vec::new();
    let mut i: usize = 0;
    while i < obstacles.len()
        invariant
            i <= obstacles.len(),
            obstacles@ == grown,
            kept@ == scroll(grown.take(i as int)),
        decreases obstacles.len() - i,
    {
        let o = obstacles[i];
        proof {
            assert(grown.take(i + 1).drop_last() =~= grown.take(i as int));
            lemma_scroll_step(grown.take(i + 1));
        }
        if o.x > DESPAWN_X {
            kept.push(Obstacle { x: o.x - SCROLL_STEP, ..o });
        }
        i = i + 1;
    }
    proof {
        assert(grown.take(i as int) =~= grown);
        if ordered(grown) {
            lemma_scroll_ordered(grown);
        }
    }
    *obstacles = kept;
}

} // verus!
