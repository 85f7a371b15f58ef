use vstd::prelude::*;

use crate::geometry::{
    overlaps, overlaps_spec, Point, BUG_SIZE, MAX_EXTENT, PIXEL, PLAYER_SIZE, SCORE_SIZE,
};
use crate::world::{
    abs, bug_ok, moved_coord, step_bug, Bug, MovementIntent, Vector, World, BUG_SPEED_MIN, BUG_SPEED_SPAN, PLAYER_SPEED,
};

verus! {

/// Number of ticks ahead the autonomous controller looks, counting the present.
pub const HORIZON: i64 = 3;

/// Which edges of the player's box lie inside a bug's box.
#[derive(Clone, Copy, Debug, PartialEq, Eq, Structural)]
pub struct Edges {
    pub left: bool,
    pub right: bool,
    pub up: bool,
    pub down: bool,
}

/// Which moves stay clear of every bug.
#[derive(Clone, Copy, Debug, PartialEq, Eq, Structural)]
pub struct Options {
    pub left: bool,
    pub right: bool,
    pub up: bool,
    pub down: bool,
    pub wait: bool,
}

/// The state of the four arrow keys.
#[derive(Clone, Copy, Debug, PartialEq, Eq, Structural)]
pub struct Keys {
    pub up: bool,
    pub down: bool,
    pub left: bool,
    pub right: bool,
}

/// The source of each tick's movement, chosen when a session starts.
#[derive(Clone, Copy, Debug, PartialEq, Eq, Structural)]
pub enum Controller {
    Manual,
    Autonomous,
}

pub open spec fn no_edges() -> Edges {
    Edges { left: false, right: false, up: false, down: false }
}

pub open spec fn hits(e: Edges) -> bool {
    e.left || e.right || e.up || e.down
}

/// Where something at `p` moving by `v` per tick is after `n` ticks.
pub open spec fn ahead(p: Point, v: Vector, n: int) -> Point {
    Point { x: (p.x + n * v.x) as i64, y: (p.y + n * v.y) as i64 }
}

/// The edges of the player's box (centered at `np`) that lie within the bug's
/// box (centered at `nb`), when the two boxes overlap at all.
pub open spec fn edges_of(np: Point, nb: Point) -> Edges {
    let ph = PLAYER_SIZE / 2;
    let bh = BUG_SIZE / 2;
    if overlaps_spec(np, ph as int, nb, bh as int) {
        Edges {
            left: nb.x - bh <= np.x - ph <= nb.x + bh,
            right: nb.x - bh <= np.x + ph <= nb.x + bh,
            up: nb.y - bh <= np.y - ph <= nb.y + bh,
            down: nb.y - bh <= np.y + ph <= nb.y + bh,
        }
    } else {
        no_edges()
    }
}

/// The edges that the bug would meet first when the player keeps velocity `v`,
/// looking from `n` ticks ahead up to the horizon; none if it never does.
pub open spec fn conflict_from(p: Point, v: Vector, b: Bug, n: int) -> Edges
    decreases HORIZON - n,
{
    if n >= HORIZON {
        no_edges()
    } else {
        let e = edges_of(ahead(p, v, n), ahead(b.pos, b.vel, n));
        if hits(e) {
            e
        } else {
            conflict_from(p, v, b, n + 1)
        }
    }
}

/// The closest conflict with the bug, one or two ticks ahead.
pub open spec fn conflict(p: Point, v: Vector, b: Bug) -> Edges {
    conflict_from(p, v, b, 1)
}

/// Standing still is unsafe against a bug whose next position overlaps the player.
pub open spec fn wait_blocked(p: Point, b: Bug) -> bool {
    overlaps_spec(p, PLAYER_SIZE / 2, ahead(b.pos, b.vel, 1), BUG_SIZE / 2)
}

/// Half the distance between the centers of the player and the target when their edges touch.
pub open spec fn reach() -> int {
    PLAYER_SIZE / 2 + SCORE_SIZE / 2
}

/// The direction to head along one axis toward a target `delta` away: none
/// once the edges are within reach of touching.
pub open spec fn pursuit(delta: int) -> int {
    if delta >= reach() {
        1
    } else if delta <= -reach() {
        -1
    } else {
        0
    }
}

/// The velocity that heads for the score target.
pub open spec fn pursuit_velocity(w: World) -> Vector {
    Vector {
        x: (pursuit(w.score_pos.x - w.player_pos.x) * PLAYER_SPEED) as i64,
        y: (pursuit(w.score_pos.y - w.player_pos.y) * PLAYER_SPEED) as i64,
    }
}

/// The moves that no bug rules out.
pub open spec fn safe_options(w: World) -> Options {
    let p = w.player_pos;
    let v = pursuit_velocity(w);
    let bugs = w.bugs@;
    Options {
        left: forall|i: int| 0 <= i < bugs.len() ==> !(#[trigger] conflict(p, v, bugs[i])).left,
        right: forall|i: int| 0 <= i < bugs.len() ==> !(#[trigger] conflict(p, v, bugs[i])).right,
        up: forall|i: int| 0 <= i < bugs.len() ==> !(#[trigger] conflict(p, v, bugs[i])).up,
        down: forall|i: int| 0 <= i < bugs.len() ==> !(#[trigger] conflict(p, v, bugs[i])).down,
        wait: forall|i: int| 0 <= i < bugs.len() ==> !wait_blocked(p, #[trigger] bugs[i]),
    }
}

/// Settles one axis from whether its negative and positive moves and waiting
/// are safe: keep the pursuit value when all are, take the one safe direction
/// when only one is, stand still when only waiting is, and otherwise (cornered,
/// or only waiting ruled out) keep the pursuit value.
pub open spec fn resolve(neg_ok: bool, pos_ok: bool, wait_ok: bool, desired: int) -> int {
    if neg_ok && pos_ok && wait_ok {
        desired
    } else if pos_ok && !neg_ok {
        PLAYER_SPEED as int
    } else if neg_ok && !pos_ok {
        -PLAYER_SPEED
    } else if wait_ok && !neg_ok && !pos_ok {
        0
    } else {
        desired
    }
}

/// The move the autonomous controller makes in world `w`.
pub open spec fn autonomous_intent(w: World) -> MovementIntent {
    let o = safe_options(w);
    let v = pursuit_velocity(w);
    MovementIntent {
        dx: resolve(o.left, o.right, o.wait, v.x as int) as i64,
        dy: resolve(o.up, o.down, o.wait, v.y as int) as i64,
    }
}

/// The move the manual controller makes for the given keys; left and up win
/// over right and down.
pub open spec fn manual_intent(k: Keys) -> MovementIntent {
    MovementIntent {
        dx: if k.left {
            -PLAYER_SPEED
        } else if k.right {
            PLAYER_SPEED as int
        } else {
            0
        } as i64,
        dy: if k.up {
            -PLAYER_SPEED
        } else if k.down {
            PLAYER_SPEED as int
        } else {
            0
        } as i64,
    }
}

pub open spec fn is_step(d: int) -> bool {
    d == -PLAYER_SPEED || d == 0 || d == PLAYER_SPEED
}

/// Every move a controller makes is a whole step, or none, on each axis.
pub proof fn lemma_intents_are_steps(w: World, k: Keys)
    ensures
        is_step(autonomous_intent(w).dx as int),
        is_step(autonomous_intent(w).dy as int),
        is_step(manual_intent(k).dx as int),
        is_step(manual_intent(k).dy as int),
{
}

/// A lone bug closing in from the left at 3 pixels a tick, which would reach
/// the player's box in one tick if the player stood still, is dodged: unless
/// the player is within a step of a screen edge, the autonomous controller
/// moves it, and after the tick the two boxes do not overlap.
pub proof fn lemma_dodges_arriving_bug(w: World)
    requires
        w.wf(),
        w.bugs@.len() == 1,
        w.bugs@[0].vel.x == 3 * PIXEL,
        w.bugs@[0].vel.y == 0,
        !overlaps_spec(w.player_pos, PLAYER_SIZE / 2, w.bugs@[0].pos, BUG_SIZE / 2),
        wait_blocked(w.player_pos, w.bugs@[0]),
        w.player_pos.x - PLAYER_SIZE / 2 >= PLAYER_SPEED,
        w.player_pos.x + PLAYER_SIZE / 2 + PLAYER_SPEED <= w.screen_size.width,
        w.player_pos.y - PLAYER_SIZE / 2 >= PLAYER_SPEED,
        w.player_pos.y + PLAYER_SIZE / 2 + PLAYER_SPEED <= w.screen_size.height,
    ensures
        ({
            let i = autonomous_intent(w);
            let p = w.player_pos;
            let moved = Point {
                x: moved_coord(p.x as int, i.dx as int, w.screen_size.width as int) as i64,
                y: moved_coord(p.y as int, i.dy as int, w.screen_size.height as int) as i64,
            };
            &&& moved != p
            &&& !overlaps_spec(
                step_bug(w.bugs@[0], w.screen_size).pos,
                BUG_SIZE / 2,
                moved,
                PLAYER_SIZE / 2,
            )
        }),
{
    reveal_with_fuel(conflict_from, 3);
    let p = w.player_pos;
    let v = pursuit_velocity(w);
    let b = w.bugs@[0];
    let o = safe_options(w);
    assert(o.left == !conflict(p, v, b).left);
    assert(o.right == !conflict(p, v, b).right);
    assert(o.up == !conflict(p, v, b).up);
    assert(o.down == !conflict(p, v, b).down);
    assert(!o.wait);
}

/// Coordinates within this bound leave room for all the controller's arithmetic.
pub open spec fn near(p: Point) -> bool {
    &&& -2 * MAX_EXTENT <= p.x <= 2 * MAX_EXTENT
    &&& -2 * MAX_EXTENT <= p.y <= 2 * MAX_EXTENT
}

proof fn lemma_multiple(n: int, v: int, m: int)
    requires
        0 <= n <= 3,
        -m <= v <= m,
        0 <= m,
    ensures
        -3 * m <= n * v <= 3 * m,
        (n + 1) * v == n * v + v,
{
    assert(-3 * m <= n * v <= 3 * m) by (nonlinear_arith)
        requires
            0 <= n <= 3,
            -m <= v <= m,
            0 <= m,
    ;
    assert((n + 1) * v == n * v + v) by (nonlinear_arith);
}

/// The edges of the player's box at `np` that lie inside a bug's box at `nb`.
pub fn edges(np: Point, nb: Point) -> (e: Edges)
    requires
        near(np),
        near(nb),
    ensures
        e == edges_of(np, nb),
{
    let ph = PLAYER_SIZE / 2;
    let bh = BUG_SIZE / 2;
    if overlaps(np, ph, nb, bh) {
        Edges {
            left: nb.x - bh <= np.x - ph && np.x - ph <= nb.x + bh,
            right: nb.x - bh <= np.x + ph && np.x + ph <= nb.x + bh,
            up: nb.y - bh <= np.y - ph && np.y - ph <= nb.y + bh,
            down: nb.y - bh <= np.y + ph && np.y + ph <= nb.y + bh,
        }
    } else {
        Edges { left: false, right: false, up: false, down: false }
    }
}

/// Looks one and then two ticks ahead, with the player moving by `v`, and
/// returns the edges of the first overlap with the bug that meets an edge.
pub fn first_conflict(p: Point, v: Vector, b: Bug) -> (e: Edges)
    requires
        -MAX_EXTENT <= p.x <= MAX_EXTENT,
        -MAX_EXTENT <= p.y <= MAX_EXTENT,
        -MAX_EXTENT <= b.pos.x <= MAX_EXTENT,
        -MAX_EXTENT <= b.pos.y <= MAX_EXTENT,
        abs(v.x as int) <= PLAYER_SPEED,
        abs(v.y as int) <= PLAYER_SPEED,
        abs(b.vel.x as int) <= BUG_SPEED_MIN + BUG_SPEED_SPAN,
        abs(b.vel.y as int) <= BUG_SPEED_MIN + BUG_SPEED_SPAN,
    ensures
        e == conflict(p, v, b),
{
    let mut n: i64 = 1;
    let mut np = Point { x: p.x + v.x, y: p.y + v.y };
    let mut nb = Point { x: b.pos.x + b.vel.x, y: b.pos.y + b.vel.y };
    let mut found = Edges { left: false, right: false, up: false, down: false };
    let mut hit = false;
    proof {
        assert(np == ahead(p, v, 1));
        assert(nb == ahead(b.pos, b.vel, 1));
    }
    while n < HORIZON && !hit
        invariant
            1 <= n <= HORIZON,
            np == ahead(p, v, n as int),
            nb == ahead(b.pos, b.vel, n as int),
            -MAX_EXTENT <= p.x <= MAX_EXTENT,
            -MAX_EXTENT <= p.y <= MAX_EXTENT,
            -MAX_EXTENT <= b.pos.x <= MAX_EXTENT,
            -MAX_EXTENT <= b.pos.y <= MAX_EXTENT,
            abs(v.x as int) <= PLAYER_SPEED,
            abs(v.y as int) <= PLAYER_SPEED,
            abs(b.vel.x as int) <= BUG_SPEED_MIN + BUG_SPEED_SPAN,
            abs(b.vel.y as int) <= BUG_SPEED_MIN + BUG_SPEED_SPAN,
            hit == hits(found),
            hit ==> conflict(p, v, b) == found,
            !hit ==> conflict(p, v, b) == conflict_from(p, v, b, n as int),
        decreases HORIZON - n + if hit { 0int } else { 1 },
    {
        proof {
            lemma_multiple(n as int, v.x as int, PLAYER_SPEED as int);
            lemma_multiple(n as int, v.y as int, PLAYER_SPEED as int);
            lemma_multiple(n as int, b.vel.x as int, (BUG_SPEED_MIN + BUG_SPEED_SPAN) as int);
            lemma_multiple(n as int, b.vel.y as int, (BUG_SPEED_MIN + BUG_SPEED_SPAN) as int);
        }
        let e = edges(np, nb);
        if e.left || e.right || e.up || e.down {
            found = e;
            hit = true;
        } else {
            np = Point { x: np.x + v.x, y: np.y + v.y };
            nb = Point { x: nb.x + b.vel.x, y: nb.y + b.vel.y };
            n = n + 1;
        }
    }
    found
}

/// The direction, as a step, to head along one axis toward a target `delta` away.
pub fn pursuit_step(delta: i64) -> (d: i64)
    ensures
        d == pursuit(delta as int) * PLAYER_SPEED,
{
    let reach = PLAYER_SIZE / 2 + SCORE_SIZE / 2;
    if delta >= reach {
        PLAYER_SPEED
    } else if delta <= -reach {
        -PLAYER_SPEED
    } else {
        0
    }
}

/// Settles one axis; see `resolve`.
pub fn resolve_axis(neg_ok: bool, pos_ok: bool, wait_ok: bool, desired: i64) -> (d: i64)
    ensures
        d == resolve(neg_ok, pos_ok, wait_ok, desired as int),
{
    if neg_ok && pos_ok && wait_ok {
        desired
    } else if pos_ok && !neg_ok {
        PLAYER_SPEED
    } else if neg_ok && !pos_ok {
        -PLAYER_SPEED
    } else if wait_ok && !neg_ok && !pos_ok {
        0
    } else {
        desired
    }
}

/// Works out which moves are safe against every bug.
pub fn options(world: &World) -> (o: Options)
    requires
        world.wf(),
    ensures
        o == safe_options(*world),
{
    let p = world.player_pos;
    let v = Vector {
        x: pursuit_step(world.score_pos.x - p.x),
        y: pursuit_step(world.score_pos.y - p.y),
    };
    let ghost bugs = world.bugs@;
    let ph = PLAYER_SIZE / 2;
    let bh = BUG_SIZE / 2;
    let mut o = Options { left: true, right: true, up: true, down: true, wait: true };
    let mut i: usize = 0;
    while i < world.bugs.len()
        invariant
            world.wf(),
            bugs == world.bugs@,
            v == pursuit_velocity(*world),
            p == world.player_pos,
            ph == PLAYER_SIZE / 2,
            bh == BUG_SIZE / 2,
            0 <= i <= bugs.len(),
            o.left == forall|j: int| 0 <= j < i ==> !(#[trigger] conflict(p, v, bugs[j])).left,
            o.right == forall|j: int| 0 <= j < i ==> !(#[trigger] conflict(p, v, bugs[j])).right,
            o.up == forall|j: int| 0 <= j < i ==> !(#[trigger] conflict(p, v, bugs[j])).up,
            o.down == forall|j: int| 0 <= j < i ==> !(#[trigger] conflict(p, v, bugs[j])).down,
            o.wait == forall|j: int| 0 <= j < i ==> !wait_blocked(p, #[trigger] bugs[j]),
        decreases bugs.len() - i,
    {
        let b = world.bugs[i];
        proof {
            assert(bug_ok(bugs[i as int], world.screen_size));
        }
        let next = Point { x: b.pos.x + b.vel.x, y: b.pos.y + b.vel.y };
        proof {
            assert(next == ahead(b.pos, b.vel, 1));
        }
        let wait_hit = overlaps(p, ph, next, bh);
        let e = first_conflict(p, v, b);
        proof {
            assert(bugs[i as int] == b);
            assert(conflict(p, v, bugs[i as int]) == e);
            assert(wait_blocked(p, bugs[i as int]) == wait_hit);
        }
        o = Options {
            left: o.left && !e.left,
            right: o.right && !e.right,
            up: o.up && !e.up,
            down: o.down && !e.down,
            wait: o.wait && !wait_hit,
        };
        i = i + 1;
    }
    o
}

/// The autonomous controller: heads for the score target and steers clear of
/// bugs predicted to meet the player within the horizon.
pub fn autonomous(world: &World) -> (r: MovementIntent)
    requires
        world.wf(),
    ensures
        r == autonomous_intent(*world),
        is_step(r.dx as int),
        is_step(r.dy as int),
{
    let p = world.player_pos;
    let vx = pursuit_step(world.score_pos.x - p.x);
    let vy = pursuit_step(world.score_pos.y - p.y);
    let o = options(world);
    MovementIntent {
        dx: resolve_axis(o.left, o.right, o.wait, vx),
        dy: resolve_axis(o.up, o.down, o.wait, vy),
    }
}

/// The manual controller: each arrow key held asks for a step its way.
pub fn manual(keys: Keys) -> (r: MovementIntent)
    ensures
        r == manual_intent(keys),
        is_step(r.dx as int),
        is_step(r.dy as int),
{
    let dx = if keys.left {
        -PLAYER_SPEED
    } else if keys.right {
        PLAYER_SPEED
    } else {
        0
    };
    let dy = if keys.up {
        -PLAYER_SPEED
    } else if keys.down {
        PLAYER_SPEED
    } else {
        0
    };
    MovementIntent { dx, dy }
}

impl Controller {
    /// This tick's move from the active controller; `keys` is read only by the
    /// manual one.
    pub fn decide(&self, world: &World, keys: Keys) -> (r: MovementIntent)
        requires
            world.wf(),
        ensures
            r == match self {
                Controller::Manual => manual_intent(keys),
                Controller::Autonomous => autonomous_intent(*world),
            },
    {
        match self {
            Controller::Manual => manual(keys),
            Controller::Autonomous => autonomous(world),
        }
    }
}

} // verus!
