use vstd::prelude::*;

use crate::chance::{random_below, random_bool};
use crate::geometry::{
    fits_on_screen, overlaps, overlaps_spec, placed_around, spawn_allowed, spawn_position, Point,
    Screen, BUG_SIZE, MAX_EXTENT, PIXEL, PLAYER_SIZE, SCORE_SIZE,
};

verus! {

/// Distance the player moves in one tick along each axis.
pub const PLAYER_SPEED: i64 = 5 * PIXEL;

/// Slowest speed a bug can be spawned with.
pub const BUG_SPEED_MIN: i64 = 2 * PIXEL;

/// Width of the range of bug speeds; spawned speeds lie below `BUG_SPEED_MIN + BUG_SPEED_SPAN`.
pub const BUG_SPEED_SPAN: i64 = 3 * PIXEL;

/// A velocity, in fixed-point units per tick.
#[derive(Clone, Copy, Debug, PartialEq, Eq, Structural)]
pub struct Vector {
    pub x: i64,
    pub y: i64,
}

/// The velocity a controller asks the player to move with for one tick.
#[derive(Clone, Copy, Debug, PartialEq, Eq, Structural)]
pub struct MovementIntent {
    pub dx: i64,
    pub dy: i64,
}

/// A hazard that moves in a straight line and bounces off the screen edges.
#[derive(Clone, Copy, Debug, PartialEq, Eq, Structural)]
pub struct Bug {
    pub pos: Point,
    pub vel: Vector,
}

/// How a tick ended: the session goes on, or a bug caught the player with the
/// given final score.
#[derive(Clone, Copy, Debug, PartialEq, Eq, Structural)]
pub enum Outcome {
    Running,
    Over(u64),
}

pub open spec fn abs(v: int) -> int {
    if v < 0 {
        -v
    } else {
        v
    }
}

/// Screens on which every entity can be spawned.
pub open spec fn screen_ok(s: Screen) -> bool {
    &&& PLAYER_SIZE + 2 * SCORE_SIZE <= s.width <= MAX_EXTENT
    &&& PLAYER_SIZE + 2 * SCORE_SIZE <= s.height <= MAX_EXTENT
}

/// Along its moving axis a bug is inside `[lo, hi]`, or less than one step out
/// and already heading back in.
pub open spec fn axis_ok(c: int, v: int, lo: int, hi: int) -> bool {
    &&& lo - abs(v) <= c <= hi + abs(v)
    &&& c < lo ==> v > 0
    &&& c > hi ==> v < 0
}

/// A bug moves along one axis at a bounded speed and stays near the screen.
pub open spec fn bug_ok(b: Bug, s: Screen) -> bool {
    let half = BUG_SIZE / 2;
    &&& abs(b.vel.x as int) <= BUG_SPEED_MIN + BUG_SPEED_SPAN
    &&& abs(b.vel.y as int) <= BUG_SPEED_MIN + BUG_SPEED_SPAN
    &&& if b.vel.y == 0 {
        axis_ok(b.pos.x as int, b.vel.x as int, half, s.width - half) && half <= b.pos.y
            <= s.height - half
    } else {
        b.vel.x == 0 && half <= b.pos.x <= s.width - half && axis_ok(
            b.pos.y as int,
            b.vel.y as int,
            half,
            s.height - half,
        )
    }
}

/// A bug as spawned: on screen, moving along one axis at a speed in the spawn range.
pub open spec fn fresh_bug(b: Bug, s: Screen) -> bool {
    &&& fits_on_screen(b.pos, s, BUG_SIZE as int)
    &&& b.vel.x == 0 || b.vel.y == 0
    &&& BUG_SPEED_MIN <= b.vel.x + b.vel.y < BUG_SPEED_MIN + BUG_SPEED_SPAN
}

/// The velocity of a new bug for a speed draw `d` and a coin `along_x`: the
/// speed is `BUG_SPEED_MIN + d`, to the right or downward.
pub open spec fn spawned_velocity(d: int, along_x: bool) -> Vector {
    if along_x {
        Vector { x: (BUG_SPEED_MIN + d) as i64, y: 0 }
    } else {
        Vector { x: 0, y: (BUG_SPEED_MIN + d) as i64 }
    }
}

/// `v` is the velocity that some speed draw and coin give a new bug.
pub open spec fn spawn_drawn(v: Vector) -> bool {
    exists|d: int, c: bool| 0 <= d < BUG_SPEED_SPAN && v == spawned_velocity(d, c)
}

/// Builds a new bug's velocity from a speed draw below `BUG_SPEED_SPAN` and a
/// coin that picks the horizontal axis.
pub fn spawn_velocity(speed_draw: u64, along_x: bool) -> (v: Vector)
    requires
        speed_draw < BUG_SPEED_SPAN,
    ensures
        v == spawned_velocity(speed_draw as int, along_x),
{
    let speed = BUG_SPEED_MIN + speed_draw as i64;
    if along_x {
        Vector { x: speed, y: 0 }
    } else {
        Vector { x: 0, y: speed }
    }
}

/// One tick of a bug: it advances by its velocity; if its box then leaves the
/// screen horizontally its horizontal velocity flips, otherwise if it leaves
/// vertically its vertical velocity flips. Only one axis is corrected per tick.
pub open spec fn step_bug(b: Bug, s: Screen) -> Bug {
    let half = BUG_SIZE / 2;
    let p = Point { x: (b.pos.x + b.vel.x) as i64, y: (b.pos.y + b.vel.y) as i64 };
    let v = if p.x - half < 0 || p.x + half > s.width {
        Vector { x: -b.vel.x as i64, y: b.vel.y }
    } else if p.y - half < 0 || p.y + half > s.height {
        Vector { x: b.vel.x, y: -b.vel.y as i64 }
    } else {
        b.vel
    };
    Bug { pos: p, vel: v }
}

/// Player movement along one axis: one step in the sign of `d`, unless that
/// step would push the player's box past the edge `[0, extent]`.
pub open spec fn moved_coord(c: int, d: int, extent: int) -> int {
    let half = PLAYER_SIZE / 2;
    if d < 0 && c - half - PLAYER_SPEED >= 0 {
        c - PLAYER_SPEED
    } else if d > 0 && c + half + PLAYER_SPEED <= extent {
        c + PLAYER_SPEED
    } else {
        c
    }
}

/// A bug's velocity keeps its size on both axes through a tick: reflection
/// only changes signs.
pub proof fn lemma_reflection_keeps_speed(b: Bug, s: Screen)
    requires
        bug_ok(b, s),
        screen_ok(s),
    ensures
        abs(step_bug(b, s).vel.x as int) == abs(b.vel.x as int),
        abs(step_bug(b, s).vel.y as int) == abs(b.vel.y as int),
{
}

/// A tick keeps a bug well-formed.
pub proof fn lemma_step_keeps_bug_ok(b: Bug, s: Screen)
    requires
        bug_ok(b, s),
        screen_ok(s),
    ensures
        bug_ok(step_bug(b, s), s),
{
}

/// A freshly spawned bug is well-formed.
pub proof fn lemma_fresh_bug_ok(b: Bug, s: Screen)
    requires
        fresh_bug(b, s),
        screen_ok(s),
    ensures
        bug_ok(b, s),
{
}

impl Bug {
    /// Advances the bug by one tick and reflects it off the screen edges.
    pub fn step(&mut self, screen: Screen)
        requires
            bug_ok(*old(self), screen),
            screen_ok(screen),
        ensures
            *final(self) == step_bug(*old(self), screen),
            bug_ok(*final(self), screen),
    {
        proof {
            lemma_step_keeps_bug_ok(*self, screen);
        }
        let half = BUG_SIZE / 2;
        self.pos = Point { x: self.pos.x + self.vel.x, y: self.pos.y + self.vel.y };
        if self.pos.x - half < 0 || self.pos.x + half > screen.width {
            self.vel.x = -self.vel.x;
        } else if self.pos.y - half < 0 || self.pos.y + half > screen.height {
            self.vel.y = -self.vel.y;
        }
    }

    /// Spawns a bug at a random position clear of the player's row and column
    /// where possible, moving right or down at a random speed.
    pub fn new(player_pos: Point, screen: Screen) -> (b: Bug)
        requires
            spawn_allowed(player_pos, screen, BUG_SIZE as int),
        ensures
            fresh_bug(b, screen),
            placed_around(b.pos, player_pos, screen, BUG_SIZE as int),
            spawn_drawn(b.vel),
    {
        let vel = spawn_velocity(random_below(BUG_SPEED_SPAN as u64), random_bool());
        Bug { pos: spawn_position(player_pos, screen, BUG_SIZE), vel }
    }
}

/// The whole state of a session.
#[derive(Debug)]
pub struct World {
    pub player_pos: Point,
    pub score_pos: Point,
    /// In spawn order; a bug is added on each score and never removed.
    pub bugs: Vec<Bug>,
    pub score_count: u64,
    pub screen_size: Screen,
}

impl World {
    /// The player and the target are on screen and every bug is well-formed.
    pub open spec fn wf(&self) -> bool {
        &&& screen_ok(self.screen_size)
        &&& fits_on_screen(self.player_pos, self.screen_size, PLAYER_SIZE as int)
        &&& fits_on_screen(self.score_pos, self.screen_size, SCORE_SIZE as int)
        &&& forall|i: int| 0 <= i < self.bugs@.len() ==> bug_ok(#[trigger] self.bugs@[i], self.screen_size)
    }

    /// Whether the player's box overlaps the score target's box.
    pub open spec fn captures(&self) -> bool {
        overlaps_spec(self.score_pos, SCORE_SIZE / 2, self.player_pos, PLAYER_SIZE / 2)
    }

    /// Whether some bug's box overlaps the player's box.
    pub open spec fn caught(&self) -> bool {
        exists|i: int|
            0 <= i < self.bugs@.len() && overlaps_spec(
                #[trigger] self.bugs@[i].pos,
                BUG_SIZE / 2,
                self.player_pos,
                PLAYER_SIZE / 2,
            )
    }

    /// What a tick does after the player has moved: `after` is `before` once
    /// the target, if captured, was moved to `target` with the score raised and
    /// `fresh` appended, and then every bug stepped; `out` reports a catch.
    pub open spec fn settled(before: World, target: Point, fresh: Bug, after: World, out: Outcome) -> bool {
        let grown = if before.captures() {
            before.bugs@.push(fresh)
        } else {
            before.bugs@
        };
        &&& after.player_pos == before.player_pos
        &&& after.screen_size == before.screen_size
        &&& after.score_pos == if before.captures() {
            target
        } else {
            before.score_pos
        }
        &&& after.score_count == if before.captures() {
            before.score_count + 1
        } else {
            before.score_count as int
        }
        &&& after.bugs@.len() == grown.len()
        &&& forall|i: int|
            0 <= i < grown.len() ==> #[trigger] after.bugs@[i] == step_bug(grown[i], before.screen_size)
        &&& out == if after.caught() {
            Outcome::Over(after.score_count)
        } else {
            Outcome::Running
        }
    }

    /// A target and a new bug as a capture draws them around the player at `p`.
    pub open spec fn spawns_around(target: Point, fresh: Bug, p: Point, screen: Screen) -> bool {
        &&& fits_on_screen(target, screen, SCORE_SIZE as int)
        &&& placed_around(target, p, screen, SCORE_SIZE as int)
        &&& fresh_bug(fresh, screen)
        &&& placed_around(fresh.pos, p, screen, BUG_SIZE as int)
        &&& spawn_drawn(fresh.vel)
    }

    /// Starts a session: the player near the middle of the screen, a random
    /// target and one random bug, both placed around the player, and no score.
    pub fn new(screen_size: Screen) -> (w: World)
        requires
            screen_ok(screen_size),
        ensures
            w.wf(),
            w.screen_size == screen_size,
            w.player_pos == (Point {
                x: (screen_size.width / 2 - PLAYER_SIZE / 2) as i64,
                y: (screen_size.height / 2 - PLAYER_SIZE / 2) as i64,
            }),
            w.score_count == 0,
            w.bugs@.len() == 1,
            World::spawns_around(w.score_pos, w.bugs@[0], w.player_pos, screen_size),
    {
        let half = PLAYER_SIZE / 2;
        let player_pos = Point { x: screen_size.width / 2 - half, y: screen_size.height / 2 - half };
        let first = Bug::new(player_pos, screen_size);
        proof {
            lemma_fresh_bug_ok(first, screen_size);
        }
        let score_pos = spawn_position(player_pos, screen_size, SCORE_SIZE);
        let bugs = vec![first];
        World { player_pos, score_pos, bugs, score_count: 0, screen_size }
    }

    /// Moves the player one step per axis in the sign of the intent, leaving an
    /// axis unchanged where the step would leave the screen.
    pub fn move_player(&mut self, intent: MovementIntent)
        requires
            old(self).wf(),
        ensures
            final(self).wf(),
            final(self).player_pos.x == moved_coord(
                old(self).player_pos.x as int,
                intent.dx as int,
                old(self).screen_size.width as int,
            ),
            final(self).player_pos.y == moved_coord(
                old(self).player_pos.y as int,
                intent.dy as int,
                old(self).screen_size.height as int,
            ),
            final(self).score_pos == old(self).score_pos,
            final(self).bugs == old(self).bugs,
            final(self).score_count == old(self).score_count,
            final(self).screen_size == old(self).screen_size,
    {
        let half = PLAYER_SIZE / 2;
        let screen = self.screen_size;
        let mut p = self.player_pos;
        if intent.dx < 0 && p.x - half - PLAYER_SPEED >= 0 {
            p.x = p.x - PLAYER_SPEED;
        } else if intent.dx > 0 && p.x + half + PLAYER_SPEED <= screen.width {
            p.x = p.x + PLAYER_SPEED;
        }
        if intent.dy < 0 && p.y - half - PLAYER_SPEED >= 0 {
            p.y = p.y - PLAYER_SPEED;
        } else if intent.dy > 0 && p.y + half + PLAYER_SPEED <= screen.height {
            p.y = p.y + PLAYER_SPEED;
        }
        self.player_pos = p;
    }

    /// Finishes a tick once the player has moved: a captured target moves to
    /// `target`, the score rises by one and `fresh` joins the bugs; then every
    /// bug advances and reflects, and a bug touching the player ends the session.
    pub fn settle(&mut self, target: Point, fresh: Bug) -> (out: Outcome)
        requires
            old(self).wf(),
            fits_on_screen(target, old(self).screen_size, SCORE_SIZE as int),
            fresh_bug(fresh, old(self).screen_size),
            old(self).score_count < u64::MAX,
        ensures
            final(self).wf(),
            World::settled(*old(self), target, fresh, *final(self), out),
    {
        let ghost before = *self;
        let screen = self.screen_size;
        let player_half = PLAYER_SIZE / 2;
        let half = BUG_SIZE / 2;
        if overlaps(self.score_pos, SCORE_SIZE / 2, self.player_pos, player_half) {
            self.score_pos = target;
            self.score_count = self.score_count + 1;
            proof {
                lemma_fresh_bug_ok(fresh, screen);
            }
            self.bugs.push(fresh);
        }
        let ghost grown = self.bugs@;
        let mut over = false;
        let mut i: usize = 0;
        while i < self.bugs.len()
            invariant
                self.wf(),
                half == BUG_SIZE / 2,
                player_half == PLAYER_SIZE / 2,
                self.screen_size == screen,
                self.player_pos == before.player_pos,
                self.score_pos == if before.captures() { target } else { before.score_pos },
                self.score_count == if before.captures() {
                    before.score_count + 1
                } else {
                    before.score_count as int
                },
                grown == if before.captures() {
                    before.bugs@.push(fresh)
                } else {
                    before.bugs@
                },
                self.bugs@.len() == grown.len(),
                0 <= i <= self.bugs@.len(),
                forall|j: int| 0 <= j < i ==> #[trigger] self.bugs@[j] == step_bug(grown[j], screen),
                forall|j: int| i <= j < grown.len() ==> #[trigger] self.bugs@[j] == grown[j],
                over == exists|j: int|
                    0 <= j < i && overlaps_spec(
                        #[trigger] self.bugs@[j].pos,
                        BUG_SIZE / 2,
                        self.player_pos,
                        PLAYER_SIZE / 2,
                    ),
            decreases self.bugs@.len() - i,
        {
            let mut b = self.bugs[i];
            b.step(screen);
            let ghost prev = self.bugs@;
            self.bugs.set(i, b);
            let hit = overlaps(b.pos, half, self.player_pos, player_half);
            let ghost was_over = over;
            if hit {
                over = true;
            }
            proof {
                let pl = self.player_pos;
                assert(self.bugs@[i as int] == b);
                assert forall|j: int| 0 <= j < i implies #[trigger] self.bugs@[j] == prev[j] by {}
                if was_over {
                    let k = choose|k: int|
                        0 <= k < i && overlaps_spec(
                            #[trigger] prev[k].pos,
                            BUG_SIZE / 2,
                            pl,
                            PLAYER_SIZE / 2,
                        );
                    assert(self.bugs@[k] == prev[k]);
                }
                if hit {
                    assert(overlaps_spec(self.bugs@[i as int].pos, BUG_SIZE / 2, pl, PLAYER_SIZE / 2));
                }
                if !over {
                    assert forall|j: int| 0 <= j < i + 1 implies !overlaps_spec(
                        #[trigger] self.bugs@[j].pos,
                        BUG_SIZE / 2,
                        pl,
                        PLAYER_SIZE / 2,
                    ) by {
                        if j < i {
                            assert(self.bugs@[j] == prev[j]);
                        }
                    }
                }
            }
            i = i + 1;
        }
        if over {
            Outcome::Over(self.score_count)
        } else {
            Outcome::Running
        }
    }

    /// Advances the session by one tick: the player moves by the intent, then
    /// the target, score and bugs are settled with a target and a bug drawn
    /// around the player's new position.
    pub fn tick(&mut self, intent: MovementIntent) -> (out: Outcome)
        requires
            old(self).wf(),
            old(self).score_count < u64::MAX,
        ensures
            final(self).wf(),
            fits_on_screen(final(self).player_pos, final(self).screen_size, PLAYER_SIZE as int),
            final(self).player_pos.x == moved_coord(
                old(self).player_pos.x as int,
                intent.dx as int,
                old(self).screen_size.width as int,
            ),
            final(self).player_pos.y == moved_coord(
                old(self).player_pos.y as int,
                intent.dy as int,
                old(self).screen_size.height as int,
            ),
            forall|i: int|
                0 <= i < old(self).bugs@.len() ==> abs(#[trigger] final(self).bugs@[i].vel.x as int)
                    == abs(old(self).bugs@[i].vel.x as int) && abs(final(self).bugs@[i].vel.y as int)
                    == abs(old(self).bugs@[i].vel.y as int),
            exists|target: Point, fresh: Bug|
                World::spawns_around(target, fresh, final(self).player_pos, old(self).screen_size)
                    && World::settled(
                    (World {
                        player_pos: final(self).player_pos,
                        score_pos: old(self).score_pos,
                        bugs: old(self).bugs,
                        score_count: old(self).score_count,
                        screen_size: old(self).screen_size,
                    }),
                    target,
                    fresh,
                    *final(self),
                    out,
                ),
    {
        let ghost start = *self;
        self.move_player(intent);
        let ghost moved = *self;
        let target = spawn_position(self.player_pos, self.screen_size, SCORE_SIZE);
        let fresh = Bug::new(self.player_pos, self.screen_size);
        let out = self.settle(target, fresh);
        proof {
            assert forall|i: int| 0 <= i < start.bugs@.len() implies abs(
                #[trigger] self.bugs@[i].vel.x as int,
            ) == abs(start.bugs@[i].vel.x as int) && abs(self.bugs@[i].vel.y as int) == abs(
                start.bugs@[i].vel.y as int,
            ) by {
                let grown = if moved.captures() {
                    moved.bugs@.push(fresh)
                } else {
                    moved.bugs@
                };
                assert(grown[i] == start.bugs@[i]);
                lemma_reflection_keeps_speed(start.bugs@[i], start.screen_size);
            }
            assert(moved == (World {
                player_pos: self.player_pos,
                score_pos: start.score_pos,
                bugs: start.bugs,
                score_count: start.score_count,
                screen_size: start.screen_size,
            }));
            assert(World::spawns_around(target, fresh, self.player_pos, start.screen_size));
        }
        out
    }
}

} // verus!
