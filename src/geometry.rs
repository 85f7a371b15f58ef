use vstd::prelude::*;

use crate::chance::random_below;

verus! {

/// Fixed-point units in one pixel.
pub const PIXEL: i64 = 1000;

/// Side of the player's square.
pub const PLAYER_SIZE: i64 = 20 * PIXEL;

/// Side of the score target's square.
pub const SCORE_SIZE: i64 = 30 * PIXEL;

/// Side of a bug's square.
pub const BUG_SIZE: i64 = 10 * PIXEL;

/// Largest screen extent, and bound on coordinates handed to the geometry.
pub const MAX_EXTENT: i64 = 1_000_000_000_000;

/// A position on the playing field, in fixed-point units.
#[derive(Clone, Copy, Debug, PartialEq, Eq, Structural)]
pub struct Point {
    pub x: i64,
    pub y: i64,
}

/// Whether two axis-aligned squares, given by their centers and half-sides,
/// intersect on both axes as open intervals.
pub open spec fn overlaps_spec(a: Point, a_half: int, b: Point, b_half: int) -> bool {
    &&& a.x - a_half < b.x + b_half
    &&& a.x + a_half > b.x - b_half
    &&& a.y - a_half < b.y + b_half
    &&& a.y + a_half > b.y - b_half
}

/// Tests whether two squares strictly overlap; boxes that only share an edge do not.
pub fn overlaps(a: Point, a_half: i64, b: Point, b_half: i64) -> (r: bool)
    ensures
        r == overlaps_spec(a, a_half as int, b, b_half as int),
{
    let ax = a.x as i128;
    let ay = a.y as i128;
    let bx = b.x as i128;
    let by = b.y as i128;
    let ah = a_half as i128;
    let bh = b_half as i128;
    ax - ah < bx + bh && ax + ah > bx - bh && ay - ah < by + bh && ay + ah > by - bh
}

/// Overlap does not depend on the order of the two squares.
pub proof fn lemma_overlaps_symmetric(a: Point, a_half: int, b: Point, b_half: int)
    ensures
        overlaps_spec(a, a_half, b, b_half) == overlaps_spec(b, b_half, a, a_half),
{
}

/// Squares that only touch along an edge (on either axis) do not overlap.
pub proof fn lemma_touching_does_not_overlap(a: Point, a_half: int, b: Point, b_half: int)
    requires
        a.x + a_half == b.x - b_half || a.x - a_half == b.x + b_half || a.y + a_half == b.y
            - b_half || a.y - a_half == b.y + b_half,
    ensures
        !overlaps_spec(a, a_half, b, b_half),
{
}

/// The playing field's extent, in fixed-point units.
#[derive(Clone, Copy, Debug, PartialEq, Eq, Structural)]
pub struct Screen {
    pub width: i64,
    pub height: i64,
}

/// How many candidate offsets a spawn draw chooses from along an extent.
pub open spec fn spawn_span(extent: int, size: int) -> int {
    extent - PLAYER_SIZE - 2 * size
}

/// A draw along an extent: below the span, or zero where the span is empty
/// and the square fits exactly.
pub open spec fn draw_in_span(r: int, span: int) -> bool {
    0 <= r && (r < span || r == 0)
}

/// Where a spawn lands along one axis for a draw `r`: the candidate is offset by
/// half a side, then pushed past the avoided point once when its far edge reaches
/// that point's near edge. The push is single-shot, so it may still overlap.
pub open spec fn placed_coord(r: int, avoid: int, size: int) -> int {
    let c = r + size / 2;
    if c + size / 2 >= avoid - PLAYER_SIZE / 2 {
        c + PLAYER_SIZE + size
    } else {
        c
    }
}

/// A square of side `size` centered at `p` lies inside the screen.
pub open spec fn fits_on_screen(p: Point, screen: Screen, size: int) -> bool {
    &&& size / 2 <= p.x
    &&& p.x + size / 2 <= screen.width
    &&& size / 2 <= p.y
    &&& p.y + size / 2 <= screen.height
}

/// The inputs on which a spawn of side `size` can be drawn.
pub open spec fn spawn_allowed(avoid: Point, screen: Screen, size: int) -> bool {
    &&& 0 < size
    &&& 0 <= spawn_span(screen.width as int, size)
    &&& 0 <= spawn_span(screen.height as int, size)
    &&& screen.width <= MAX_EXTENT
    &&& screen.height <= MAX_EXTENT
    &&& -MAX_EXTENT <= avoid.x <= MAX_EXTENT
    &&& -MAX_EXTENT <= avoid.y <= MAX_EXTENT
}

/// Places a square of side `size` from the draws `rx` and `ry`, steering it away
/// from the player's square centered at `avoid`.
pub fn place(avoid: Point, screen: Screen, size: i64, rx: u64, ry: u64) -> (r: Point)
    requires
        spawn_allowed(avoid, screen, size as int),
        draw_in_span(rx as int, spawn_span(screen.width as int, size as int)),
        draw_in_span(ry as int, spawn_span(screen.height as int, size as int)),
    ensures
        r.x == placed_coord(rx as int, avoid.x as int, size as int),
        r.y == placed_coord(ry as int, avoid.y as int, size as int),
        fits_on_screen(r, screen, size as int),
{
    let half = size / 2;
    let player_half = PLAYER_SIZE / 2;
    let mut x = rx as i64 + half;
    let mut y = ry as i64 + half;
    if x + half >= avoid.x - player_half {
        x = x + PLAYER_SIZE + size;
    }
    if y + half >= avoid.y - player_half {
        y = y + PLAYER_SIZE + size;
    }
    Point { x, y }
}

/// `p` is where some pair of draws places a square of side `size` around the
/// player's square centered at `avoid`.
pub open spec fn placed_around(p: Point, avoid: Point, screen: Screen, size: int) -> bool {
    exists|rx: int, ry: int|
        draw_in_span(rx, spawn_span(screen.width as int, size)) && draw_in_span(
            ry,
            spawn_span(screen.height as int, size),
        ) && p.x == placed_coord(rx, avoid.x as int, size) && p.y == placed_coord(
            ry,
            avoid.y as int,
            size,
        )
}

/// A draw below `span`, or zero where the span is empty.
fn draw_below(span: i64) -> (r: u64)
    requires
        0 <= span,
    ensures
        draw_in_span(r as int, span as int),
{
    if span > 0 {
        random_below(span as u64)
    } else {
        0
    }
}

/// Draws a random position for a square of side `size` that tries to keep clear
/// of the player's square centered at `avoid`.
pub fn spawn_position(avoid: Point, screen: Screen, size: i64) -> (r: Point)
    requires
        spawn_allowed(avoid, screen, size as int),
    ensures
        fits_on_screen(r, screen, size as int),
        placed_around(r, avoid, screen, size as int),
{
    let rx = draw_below(screen.width - PLAYER_SIZE - 2 * size);
    let ry = draw_below(screen.height - PLAYER_SIZE - 2 * size);
    let r = place(avoid, screen, size, rx, ry);
    assert(draw_in_span(rx as int, spawn_span(screen.width as int, size as int)));
    r
}

} // verus!
