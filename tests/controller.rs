use bugs::controller::{
    autonomous, edges, first_conflict, manual, options, pursuit_step, resolve_axis, Controller,
    Edges, Keys, Options,
};
use bugs::geometry::{Point, Screen, PIXEL};
use bugs::world::{Bug, MovementIntent, Vector, World, PLAYER_SPEED};

fn px(x: i64, y: i64) -> Point {
    Point { x: x * PIXEL, y: y * PIXEL }
}

fn bug(pos: Point, vx: i64, vy: i64) -> Bug {
    Bug { pos, vel: Vector { x: vx, y: vy } }
}

fn world(player: Point, score: Point, bugs: Vec<Bug>) -> World {
    World {
        player_pos: player,
        score_pos: score,
        bugs,
        score_count: 0,
        screen_size: Screen { width: 800 * PIXEL, height: 600 * PIXEL },
    }
}

fn keys(up: bool, down: bool, left: bool, right: bool) -> Keys {
    Keys { up, down, left, right }
}

#[test]
fn pursuit_stops_within_reach() {
    assert_eq!(pursuit_step(25 * PIXEL), PLAYER_SPEED);
    assert_eq!(pursuit_step(25 * PIXEL - 1), 0);
    assert_eq!(pursuit_step(0), 0);
    assert_eq!(pursuit_step(-25 * PIXEL + 1), 0);
    assert_eq!(pursuit_step(-25 * PIXEL), -PLAYER_SPEED);
    assert_eq!(pursuit_step(-700 * PIXEL), -PLAYER_SPEED);
}

#[test]
fn resolve_follows_priority_table() {
    let d = -PLAYER_SPEED;
    assert_eq!(resolve_axis(true, true, true, d), d);
    assert_eq!(resolve_axis(true, true, true, 0), 0);
    assert_eq!(resolve_axis(false, true, true, d), PLAYER_SPEED);
    assert_eq!(resolve_axis(true, false, true, PLAYER_SPEED), -PLAYER_SPEED);
    assert_eq!(resolve_axis(false, true, false, d), PLAYER_SPEED);
    assert_eq!(resolve_axis(true, false, false, PLAYER_SPEED), -PLAYER_SPEED);
    assert_eq!(resolve_axis(false, false, true, d), 0);
    assert_eq!(resolve_axis(false, false, false, d), d);
    assert_eq!(resolve_axis(true, true, false, d), d);
}

#[test]
fn edges_name_the_side_that_meets_the_bug() {
    let none = Edges { left: false, right: false, up: false, down: false };
    assert_eq!(edges(px(100, 100), px(87, 100)), Edges { left: true, ..none });
    assert_eq!(edges(px(100, 100), px(113, 100)), Edges { right: true, ..none });
    assert_eq!(edges(px(100, 100), px(100, 87)), Edges { up: true, ..none });
    assert_eq!(edges(px(100, 100), px(100, 113)), Edges { down: true, ..none });
    assert_eq!(edges(px(100, 100), px(88, 112)), Edges { left: true, down: true, ..none });
    assert_eq!(edges(px(100, 100), px(100, 100)), none);
    assert_eq!(edges(px(100, 100), px(85, 100)), none);
}

#[test]
fn first_conflict_takes_the_closest_tick() {
    let none = Edges { left: false, right: false, up: false, down: false };
    let still = Vector { x: 0, y: 0 };
    assert_eq!(first_conflict(px(100, 100), still, bug(px(84, 100), 3 * PIXEL, 0)), Edges { left: true, ..none });
    assert_eq!(first_conflict(px(100, 100), still, bug(px(81, 100), 3 * PIXEL, 0)), Edges { left: true, ..none });
    assert_eq!(first_conflict(px(100, 100), still, bug(px(78, 100), 3 * PIXEL, 0)), none);
    let right = Vector { x: PLAYER_SPEED, y: 0 };
    assert_eq!(first_conflict(px(100, 100), right, bug(px(124, 100), 0, 0)), Edges { right: true, ..none });
}

#[test]
fn options_without_bugs_are_all_safe() {
    let w = world(px(100, 100), px(500, 100), vec![]);
    assert_eq!(options(&w), Options { left: true, right: true, up: true, down: true, wait: true });
    assert_eq!(autonomous(&w), MovementIntent { dx: PLAYER_SPEED, dy: 0 });
}

#[test]
fn autonomous_heads_for_the_target() {
    let w = world(px(400, 300), px(100, 500), vec![bug(px(700, 50), 2 * PIXEL, 0)]);
    assert_eq!(autonomous(&w), MovementIntent { dx: -PLAYER_SPEED, dy: PLAYER_SPEED });
    let w = world(px(400, 300), px(420, 300), vec![]);
    assert_eq!(autonomous(&w), MovementIntent { dx: 0, dy: 0 });
}

#[test]
fn autonomous_blocks_waiting_and_the_left_edge() {
    let w = world(px(100, 100), px(100, 100), vec![bug(px(84, 100), 3 * PIXEL, 0)]);
    assert_eq!(options(&w), Options { left: false, right: true, up: true, down: true, wait: false });
    assert_eq!(autonomous(&w), MovementIntent { dx: PLAYER_SPEED, dy: 0 });
}

#[test]
fn cornered_falls_back_to_pursuit() {
    let w = world(
        px(100, 100),
        px(100, 300),
        vec![bug(px(84, 100), 3 * PIXEL, 0), bug(px(116, 100), -3 * PIXEL, 0)],
    );
    assert_eq!(options(&w), Options { left: false, right: false, up: false, down: true, wait: false });
    assert_eq!(autonomous(&w), MovementIntent { dx: 0, dy: PLAYER_SPEED });
}

#[test]
fn manual_maps_keys_to_steps() {
    assert_eq!(manual(keys(false, false, false, false)), MovementIntent { dx: 0, dy: 0 });
    assert_eq!(manual(keys(true, false, false, true)), MovementIntent { dx: PLAYER_SPEED, dy: -PLAYER_SPEED });
    assert_eq!(manual(keys(false, true, true, false)), MovementIntent { dx: -PLAYER_SPEED, dy: PLAYER_SPEED });
    assert_eq!(manual(keys(true, true, true, true)), MovementIntent { dx: -PLAYER_SPEED, dy: -PLAYER_SPEED });
}

#[test]
fn controller_dispatches_on_mode() {
    let w = world(px(100, 100), px(500, 100), vec![]);
    let k = keys(false, true, false, false);
    assert_eq!(Controller::Manual.decide(&w, k), MovementIntent { dx: 0, dy: PLAYER_SPEED });
    assert_eq!(Controller::Autonomous.decide(&w, k), MovementIntent { dx: PLAYER_SPEED, dy: 0 });
}

#[test]
fn intents_are_whole_steps() {
    let mut w = World::new(Screen { width: 800 * PIXEL, height: 600 * PIXEL });
    for _ in 0..500 {
        let i = autonomous(&w);
        for d in [i.dx, i.dy] {
            assert!(d == -PLAYER_SPEED || d == 0 || d == PLAYER_SPEED);
        }
        if w.tick(i) != bugs::world::Outcome::Running {
            break;
        }
    }
}

#[test]
fn autonomous_dodges_whatever_the_target() {
    for score in [px(400, 300), px(30, 100), px(100, 400), px(100, 20), px(110, 110)] {
        let b = bug(px(84, 100), 3 * PIXEL, 0);
        let mut w = world(px(100, 100), score, vec![b]);
        let intent = autonomous(&w);
        w.move_player(intent);
        assert_ne!(w.player_pos, px(100, 100));
        let mut moved = b;
        moved.step(w.screen_size);
        assert!(!bugs::geometry::overlaps(moved.pos, 5 * PIXEL, w.player_pos, 10 * PIXEL));
    }
}
