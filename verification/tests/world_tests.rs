use astro_core::combat::{BodyRef, CollisionEvent};
use astro_core::entity::{DropAfter, Entity, Shot, Velocity};
use astro_core::space::Position;
use astro_core::state::{handle_resize, BoardSize, CurrentGame, GameState};
use astro_core::world::{blink_system, reset, tick, InputEvents, World};

fn no_input() -> InputEvents {
    InputEvents::none()
}

fn running_world() -> World {
    let mut w = World::new();
    reset(&mut w);
    w
}

#[test]
fn new_world_starts_on_the_title_screen() {
    let w = World::new();
    assert_eq!(w.game.state, GameState::TitleScreen);
    assert_eq!(w.board_size.size, 800);
    assert_eq!(w.score.score, 0);
    assert_eq!(w.time_counter.score, 0);
}

#[test]
fn reset_restores_everything_from_any_state() {
    let mut w = running_world();
    // Disturb every subsystem: run a while, grow the board, die.
    for _ in 0..30 {
        tick(&mut w, 1, &no_input(), &vec![]);
    }
    let grow = InputEvents { grow_pressed: true, ..no_input() };
    tick(&mut w, 1, &grow, &vec![]);
    // Force the loss condition with a player contact (an asteroid has
    // certainly spawned by now; find one).
    let hostile_idx = w
        .entities
        .iter()
        .position(|e| matches!(e, Some(Entity::Hostile(_))))
        .expect("thirty time units spawn at least one hostile");
    let contact = vec![CollisionEvent { a: BodyRef::Player, b: BodyRef::Entity(hostile_idx) }];
    tick(&mut w, 1, &no_input(), &contact);
    assert_eq!(w.game.state, GameState::Died);
    assert_eq!(w.board_size.size, -500);
    assert_eq!(w.score.score, 0);
    assert_eq!(w.time_counter.score, 0);

    // Reset from the died state restores every default.
    let reset_input = InputEvents { reset_pressed: true, ..no_input() };
    tick(&mut w, 1, &reset_input, &vec![]);
    assert_eq!(w.game.state, GameState::Running);
    assert_eq!(w.board_size.size, 800);
    assert_eq!(w.score.score, 0);
    assert_eq!(w.time_counter.score, 0);
    assert_eq!(w.asteroid_queue.queue.len(), 0);
    assert_eq!(w.tower_queue.queue.len(), 0);
    assert_eq!(w.asteroid_track.iteration, 0);
    assert_eq!(w.tower_track.iteration, 0);
    assert_eq!(w.asteroid_track.single.remaining, 5);
    assert_eq!(w.asteroid_track.burst.remaining, 20);
    assert_eq!(w.tower_track.single.remaining, 5);
    assert_eq!(w.tower_track.burst.remaining, 25);
    assert!(w.entities.iter().all(|e| !matches!(e, Some(Entity::Hostile(_)))));
}

#[test]
fn player_death_collapses_the_world_within_the_tick() {
    let mut w = running_world();
    for _ in 0..10 {
        tick(&mut w, 1, &no_input(), &vec![]);
    }
    let hostile_idx = w
        .entities
        .iter()
        .position(|e| matches!(e, Some(Entity::Hostile(_))))
        .expect("ten time units spawn at least one hostile");
    assert!(w.time_counter.score > 0);
    let contact = vec![CollisionEvent { a: BodyRef::Player, b: BodyRef::Entity(hostile_idx) }];
    tick(&mut w, 1, &no_input(), &contact);
    // Died, sentinel extent, zeroed accumulators: all within the same tick.
    assert_eq!(w.game.state, GameState::Died);
    assert_eq!(w.board_size.size, -500);
    assert_eq!(w.score.score, 0);
    assert_eq!(w.time_counter.score, 0);
    // The state persists until an explicit reset.
    tick(&mut w, 1, &no_input(), &vec![]);
    assert_eq!(w.game.state, GameState::Died);
    assert_eq!(w.board_size.size, -500);
}

#[test]
fn crossing_the_win_threshold_while_running_wins() {
    let mut w = running_world();
    w.time_counter.score = 100;
    assert_eq!(w.game.state, GameState::Running);
    tick(&mut w, 1, &no_input(), &vec![]);
    assert_eq!(w.game.state, GameState::Won);
    // Won persists without a reset — even through a player-hostile contact,
    // since the loss condition is entered from the running state only.
    w.entities = vec![Some(Entity::Hostile(astro_core::entity::Hostile {
        kind: astro_core::entity::HostileKind::Asteroid,
        pos: Position { x: 10, y: 10 },
        vel: Velocity { x: 0, y: 0 },
        health: astro_core::entity::EnemyHelth { health: 3 },
        field: None,
        fire: None,
    }))];
    let contact = vec![CollisionEvent { a: BodyRef::Player, b: BodyRef::Entity(0) }];
    for _ in 0..5 {
        tick(&mut w, 1, &no_input(), &contact);
        assert_eq!(w.game.state, GameState::Won);
    }
    // Only the explicit reset returns to running.
    let reset_input = InputEvents { reset_pressed: true, ..no_input() };
    tick(&mut w, 1, &reset_input, &vec![]);
    assert_eq!(w.game.state, GameState::Running);
}

#[test]
fn exactly_at_the_threshold_is_not_yet_a_win() {
    let mut w = running_world();
    w.time_counter.score = 99;
    tick(&mut w, 1, &no_input(), &vec![]);
    // The counter reads one hundred: the win needs it to exceed the threshold.
    assert_eq!(w.time_counter.score, 100);
    assert_eq!(w.game.state, GameState::Running);
    tick(&mut w, 1, &no_input(), &vec![]);
    assert_eq!(w.game.state, GameState::Won);
}

#[test]
fn debug_resize_steps_the_extent_while_running() {
    let running = CurrentGame { state: GameState::Running };
    let mut board = BoardSize { size: 800 };
    handle_resize(&running, &mut board, false, true);
    assert_eq!(board.size, 810);
    handle_resize(&running, &mut board, true, false);
    assert_eq!(board.size, 800);
    // Both keys in one tick cancel out; the steps are unclamped.
    handle_resize(&running, &mut board, true, true);
    assert_eq!(board.size, 800);
    // Input is not handled outside the running state.
    let title = CurrentGame { state: GameState::TitleScreen };
    handle_resize(&title, &mut board, false, true);
    assert_eq!(board.size, 800);
}

#[test]
fn fire_command_spawns_a_shot_at_the_player() {
    let mut w = running_world();
    let fire = InputEvents { shoot: Some(Velocity { x: 0, y: 2000 }), ..no_input() };
    tick(&mut w, 0, &fire, &vec![]);
    let shots: Vec<_> = w
        .entities
        .iter()
        .filter_map(|e| match e {
            Some(Entity::Shot(s)) => Some(s.clone()),
            _ => None,
        })
        .collect();
    assert_eq!(shots.len(), 1);
    assert_eq!(shots[0].pos, Position { x: 0, y: 100 });
    assert_eq!(shots[0].vel, Velocity { x: 0, y: 2000 });
    assert_eq!(shots[0].drop.time, 1);
}

#[test]
fn wave_schedule_materializes_the_first_asteroid_on_time() {
    let mut w = running_world();
    let mut first_spawn_at = None;
    for t in 1..=12 {
        let out = tick(&mut w, 1, &no_input(), &vec![]);
        if out.materialized_asteroid.is_some() && first_spawn_at.is_none() {
            first_spawn_at = Some(t);
        }
    }
    // The single timer fires on the fifth tick; the request's three-unit
    // delay starts elapsing in that same tick's queue pass, so the asteroid
    // materializes two ticks later.
    assert_eq!(first_spawn_at, Some(7));
}

#[test]
fn blink_translates_shots_with_the_player() {
    let mut player = astro_core::entity::Player { pos: Position { x: 500, y: 0 } };
    let mut entities = vec![
        Some(Entity::Shot(Shot {
            pos: Position { x: 10, y: 10 },
            vel: Velocity { x: 0, y: 0 },
            drop: DropAfter { time: 1 },
        })),
        Some(Entity::Hostile(astro_core::entity::Hostile {
            kind: astro_core::entity::HostileKind::Asteroid,
            pos: Position { x: 600, y: 0 },
            vel: Velocity { x: 0, y: 0 },
            health: astro_core::entity::EnemyHelth { health: 3 },
            field: None,
            fire: None,
        })),
    ];
    let board = BoardSize { size: 800 };
    let wrapped = blink_system(&mut player, &mut entities, &board);
    assert!(wrapped);
    assert_eq!(player.pos, Position { x: -300, y: 0 });
    // The player moved by minus eight hundred; the shot follows.
    match &entities[0] {
        Some(Entity::Shot(s)) => assert_eq!(s.pos, Position { x: -790, y: 10 }),
        other => panic!("expected the shot, found {other:?}"),
    }
    // The asteroid is wrapped but receives no correction.
    match &entities[1] {
        Some(Entity::Hostile(h)) => assert_eq!(h.pos, Position { x: -200, y: 0 }),
        other => panic!("expected the asteroid, found {other:?}"),
    }
}

#[test]
fn pursuit_points_toward_the_player_across_the_seam() {
    let mut w = running_world();
    w.player.pos = Position { x: -300, y: 0 };
    w.entities = vec![Some(Entity::Hostile(astro_core::entity::Hostile {
        kind: astro_core::entity::HostileKind::Asteroid,
        pos: Position { x: 300, y: 0 },
        vel: Velocity { x: 0, y: 0 },
        health: astro_core::entity::EnemyHelth { health: 3 },
        field: None,
        fire: None,
    }))];
    let out = tick(&mut w, 0, &no_input(), &vec![]);
    assert_eq!(out.pursuit.len(), 1);
    assert_eq!(out.pursuit[0].handle, 0);
    // Going around the seam is two hundred; the direct path is six hundred.
    assert_eq!(out.pursuit[0].dir, Velocity { x: 200, y: 0 });
}

#[test]
fn tension_sample_is_emitted_once_per_unit() {
    let mut w = running_world();
    let out = tick(&mut w, 1, &no_input(), &vec![]);
    assert!(out.audio.is_some());
    let out = tick(&mut w, 0, &no_input(), &vec![]);
    assert!(out.audio.is_none());
}
