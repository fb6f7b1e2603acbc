use astro_core::entity::{DropAfter, EnemyHelth, Entity, Hostile, HostileKind, Shot, Velocity};
use astro_core::extent::time_and_adjust_board;
use astro_core::space::Position;
use astro_core::spawn::{
    drop_them, fix_visibility_factory, spawn_and_destroy_factories, spawn_projectiles_at,
    tick_fire_timers,
};
use astro_core::state::{BoardSize, Score};
use astro_core::timer::{OneShot, Repeat, TowerField};
use astro_core::waves::{AsteroidQueue, TowerQueue, TowerTimer};

fn tower_with_field(elapsed: i64) -> Option<Entity> {
    Some(Entity::Hostile(Hostile {
        kind: HostileKind::Tower,
        pos: Position { x: 100, y: -100 },
        vel: Velocity { x: 0, y: 0 },
        health: EnemyHelth { health: 10 },
        field: Some(TowerField { elapsed }),
        fire: Some(Repeat { period: 5, remaining: 5 }),
    }))
}

#[test]
fn occupation_time_shrinks_the_extent() {
    let mut entities = vec![tower_with_field(0)];
    let mut board = BoardSize { size: 800 };
    let mut score = Score { score: 0 };
    time_and_adjust_board(&mut entities, &mut board, &mut score, 50);
    // The clock accumulated fifty units; the candidate 800 - 50 clears the
    // hysteresis band.
    assert_eq!(board.size, 750);
    // Each occupied field credits the score at half rate: fifty half-units.
    assert_eq!(score.score, 50);
}

#[test]
fn hysteresis_suppresses_small_changes() {
    let mut entities = vec![tower_with_field(0)];
    let mut board = BoardSize { size: 801 };
    let mut score = Score { score: 0 };
    // Candidate 800 differs by one: within the band, nothing moves.
    time_and_adjust_board(&mut entities, &mut board, &mut score, 0);
    assert_eq!(board.size, 801);
    // One more elapsed unit: candidate 799 differs by two and is applied.
    time_and_adjust_board(&mut entities, &mut board, &mut score, 1);
    assert_eq!(board.size, 799);
}

#[test]
fn field_clock_stops_at_its_cap() {
    let mut entities = vec![tower_with_field(0)];
    let mut board = BoardSize { size: 800 };
    let mut score = Score { score: 0 };
    time_and_adjust_board(&mut entities, &mut board, &mut score, 600);
    // Elapsed time caps at five hundred.
    assert_eq!(board.size, 300);
    match &entities[0] {
        Some(Entity::Hostile(h)) => assert_eq!(h.field, Some(TowerField { elapsed: 500 })),
        other => panic!("expected the tower, found {other:?}"),
    }
}

#[test]
fn time_to_live_decrements_then_despawns() {
    let mut entities = vec![Some(Entity::Shot(Shot {
        pos: Position { x: 0, y: 0 },
        vel: Velocity { x: 0, y: 0 },
        drop: DropAfter { time: 1 },
    }))];
    drop_them(&mut entities, 1);
    match &entities[0] {
        Some(Entity::Shot(sh)) => assert_eq!(sh.drop.time, 0),
        other => panic!("the shot survives until its time has run out, found {other:?}"),
    }
    drop_them(&mut entities, 1);
    assert!(entities[0].is_none(), "despawned on the tick after expiry");
}

#[test]
fn towers_fire_projectiles_on_their_interval() {
    let mut entities = vec![tower_with_field(0)];
    let firing = tick_fire_timers(&mut entities, 4);
    assert!(firing.is_empty(), "four units do not exhaust the five-unit interval");
    let firing = tick_fire_timers(&mut entities, 1);
    assert_eq!(firing, vec![Position { x: 100, y: -100 }]);
    let handles = spawn_projectiles_at(&mut entities, &firing);
    assert_eq!(handles.len(), 1);
    let p = match &entities[handles[0]] {
        Some(Entity::Projectile(p)) => p.clone(),
        other => panic!("expected the spawned projectile, found {other:?}"),
    };
    assert_eq!(p.pos, Position { x: 100, y: -100 });
    assert_eq!(p.drop.time, 2);
    // The drawn heading is one of the four permitted ones; this fails if the
    // random draw handed an argument back out of range.
    let v = (p.vel.x, p.vel.y);
    assert!(
        v == (-300, -300) || v == (-300, 0) || v == (0, -300) || v == (300, 0),
        "heading {v:?}"
    );
}

#[test]
fn one_projectile_per_firing_tower() {
    // Two firing positions give exactly two new projectiles in distinct
    // slots, one at each position, and nothing else changes.
    let mut entities = vec![tower_with_field(0), None, tower_with_field(0)];
    let firing = vec![Position { x: 100, y: -100 }, Position { x: 100, y: -100 }];
    let before = entities.iter().filter(|e| e.is_some()).count();
    let handles = spawn_projectiles_at(&mut entities, &firing);
    assert_eq!(handles.len(), 2);
    assert_ne!(handles[0], handles[1]);
    for (j, &h) in handles.iter().enumerate() {
        match &entities[h] {
            Some(Entity::Projectile(p)) => assert_eq!(p.pos, firing[j]),
            other => panic!("expected a projectile, found {other:?}"),
        }
    }
    let after = entities.iter().filter(|e| e.is_some()).count();
    assert_eq!(after, before + 2);
    // The towers themselves are untouched.
    assert_eq!(entities[0], tower_with_field(0));
    assert_eq!(entities[2], tower_with_field(0));
}

#[test]
fn factory_feedback_fires_once_per_request() {
    let entry = TowerTimer::new(&800);
    let (x, y) = (entry.xpos, entry.ypos);
    let mut tq = TowerQueue { queue: vec![entry] };
    let armed = spawn_and_destroy_factories(&mut tq, 2);
    assert!(armed.is_empty(), "the factory delay is three units");
    let armed = spawn_and_destroy_factories(&mut tq, 1);
    assert_eq!(armed, vec![Position { x, y }]);
    // Single-shot: the same request never reports armed again.
    let armed = spawn_and_destroy_factories(&mut tq, 10);
    assert!(armed.is_empty());
}

#[test]
fn factory_warning_tracks_imminent_requests() {
    let far = AsteroidQueue { queue: vec![OneShot::new(3)] };
    assert!(!fix_visibility_factory(&far));
    let near = AsteroidQueue { queue: vec![OneShot::new(3), OneShot::new(2)] };
    assert!(fix_visibility_factory(&near));
    let empty = AsteroidQueue { queue: vec![] };
    assert!(!fix_visibility_factory(&empty));
}
