use astro_core::entity::Entity;
use astro_core::spawn::{spawn_after_finished_queue, update_spawn_queue};
use astro_core::state::BoardSize;
use astro_core::timer::{OneShot, Repeat, TowerField};
use astro_core::waves::{
    asteroid_intervals, queue_enemies, tower_intervals, AsteroidQueue, Track, TowerQueue,
    TowerTimer,
};

fn fresh_tracks() -> (Track, Track) {
    (
        Track {
            single: OneShot::new(5),
            burst: OneShot::new(20),
            iteration: 0,
        },
        Track {
            single: OneShot::new(5),
            burst: OneShot::new(25),
            iteration: 0,
        },
    )
}

#[test]
fn escalation_formula_values() {
    assert_eq!(asteroid_intervals(0), (10, 20));
    assert_eq!(asteroid_intervals(1), (9, 18));
    assert_eq!(asteroid_intervals(5), (5, 10));
    assert_eq!(asteroid_intervals(9), (1, 5));
    assert_eq!(asteroid_intervals(100), (1, 5));
    assert_eq!(tower_intervals(0), (15, 30));
    assert_eq!(tower_intervals(5), (10, 15));
    assert_eq!(tower_intervals(14), (1, 5));
    assert_eq!(tower_intervals(1000), (1, 5));
}

#[test]
fn first_burst_sets_ten_twenty_exactly_once() {
    let (mut asteroid, mut tower) = fresh_tracks();
    let mut as_que = AsteroidQueue { queue: vec![] };
    let mut tq = TowerQueue { queue: vec![] };
    let board = BoardSize { size: 800 };

    // Exhaust the initial burst timer of twenty units in one go: the first
    // burst recomputes the intervals at iteration zero, giving ten and twenty.
    queue_enemies(&mut asteroid, &mut tower, &mut as_que, &mut tq, &board, 20);
    assert_eq!(asteroid.iteration, 1);
    assert_eq!(asteroid.single.remaining, 10);
    assert_eq!(asteroid.burst.remaining, 20);

    // The second burst recomputes at iteration one: nine and eighteen. The
    // pair ten/twenty is never set again.
    queue_enemies(&mut asteroid, &mut tower, &mut as_que, &mut tq, &board, 20);
    assert_eq!(asteroid.iteration, 2);
    assert_eq!(asteroid.single.remaining, 9);
    assert_eq!(asteroid.burst.remaining, 18);

    // As the iteration grows unbounded the intervals are floored at one and
    // five.
    for _ in 0..50 {
        let burst = asteroid.burst.remaining;
        queue_enemies(&mut asteroid, &mut tower, &mut as_que, &mut tq, &board, burst);
    }
    assert_eq!(asteroid.single.remaining, 1);
    assert_eq!(asteroid.burst.remaining, 5);
}

#[test]
fn single_expiry_enqueues_one_request_with_delay_three() {
    let (mut asteroid, mut tower) = fresh_tracks();
    let mut as_que = AsteroidQueue { queue: vec![] };
    let mut tq = TowerQueue { queue: vec![] };
    let board = BoardSize { size: 800 };
    queue_enemies(&mut asteroid, &mut tower, &mut as_que, &mut tq, &board, 5);
    assert_eq!(as_que.queue.len(), 1);
    assert_eq!(as_que.queue[0].remaining, 3);
    assert_eq!(asteroid.iteration, 0);
    // The tower single timer also fired at five: one pending tower request.
    assert_eq!(tq.queue.len(), 1);
}

#[test]
fn burst_expiry_enqueues_three_staggered_requests() {
    let (mut asteroid, mut tower) = fresh_tracks();
    let mut as_que = AsteroidQueue { queue: vec![] };
    let mut tq = TowerQueue { queue: vec![] };
    let board = BoardSize { size: 800 };
    queue_enemies(&mut asteroid, &mut tower, &mut as_que, &mut tq, &board, 20);
    // The single timer fired at five on the way, plus the three burst entries.
    let delays: Vec<i64> = as_que.queue.iter().map(|t| t.remaining).collect();
    assert_eq!(delays, vec![3, 3, 6, 9]);
}

#[test]
fn tower_escalation_reads_asteroid_iteration() {
    // Both burst timers expire in the same tick: the asteroid track steps to
    // iteration one first, and the tower track's recomputation reads the
    // asteroid counter, not its own.
    let mut asteroid = Track {
        single: OneShot::new(50),
        burst: OneShot::new(1),
        iteration: 0,
    };
    let mut tower = Track {
        single: OneShot::new(50),
        burst: OneShot::new(1),
        iteration: 7,
    };
    let mut as_que = AsteroidQueue { queue: vec![] };
    let mut tq = TowerQueue { queue: vec![] };
    let board = BoardSize { size: 800 };
    queue_enemies(&mut asteroid, &mut tower, &mut as_que, &mut tq, &board, 1);
    assert_eq!(asteroid.iteration, 1);
    assert_eq!(tower.iteration, 8);
    // max(1, 15 - 1) and max(5, 30 - 3): from the asteroid iteration of one,
    // not the tower iteration of eight.
    assert_eq!(tower.single.remaining, 14);
    assert_eq!(tower.burst.remaining, 27);
}

#[test]
fn tower_request_positions_stay_inside_margin() {
    // Would fail if the random draw handed a range endpoint back out of range.
    for _ in 0..100 {
        let entry = TowerTimer::new(&800);
        assert!(-350 <= entry.xpos && entry.xpos < 350, "xpos {}", entry.xpos);
        assert!(-350 <= entry.ypos && entry.ypos < 350, "ypos {}", entry.ypos);
        assert_eq!(entry.timer.remaining, 5);
        assert_eq!(entry.factory_timer.remaining, 3);
        assert_eq!(entry.projectile_timer, Repeat { period: 5, remaining: 5 });
    }
}

#[test]
fn tower_request_on_collapsed_extent_uses_fallback() {
    for _ in 0..50 {
        let entry = TowerTimer::new(&-500);
        // Fallback extent of 110 leaves the band [-5, 5).
        assert!(-5 <= entry.xpos && entry.xpos < 5, "xpos {}", entry.xpos);
        assert!(-5 <= entry.ypos && entry.ypos < 5, "ypos {}", entry.ypos);
    }
}

#[test]
fn spawn_queue_materializes_at_most_one_per_tick() {
    // Two requests expire simultaneously; only the first materializes this
    // tick, the other stays pending and fires on a later tick.
    let mut as_que = AsteroidQueue {
        queue: vec![OneShot::new(1), OneShot::new(1)],
    };
    let mut entities: Vec<Option<Entity>> = vec![];
    let spawned = update_spawn_queue(&mut as_que, &mut entities, 1);
    assert!(spawned.is_some());
    assert_eq!(as_que.queue.len(), 1);
    assert_eq!(entities.iter().filter(|e| e.is_some()).count(), 1);

    let spawned = update_spawn_queue(&mut as_que, &mut entities, 1);
    assert!(spawned.is_some());
    assert_eq!(as_que.queue.len(), 0);
    assert_eq!(entities.iter().filter(|e| e.is_some()).count(), 2);
}

#[test]
fn materialized_asteroid_has_its_fixed_form() {
    let mut as_que = AsteroidQueue { queue: vec![OneShot::new(3)] };
    let mut entities: Vec<Option<Entity>> = vec![];
    assert!(update_spawn_queue(&mut as_que, &mut entities, 2).is_none());
    let spawned = update_spawn_queue(&mut as_que, &mut entities, 1);
    let handle = spawned.expect("request expired");
    match &entities[handle] {
        Some(Entity::Hostile(h)) => {
            assert_eq!(h.health.health, 3);
            assert_eq!((h.pos.x, h.pos.y), (10, 10));
            assert_eq!((h.vel.x, h.vel.y), (50, 80));
            assert!(h.field.is_none());
            assert!(h.fire.is_none());
        }
        other => panic!("expected an asteroid, found {other:?}"),
    }
}

#[test]
fn tower_queue_materializes_tower_with_full_health() {
    let entry = TowerTimer::new(&800);
    let (x, y) = (entry.xpos, entry.ypos);
    let mut tq = TowerQueue { queue: vec![entry] };
    let mut entities: Vec<Option<Entity>> = vec![];
    // The arm delay is five; four units are not enough.
    assert!(spawn_after_finished_queue(&mut tq, &mut entities, 4).is_none());
    let handle = spawn_after_finished_queue(&mut tq, &mut entities, 1).expect("armed");
    assert_eq!(tq.queue.len(), 0);
    match &entities[handle] {
        Some(Entity::Hostile(h)) => {
            assert_eq!(h.health.health, 10);
            assert_eq!((h.pos.x, h.pos.y), (x, y));
            assert_eq!(h.field, Some(TowerField { elapsed: 0 }));
            assert_eq!(h.fire, Some(Repeat { period: 5, remaining: 5 }));
        }
        other => panic!("expected a tower, found {other:?}"),
    }
}
