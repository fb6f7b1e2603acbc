use astro_core::combat::{check_shooted, resolve_collision, BodyRef, CollisionEvent};
use astro_core::entity::{
    DropAfter, EnemyHelth, Entity, Hostile, HostileKind, Projectile, Shot, Velocity,
};
use astro_core::space::Position;
use astro_core::state::{BoardSize, CurrentGame, GameState};
use astro_core::timer::TowerField;

fn tower(health: u32, elapsed: i64) -> Entity {
    Entity::Hostile(Hostile {
        kind: HostileKind::Tower,
        pos: Position { x: 0, y: 0 },
        vel: Velocity { x: 0, y: 0 },
        health: EnemyHelth { health },
        field: Some(TowerField { elapsed }),
        fire: None,
    })
}

fn asteroid(health: u32) -> Entity {
    Entity::Hostile(Hostile {
        kind: HostileKind::Asteroid,
        pos: Position { x: 10, y: 10 },
        vel: Velocity { x: 50, y: 80 },
        health: EnemyHelth { health },
        field: None,
        fire: None,
    })
}

fn shot() -> Entity {
    Entity::Shot(Shot {
        pos: Position { x: 0, y: 0 },
        vel: Velocity { x: 0, y: 100 },
        drop: DropAfter { time: 1 },
    })
}

fn projectile() -> Entity {
    Entity::Projectile(Projectile {
        pos: Position { x: 0, y: 0 },
        vel: Velocity { x: 300, y: 0 },
        drop: DropAfter { time: 2 },
    })
}

fn running() -> CurrentGame {
    CurrentGame { state: GameState::Running }
}

#[test]
fn shot_hits_tower_and_despawns() {
    let mut entities = vec![Some(tower(10, 7)), Some(shot())];
    let mut board = BoardSize { size: 800 };
    let mut game = running();
    resolve_collision(
        &mut entities,
        &mut board,
        &mut game,
        CollisionEvent { a: BodyRef::Entity(0), b: BodyRef::Entity(1) },
    );
    match &entities[0] {
        Some(Entity::Hostile(h)) => assert_eq!(h.health.health, 9),
        other => panic!("tower should survive at health nine, found {other:?}"),
    }
    assert!(entities[1].is_none(), "the shot despawns unconditionally");
    assert_eq!(board.size, 800, "no kill, no bonus");
    assert_eq!(game.state, GameState::Running);
}

#[test]
fn ten_hits_despawn_tower_and_pay_field_bonus() {
    let mut entities = vec![Some(tower(10, 7)), Some(shot())];
    let mut board = BoardSize { size: 800 };
    let mut game = running();
    for _ in 0..10 {
        resolve_collision(
            &mut entities,
            &mut board,
            &mut game,
            CollisionEvent { a: BodyRef::Entity(0), b: BodyRef::Entity(1) },
        );
    }
    assert!(entities[0].is_none(), "the tower is despawned at health zero");
    assert_eq!(board.size, 807, "the field clock's elapsed time is paid back");
    assert_eq!(game.state, GameState::Running);
}

#[test]
fn player_contact_with_asteroid_raises_died() {
    let mut entities = vec![Some(asteroid(3))];
    let mut board = BoardSize { size: 800 };
    let mut game = running();
    resolve_collision(
        &mut entities,
        &mut board,
        &mut game,
        CollisionEvent { a: BodyRef::Player, b: BodyRef::Entity(0) },
    );
    assert_eq!(game.state, GameState::Died);
    // No combat processing for the pair: the asteroid is untouched.
    assert_eq!(entities[0], Some(asteroid(3)));
    assert_eq!(board.size, 800);
}

#[test]
fn player_contact_with_projectile_raises_died() {
    let mut entities = vec![Some(projectile())];
    let mut board = BoardSize { size: 800 };
    let mut game = running();
    resolve_collision(
        &mut entities,
        &mut board,
        &mut game,
        CollisionEvent { a: BodyRef::Entity(0), b: BodyRef::Player },
    );
    assert_eq!(game.state, GameState::Died);
}

#[test]
fn player_contact_outside_running_changes_nothing() {
    // The loss condition is entered from the running state only: a won, lost
    // or title-screen game keeps its state on player contact.
    for state in [GameState::Won, GameState::Died, GameState::TitleScreen] {
        let mut entities = vec![Some(asteroid(3))];
        let mut board = BoardSize { size: 800 };
        let mut game = CurrentGame { state };
        resolve_collision(
            &mut entities,
            &mut board,
            &mut game,
            CollisionEvent { a: BodyRef::Player, b: BodyRef::Entity(0) },
        );
        assert_eq!(game.state, state);
        assert_eq!(entities[0], Some(asteroid(3)));
        assert_eq!(board.size, 800);
    }
}

#[test]
fn no_friendly_fire_between_hostiles() {
    let mut entities = vec![Some(asteroid(3)), Some(tower(10, 0))];
    let mut board = BoardSize { size: 800 };
    let mut game = running();
    resolve_collision(
        &mut entities,
        &mut board,
        &mut game,
        CollisionEvent { a: BodyRef::Entity(0), b: BodyRef::Entity(1) },
    );
    assert_eq!(entities[0], Some(asteroid(3)));
    assert_eq!(entities[1], Some(tower(10, 0)));
    assert_eq!(game.state, GameState::Running);
}

#[test]
fn projectile_counts_as_hostile_for_friendly_fire() {
    let mut entities = vec![Some(projectile()), Some(asteroid(3))];
    let mut board = BoardSize { size: 800 };
    let mut game = running();
    resolve_collision(
        &mut entities,
        &mut board,
        &mut game,
        CollisionEvent { a: BodyRef::Entity(1), b: BodyRef::Entity(0) },
    );
    assert_eq!(entities[1], Some(asteroid(3)), "no damage from a hostile projectile");
    assert_eq!(entities[0], Some(projectile()));
}

#[test]
fn stale_references_are_silent_noops() {
    let mut entities = vec![None, Some(asteroid(3))];
    let mut board = BoardSize { size: 800 };
    let mut game = running();
    // A pair of stale or empty handles changes nothing.
    resolve_collision(
        &mut entities,
        &mut board,
        &mut game,
        CollisionEvent { a: BodyRef::Entity(0), b: BodyRef::Entity(99) },
    );
    assert_eq!(entities, vec![None, Some(asteroid(3))]);
    assert_eq!(game.state, GameState::Running);
    // Player against a stale handle: no loss either.
    resolve_collision(
        &mut entities,
        &mut board,
        &mut game,
        CollisionEvent { a: BodyRef::Player, b: BodyRef::Entity(0) },
    );
    assert_eq!(game.state, GameState::Running);
}

#[test]
fn events_drain_in_order_against_intermediate_state() {
    // The first event kills the asteroid (health one); the second references
    // the now-despawned slot and must no-op instead of erroring.
    let mut entities = vec![Some(asteroid(1)), Some(shot()), Some(shot())];
    let mut board = BoardSize { size: 800 };
    let mut game = running();
    let events = vec![
        CollisionEvent { a: BodyRef::Entity(0), b: BodyRef::Entity(1) },
        CollisionEvent { a: BodyRef::Entity(0), b: BodyRef::Entity(2) },
    ];
    check_shooted(&mut entities, &mut board, &mut game, &events);
    assert!(entities[0].is_none());
    assert!(entities[1].is_none());
    // The second event found no live hostile on either side: its shot stays.
    assert_eq!(entities[2], Some(shot()));
}
