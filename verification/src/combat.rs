//! The combat resolver: consumes collision-pair events from the external
//! physics collaborator, one at a time, applying damage, despawns, the
//! kill bonus to the world extent, and the loss transition on player contact.
//! Stale references to entities despawned earlier in the same tick are silent
//! no-ops.

use vstd::prelude::*;

verus! {

use vstd::pervasive::arbitrary;
use crate::entity::{arena_wf, despawn, EnemyHelth, Entity, Hostile};
use crate::state::{BoardSize, CurrentGame, GameState};
use crate::timer::FIELD_TIMER_CAP;

/// One side of a collision-pair event: the player, or an arena handle.
#[derive(Clone, Copy, PartialEq, Eq, Structural, Debug)]
pub enum BodyRef {
    Player,
    Entity(usize),
}

/// A collision-pair event as the physics collaborator delivers it.
#[derive(Clone, Copy, PartialEq, Eq, Structural, Debug)]
pub struct CollisionEvent {
    pub a: BodyRef,
    pub b: BodyRef,
}

/// The referenced body is hostile to the player: a live hostile entity or a
/// live hostile-fired projectile.
pub open spec fn hostile_marked(s: Seq<Option<Entity>>, r: BodyRef) -> bool {
    match r {
        BodyRef::Entity(i) => i < s.len() && (s[i as int] matches Some(Entity::Hostile(_))
            || s[i as int] matches Some(Entity::Projectile(_))),
        BodyRef::Player => false,
    }
}

/// One side is the player and the other is hostile to it: the loss condition.
pub open spec fn player_contact(s: Seq<Option<Entity>>, a: BodyRef, b: BodyRef) -> bool {
    ||| (a is Player && hostile_marked(s, b))
    ||| (b is Player && hostile_marked(s, a))
}

/// The referenced body is a live hostile entity (one that carries health).
pub open spec fn live_hostile_at(s: Seq<Option<Entity>>, r: BodyRef) -> bool {
    match r {
        BodyRef::Entity(i) => i < s.len() && s[i as int] matches Some(Entity::Hostile(_)),
        BodyRef::Player => false,
    }
}

/// The arena index a body reference points at.
pub open spec fn body_index(r: BodyRef) -> int {
    match r {
        BodyRef::Entity(i) => i as int,
        BodyRef::Player => -1,
    }
}

/// The hostile a body reference points at (meaningful under
/// `live_hostile_at`).
pub open spec fn hostile_at(s: Seq<Option<Entity>>, r: BodyRef) -> Hostile {
    match r {
        BodyRef::Entity(i) => match s[i as int] {
            Some(Entity::Hostile(h)) => h,
            _ => arbitrary(),
        },
        BodyRef::Player => arbitrary(),
    }
}

/// The arena with the referenced body despawned; the player or a stale handle
/// leaves it untouched.
pub open spec fn despawned(s: Seq<Option<Entity>>, r: BodyRef) -> Seq<Option<Entity>> {
    match r {
        BodyRef::Entity(j) => if j < s.len() {
            s.update(j as int, None)
        } else {
            s
        },
        BodyRef::Player => s,
    }
}

/// The kill bonus a hostile pays back to the extent: its field-occupation
/// clock's elapsed time, if it owns one.
pub open spec fn field_bonus(h: Hostile) -> int {
    match h.field {
        Some(f) => f.elapsed as int,
        None => 0,
    }
}

/// One damage application: the hostile at `i` loses one health; if that
/// exhausts it, the hostile is despawned and its field bonus is added to the
/// extent. The other body is despawned unconditionally either way.
pub open spec fn damage_result(
    s: Seq<Option<Entity>>,
    board: int,
    i: int,
    h: Hostile,
    other: BodyRef,
) -> (Seq<Option<Entity>>, int) {
    if h.health.health == 1 {
        (despawned(s.update(i, None), other), board + field_bonus(h))
    } else {
        (
            despawned(
                s.update(
                    i,
                    Some(
                        Entity::Hostile(
                            Hostile {
                                kind: h.kind,
                                pos: h.pos,
                                vel: h.vel,
                                health: EnemyHelth { health: (h.health.health - 1) as u32 },
                                field: h.field,
                                fire: h.fire,
                            },
                        ),
                    ),
                ),
                other,
            ),
            board,
        )
    }
}

/// How one collision-pair event resolves: player contact raises the loss
/// condition — entered from the running state only, so neither a won nor an
/// already lost game is re-lost — and nothing else; two hostile-marked bodies
/// are ignored (no friendly fire); otherwise a live hostile takes one damage
/// and the other body — a shot, or a stale handle — is despawned
/// unconditionally; any other pair, including pairs of stale handles, is a
/// no-op.
pub open spec fn resolve_spec(
    s: Seq<Option<Entity>>,
    board: int,
    state: GameState,
    a: BodyRef,
    b: BodyRef,
) -> (Seq<Option<Entity>>, int, GameState) {
    if player_contact(s, a, b) {
        (
            s,
            board,
            if state is Running {
                GameState::Died
            } else {
                state
            },
        )
    } else if hostile_marked(s, a) && hostile_marked(s, b) {
        (s, board, state)
    } else if live_hostile_at(s, a) {
        let r = damage_result(s, board, body_index(a), hostile_at(s, a), b);
        (r.0, r.1, state)
    } else if live_hostile_at(s, b) {
        let r = damage_result(s, board, body_index(b), hostile_at(s, b), a);
        (r.0, r.1, state)
    } else {
        (s, board, state)
    }
}

/// The whole event drain: events resolve one at a time, in order, each
/// against the arena, extent and state the previous events left.
pub open spec fn drain_spec(
    s: Seq<Option<Entity>>,
    board: int,
    state: GameState,
    events: Seq<CollisionEvent>,
) -> (Seq<Option<Entity>>, int, GameState)
    decreases events.len(),
{
    if events.len() == 0 {
        (s, board, state)
    } else {
        let prev = drain_spec(s, board, state, events.drop_last());
        resolve_spec(prev.0, prev.1, prev.2, events.last().a, events.last().b)
    }
}

/// Draining events either leaves the state alone or — from the running state
/// only — raises the loss condition; no event drain can leave any other
/// state, and a won, lost or title-screen game keeps its state through any
/// drain.
pub proof fn lemma_drain_state(
    s: Seq<Option<Entity>>,
    board: int,
    state: GameState,
    events: Seq<CollisionEvent>,
)
    ensures
        drain_spec(s, board, state, events).2 == state || (state is Running && drain_spec(
            s,
            board,
            state,
            events,
        ).2 == GameState::Died),
    decreases events.len(),
{
    if events.len() > 0 {
        lemma_drain_state(s, board, state, events.drop_last());
    }
}

/// Whether the referenced body is hostile to the player right now.
fn is_hostile_marked(entities: &Vec<Option<Entity>>, r: BodyRef) -> (res: bool)
    ensures
        res == hostile_marked(entities@, r),
{
    match r {
        BodyRef::Player => false,
        BodyRef::Entity(i) => i < entities.len() && match entities[i] {
            Some(Entity::Hostile(_)) => true,
            Some(Entity::Projectile(_)) => true,
            _ => false,
        },
    }
}

/// Resolve one collision-pair event, exactly as `resolve_spec` says.
pub fn resolve_collision(
    entities: &mut Vec<Option<Entity>>,
    board_size: &mut BoardSize,
    game: &mut CurrentGame,
    event: CollisionEvent,
)
    requires
        arena_wf(old(entities)@),
        old(board_size).size + FIELD_TIMER_CAP <= i64::MAX,
    ensures
        arena_wf(final(entities)@),
        final(entities)@.len() == old(entities)@.len(),
        old(board_size).size <= final(board_size).size <= old(board_size).size + FIELD_TIMER_CAP,
        (final(entities)@, final(board_size).size as int, final(game).state) == resolve_spec(
            old(entities)@,
            old(board_size).size as int,
            old(game).state,
            event.a,
            event.b,
        ),
{
    let a = event.a;
    let b = event.b;
    let a_marked = is_hostile_marked(entities, a);
    let b_marked = is_hostile_marked(entities, b);
    let a_is_player = match a {
        BodyRef::Player => true,
        _ => false,
    };
    let b_is_player = match b {
        BodyRef::Player => true,
        _ => false,
    };
    if (a_is_player && b_marked) || (b_is_player && a_marked) {
        if game.state == GameState::Running {
            game.state = GameState::Died;
        }
        return ;
    }
    if a_marked && b_marked {
        return ;
    }
    if let BodyRef::Entity(i) = a {
        if i < entities.len() {
            if let Some(Entity::Hostile(h)) = entities[i] {
                damage_hostile(entities, board_size, i, &h, b);
                return ;
            }
        }
    }
    if let BodyRef::Entity(j) = b {
        if j < entities.len() {
            if let Some(Entity::Hostile(h)) = entities[j] {
                damage_hostile(entities, board_size, j, &h, a);
                return ;
            }
        }
    }
}

/// Apply one point of damage to the live hostile at `i` and despawn the other
/// body unconditionally, as `damage_result` says.
fn damage_hostile(
    entities: &mut Vec<Option<Entity>>,
    board_size: &mut BoardSize,
    i: usize,
    h: &Hostile,
    other: BodyRef,
)
    requires
        arena_wf(old(entities)@),
        i < old(entities)@.len(),
        old(entities)@[i as int] == Some(Entity::Hostile(*h)),
        old(board_size).size + FIELD_TIMER_CAP <= i64::MAX,
    ensures
        arena_wf(final(entities)@),
        final(entities)@.len() == old(entities)@.len(),
        old(board_size).size <= final(board_size).size <= old(board_size).size + FIELD_TIMER_CAP,
        (final(entities)@, final(board_size).size as int) == damage_result(
            old(entities)@,
            old(board_size).size as int,
            i as int,
            *h,
            other,
        ),
{
    proof {
        assert(crate::entity::slot_wf(old(entities)@[i as int]));
    }
    if h.health.health == 1 {
        if let Some(f) = h.field {
            board_size.size = board_size.size + f.elapsed;
        }
        entities.set(i, None);
    } else {
        entities.set(
            i,
            Some(
                Entity::Hostile(
                    Hostile {
                        kind: h.kind,
                        pos: h.pos,
                        vel: h.vel,
                        health: EnemyHelth { health: h.health.health - 1 },
                        field: h.field,
                        fire: h.fire,
                    },
                ),
            ),
        );
    }
    match other {
        BodyRef::Entity(j) => despawn(entities, j),
        BodyRef::Player => {},
    }
}

/// Drain one tick's collision-pair events, resolving each in order against
/// the arena, extent and state the previous events left.
pub fn check_shooted(
    entities: &mut Vec<Option<Entity>>,
    board_size: &mut BoardSize,
    game: &mut CurrentGame,
    collisions: &Vec<CollisionEvent>,
)
    requires
        arena_wf(old(entities)@),
        old(board_size).size + FIELD_TIMER_CAP * collisions@.len() <= i64::MAX,
    ensures
        arena_wf(final(entities)@),
        final(entities)@.len() == old(entities)@.len(),
        old(board_size).size <= final(board_size).size <= old(board_size).size + FIELD_TIMER_CAP
            * collisions@.len(),
        (final(entities)@, final(board_size).size as int, final(game).state) == drain_spec(
            old(entities)@,
            old(board_size).size as int,
            old(game).state,
            collisions@,
        ),
{
    let ghost s0 = entities@;
    let ghost b0 = board_size.size as int;
    let ghost st0 = game.state;
    let n = collisions.len();
    let mut k: usize = 0;
    while k < n
        invariant
            arena_wf(entities@),
            entities@.len() == s0.len(),
            s0 == old(entities)@,
            b0 == old(board_size).size as int,
            st0 == old(game).state,
            n == collisions@.len(),
            k <= n,
            b0 + FIELD_TIMER_CAP * n <= i64::MAX,
            b0 <= board_size.size <= b0 + FIELD_TIMER_CAP * k,
            (entities@, board_size.size as int, game.state) == drain_spec(
                s0,
                b0,
                st0,
                collisions@.subrange(0, k as int),
            ),
        decreases n - k,
    {
        let ghost prefix = collisions@.subrange(0, k as int);
        let ev = collisions[k];
        proof {
            assert(FIELD_TIMER_CAP * k <= FIELD_TIMER_CAP * (n - 1)) by (nonlinear_arith)
                requires
                    k <= n - 1,
                    FIELD_TIMER_CAP > 0,
            ;
            assert(FIELD_TIMER_CAP * (n - 1) + FIELD_TIMER_CAP == FIELD_TIMER_CAP * n)
                by (nonlinear_arith);
        }
        resolve_collision(entities, board_size, game, ev);
        proof {
            assert(collisions@.subrange(0, k + 1).drop_last() =~= prefix);
            assert(collisions@.subrange(0, k + 1).last() == collisions@[k as int]);
            assert(FIELD_TIMER_CAP * (k + 1) == FIELD_TIMER_CAP * k + FIELD_TIMER_CAP)
                by (nonlinear_arith);
        }
        k = k + 1;
    }
    proof {
        assert(collisions@.subrange(0, n as int) =~= collisions@);
    }
}

} // verus!
