//! Spawn-queue advancement and materialization: every pending request is
//! advanced each tick, and each queue materializes at most one expired entry
//! per tick — the first one found — leaving any other simultaneously expired
//! entries for a later tick.

use vstd::prelude::*;

verus! {

use crate::entity::{
    arena_spawned,
    arena_wf,
    occupied,
    spawn,
    DropAfter,
    EnemyHelth,
    Entity,
    Hostile,
    HostileKind,
    Projectile,
    Shot,
    Velocity,
};
use crate::rng::rand_range;
use crate::space::Position;
use crate::timer::{OneShot, TowerField};
use crate::waves::{AsteroidQueue, TowerQueue, TowerTimer};

/// A freshly materialized asteroid's position, on each axis.
pub const ASTEROID_SPAWN_COORD: i64 = 10;

/// A freshly materialized asteroid's initial velocity.
pub const ASTEROID_VEL_X: i64 = 50;

/// A freshly materialized asteroid's initial velocity.
pub const ASTEROID_VEL_Y: i64 = 80;

/// The health an asteroid materializes with.
pub const ASTEROID_HEALTH: u32 = 3;

/// The health a tower materializes with.
pub const TOWER_HEALTH: u32 = 10;

/// The hostile entity a materialized asteroid spawn request produces.
pub open spec fn asteroid_entity() -> Entity {
    Entity::Hostile(
        Hostile {
            kind: HostileKind::Asteroid,
            pos: Position { x: ASTEROID_SPAWN_COORD, y: ASTEROID_SPAWN_COORD },
            vel: Velocity { x: ASTEROID_VEL_X, y: ASTEROID_VEL_Y },
            health: EnemyHelth { health: ASTEROID_HEALTH },
            field: None,
            fire: None,
        },
    )
}

/// The hostile entity a materialized tower spawn request produces: full tower
/// health, a field-occupation clock starting at zero, and the request's
/// projectile-fire interval, standing still at the request's position.
pub open spec fn tower_entity(entry: TowerTimer) -> Entity {
    Entity::Hostile(
        Hostile {
            kind: HostileKind::Tower,
            pos: Position { x: entry.xpos, y: entry.ypos },
            vel: Velocity { x: 0, y: 0 },
            health: EnemyHelth { health: TOWER_HEALTH },
            field: Some(TowerField { elapsed: 0 }),
            fire: Some(entry.projectile_timer),
        },
    )
}

/// A sequence with the element at `i` swapped out for the last element, as
/// `Vec::swap_remove` leaves it.
pub open spec fn swap_removed<T>(s: Seq<T>, i: int) -> Seq<T> {
    s.update(i, s.last()).drop_last()
}

/// Request `i` is the first expired request of the advanced asteroid queue.
pub open spec fn materialized_from(adv: Seq<OneShot>, i: int) -> bool {
    &&& 0 <= i < adv.len()
    &&& adv[i].remaining == 0
    &&& forall|j: int| 0 <= j < i ==> (#[trigger] adv[j]).remaining > 0
}

/// Request `i` is the first expired request of the advanced tower queue.
pub open spec fn tower_materialized_from(adv: Seq<TowerTimer>, i: int) -> bool {
    &&& 0 <= i < adv.len()
    &&& adv[i].timer.remaining == 0
    &&& forall|j: int| 0 <= j < i ==> (#[trigger] adv[j]).timer.remaining > 0
}

/// Every pending asteroid request advanced by one tick's delta.
pub open spec fn requests_advanced(q: Seq<OneShot>, delta: int) -> Seq<OneShot> {
    q.map_values(|t: OneShot| t.spec_advanced(delta))
}

/// Every pending tower request's arm timer advanced by one tick's delta; the
/// factory timer and the rest of the request are untouched here.
pub open spec fn tower_arms_advanced(q: Seq<TowerTimer>, delta: int) -> Seq<TowerTimer> {
    q.map_values(
        |t: TowerTimer| TowerTimer {
            timer: t.timer.spec_advanced(delta),
            factory_timer: t.factory_timer,
            projectile_timer: t.projectile_timer,
            xpos: t.xpos,
            ypos: t.ypos,
        },
    )
}

/// Materialize a single asteroid into the arena.
pub fn spawn_one_asteroid(entities: &mut Vec<Option<Entity>>) -> (idx: usize)
    requires
        old(entities).len() < usize::MAX,
    ensures
        arena_spawned(old(entities)@, final(entities)@, asteroid_entity(), idx as int),
{
    spawn(
        entities,
        Entity::Hostile(
            Hostile {
                kind: HostileKind::Asteroid,
                pos: Position { x: ASTEROID_SPAWN_COORD, y: ASTEROID_SPAWN_COORD },
                vel: Velocity { x: ASTEROID_VEL_X, y: ASTEROID_VEL_Y },
                health: EnemyHelth { health: ASTEROID_HEALTH },
                field: None,
                fire: None,
            },
        ),
    )
}

/// Materialize a single tower into the arena from its spawn request.
pub fn spawn_one_doubler(entities: &mut Vec<Option<Entity>>, entry: &TowerTimer) -> (idx: usize)
    requires
        old(entities).len() < usize::MAX,
    ensures
        arena_spawned(old(entities)@, final(entities)@, tower_entity(*entry), idx as int),
{
    spawn(
        entities,
        Entity::Hostile(
            Hostile {
                kind: HostileKind::Tower,
                pos: Position { x: entry.xpos, y: entry.ypos },
                vel: Velocity { x: 0, y: 0 },
                health: EnemyHelth { health: TOWER_HEALTH },
                field: Some(TowerField { elapsed: 0 }),
                fire: Some(entry.projectile_timer),
            },
        ),
    )
}

/// One tick of the asteroid spawn queue: advance every pending request by the
/// frame delta, then materialize at most one expired request — the first one
/// found — removing it from the queue by a swap with the last entry. Returns
/// the arena handle of the materialized asteroid, if any.
pub fn update_spawn_queue(
    as_que: &mut AsteroidQueue,
    entities: &mut Vec<Option<Entity>>,
    delta: i64,
) -> (spawned: Option<usize>)
    requires
        delta >= 0,
        old(as_que).wf(),
        arena_wf(old(entities)@),
        old(entities).len() < usize::MAX,
    ensures
        final(as_que).wf(),
        arena_wf(final(entities)@),
        old(entities)@.len() <= final(entities)@.len() <= old(entities)@.len() + 1,
        spawned is Some <==> exists|i: int|
            0 <= i < old(as_que).queue.len() && (#[trigger] requests_advanced(
                old(as_que).queue@,
                delta as int,
            )[i]).remaining == 0,
        spawned is None ==> final(as_que).queue@ == requests_advanced(
            old(as_que).queue@,
            delta as int,
        ) && final(entities)@ == old(entities)@,
        spawned matches Some(h) ==> exists|i: int|
            {
                &&& #[trigger] materialized_from(
                    requests_advanced(old(as_que).queue@, delta as int),
                    i,
                )
                &&& final(as_que).queue@ == swap_removed(
                    requests_advanced(old(as_que).queue@, delta as int),
                    i,
                )
                &&& arena_spawned(old(entities)@, final(entities)@, asteroid_entity(), h as int)
            },
        final(as_que).queue@.len() == old(as_que).queue@.len() - (if spawned is Some {
            1int
        } else {
            0int
        }),
{
    let ghost orig = as_que.queue@;
    let ghost adv = requests_advanced(orig, delta as int);
    let n = as_que.queue.len();
    let mut i: usize = 0;
    while i < n
        invariant
            orig == old(as_que).queue@,
            adv == requests_advanced(orig, delta as int),
            old(as_que).wf(),
            n == orig.len(),
            as_que.queue@.len() == n,
            i <= n,
            delta >= 0,
            forall|j: int| 0 <= j < i ==> as_que.queue@[j] == adv[j],
            forall|j: int| i <= j < n ==> as_que.queue@[j] == orig[j],
        decreases n - i,
    {
        let mut t = as_que.queue[i];
        proof {
            assert(old(as_que).queue@[i as int].wf());
        }
        t.tick(delta);
        as_que.queue.set(i, t);
        i = i + 1;
    }
    proof {
        assert(as_que.queue@ =~= adv);
        assert forall|j: int| 0 <= j < adv.len() implies (#[trigger] adv[j]).wf() by {
            assert(orig[j].wf());
        }
    }
    let mut k: usize = 0;
    while k < n
        invariant
            orig == old(as_que).queue@,
            adv == requests_advanced(orig, delta as int),
            n == adv.len(),
            as_que.queue@ == adv,
            k <= n,
            forall|j: int| 0 <= j < adv.len() ==> (#[trigger] adv[j]).wf(),
            old(entities).len() < usize::MAX,
            arena_wf(old(entities)@),
            entities@ == old(entities)@,
            forall|j: int| 0 <= j < k ==> adv[j].remaining > 0,
        decreases n - k,
    {
        if as_que.queue[k].remaining == 0 {
            proof {
                assert(materialized_from(adv, k as int));
                assert(requests_advanced(old(as_que).queue@, delta as int)[k as int].remaining
                    == 0);
            }
            as_que.queue.swap_remove(k);
            let ghost pre_arena = entities@;
            let h = spawn_one_asteroid(entities);
            proof {
                assert(asteroid_entity().wf());
                crate::entity::lemma_arena_spawned_wf(
                    pre_arena,
                    entities@,
                    asteroid_entity(),
                    h as int,
                );
                assert(as_que.queue@ == swap_removed(adv, k as int));
                assert forall|j: int|
                    0 <= j < as_que.queue@.len() implies (#[trigger] as_que.queue@[j]).wf() by {
                    if j == k && k < adv.len() - 1 {
                        assert(as_que.queue@[j] == adv[adv.len() - 1]);
                    } else {
                        assert(as_que.queue@[j] == adv[j]);
                    }
                }
            }
            return Some(h);
        }
        k = k + 1;
    }
    None
}

/// One tick of the tower spawn queue: advance every pending request's arm
/// timer by the frame delta, then materialize at most one expired request —
/// the first one found — removing it by a swap with the last entry. Returns
/// the arena handle of the materialized tower, if any.
pub fn spawn_after_finished_queue(
    tower_queue: &mut TowerQueue,
    entities: &mut Vec<Option<Entity>>,
    delta: i64,
) -> (spawned: Option<usize>)
    requires
        delta >= 0,
        old(tower_queue).wf(),
        arena_wf(old(entities)@),
        old(entities).len() < usize::MAX,
    ensures
        final(tower_queue).wf(),
        arena_wf(final(entities)@),
        old(entities)@.len() <= final(entities)@.len() <= old(entities)@.len() + 1,
        spawned is Some <==> exists|i: int|
            0 <= i < old(tower_queue).queue.len() && (#[trigger] tower_arms_advanced(
                old(tower_queue).queue@,
                delta as int,
            )[i]).timer.remaining == 0,
        spawned is None ==> final(tower_queue).queue@ == tower_arms_advanced(
            old(tower_queue).queue@,
            delta as int,
        ) && final(entities)@ == old(entities)@,
        spawned matches Some(h) ==> exists|i: int|
            {
                &&& #[trigger] tower_materialized_from(
                    tower_arms_advanced(old(tower_queue).queue@, delta as int),
                    i,
                )
                &&& final(tower_queue).queue@ == swap_removed(
                    tower_arms_advanced(old(tower_queue).queue@, delta as int),
                    i,
                )
                &&& arena_spawned(
                    old(entities)@,
                    final(entities)@,
                    tower_entity(tower_arms_advanced(old(tower_queue).queue@, delta as int)[i]),
                    h as int,
                )
            },
        final(tower_queue).queue@.len() == old(tower_queue).queue@.len() - (if spawned is Some {
            1int
        } else {
            0int
        }),
{
    let ghost orig = tower_queue.queue@;
    let ghost adv = tower_arms_advanced(orig, delta as int);
    let n = tower_queue.queue.len();
    let mut i: usize = 0;
    while i < n
        invariant
            orig == old(tower_queue).queue@,
            adv == tower_arms_advanced(orig, delta as int),
            old(tower_queue).wf(),
            n == orig.len(),
            tower_queue.queue@.len() == n,
            i <= n,
            delta >= 0,
            forall|j: int| 0 <= j < i ==> tower_queue.queue@[j] == adv[j],
            forall|j: int| i <= j < n ==> tower_queue.queue@[j] == orig[j],
        decreases n - i,
    {
        let mut t = tower_queue.queue[i];
        proof {
            assert(old(tower_queue).queue@[i as int].wf());
        }
        t.timer.tick(delta);
        tower_queue.queue.set(i, t);
        i = i + 1;
    }
    proof {
        assert(tower_queue.queue@ =~= adv);
        assert forall|j: int| 0 <= j < adv.len() implies (#[trigger] adv[j]).wf() by {
            assert(orig[j].wf());
        }
    }
    let mut k: usize = 0;
    while k < n
        invariant
            orig == old(tower_queue).queue@,
            adv == tower_arms_advanced(orig, delta as int),
            n == adv.len(),
            tower_queue.queue@ == adv,
            k <= n,
            forall|j: int| 0 <= j < adv.len() ==> (#[trigger] adv[j]).wf(),
            old(entities).len() < usize::MAX,
            arena_wf(old(entities)@),
            entities@ == old(entities)@,
            forall|j: int| 0 <= j < k ==> adv[j].timer.remaining > 0,
        decreases n - k,
    {
        if tower_queue.queue[k].timer.remaining == 0 {
            proof {
                assert(tower_materialized_from(adv, k as int));
                assert(tower_arms_advanced(old(tower_queue).queue@, delta as int)[
                    k as int].timer.remaining == 0);
            }
            let entry = tower_queue.queue.swap_remove(k);
            let ghost pre_arena = entities@;
            let h = spawn_one_doubler(entities, &entry);
            proof {
                assert(entry.wf());
                assert(tower_entity(entry).wf());
                crate::entity::lemma_arena_spawned_wf(
                    pre_arena,
                    entities@,
                    tower_entity(entry),
                    h as int,
                );
                assert(tower_queue.queue@ == swap_removed(adv, k as int));
                assert forall|j: int|
                    0 <= j < tower_queue.queue@.len() implies (
                    #[trigger] tower_queue.queue@[j]).wf() by {
                    if j == k && k < adv.len() - 1 {
                        assert(tower_queue.queue@[j] == adv[adv.len() - 1]);
                    } else {
                        assert(tower_queue.queue@[j] == adv[j]);
                    }
                }
            }
            return Some(h);
        }
        k = k + 1;
    }
    None
}

/// A live tower's projectile speed, applied per axis of the drawn heading.
pub const PROJECTILE_SPEED: i64 = 300;

/// A freshly fired projectile's time-to-live.
pub const PROJECTILE_TTL: i64 = 2;

/// A player shot's time-to-live.
pub const SHOT_TTL: i64 = 1;

/// The headings a projectile can leave a tower with: each axis is drawn from
/// the unit step down or standstill, and a standstill on both axes is fixed
/// up to a step along the first axis.
pub open spec fn projectile_velocity_ok(v: Velocity) -> bool {
    ||| (v.x == -PROJECTILE_SPEED && (v.y == -PROJECTILE_SPEED || v.y == 0))
    ||| (v.x == 0 && v.y == -PROJECTILE_SPEED)
    ||| (v.x == PROJECTILE_SPEED && v.y == 0)
}

/// Draw a projectile heading at random. Every outcome satisfies
/// `projectile_velocity_ok`; nothing more is promised of the draw.
pub fn projectile_velocity() -> (v: Velocity)
    ensures
        projectile_velocity_ok(v),
{
    let mut xv = rand_range(-1, 1);
    let yv = rand_range(-1, 1);
    if xv == 0 && yv == 0 {
        xv = 1;
    }
    Velocity { x: xv * PROJECTILE_SPEED, y: yv * PROJECTILE_SPEED }
}

/// Every pending tower request's factory timer advanced by one tick's delta.
pub open spec fn factories_advanced(q: Seq<TowerTimer>, delta: int) -> Seq<TowerTimer> {
    q.map_values(
        |t: TowerTimer| TowerTimer {
            timer: t.timer,
            factory_timer: t.factory_timer.spec_advanced(delta),
            projectile_timer: t.projectile_timer,
            xpos: t.xpos,
            ypos: t.ypos,
        },
    )
}

/// The positions of the pending tower requests whose factory timers fire this
/// tick, in queue order: the armed-flicker feedback handed to the render
/// collaborator.
pub open spec fn armed_positions(q: Seq<TowerTimer>, delta: int) -> Seq<Position>
    decreases q.len(),
{
    if q.len() == 0 {
        Seq::empty()
    } else {
        let rest = armed_positions(q.drop_last(), delta);
        if q.last().factory_timer.spec_fires(delta) {
            rest.push(Position { x: q.last().xpos, y: q.last().ypos })
        } else {
            rest
        }
    }
}

/// Advance every pending tower request's factory timer; each request whose
/// factory delay elapses — at most once per request — reports its position as
/// armed-flicker feedback for the render collaborator.
pub fn spawn_and_destroy_factories(tower_queue: &mut TowerQueue, delta: i64) -> (armed: Vec<
    Position,
>)
    requires
        delta >= 0,
        old(tower_queue).wf(),
    ensures
        final(tower_queue).wf(),
        final(tower_queue).queue@ == factories_advanced(old(tower_queue).queue@, delta as int),
        armed@ == armed_positions(old(tower_queue).queue@, delta as int),
{
    let ghost orig = tower_queue.queue@;
    let ghost adv = factories_advanced(orig, delta as int);
    let n = tower_queue.queue.len();
    let mut armed: Vec<Position> = Vec::new();
    let mut i: usize = 0;
    while i < n
        invariant
            orig == old(tower_queue).queue@,
            adv == factories_advanced(orig, delta as int),
            old(tower_queue).wf(),
            n == orig.len(),
            tower_queue.queue@.len() == n,
            i <= n,
            delta >= 0,
            forall|j: int| 0 <= j < i ==> tower_queue.queue@[j] == adv[j],
            forall|j: int| i <= j < n ==> tower_queue.queue@[j] == orig[j],
            armed@ == armed_positions(orig.subrange(0, i as int), delta as int),
        decreases n - i,
    {
        let ghost prefix = orig.subrange(0, i as int);
        let mut t = tower_queue.queue[i];
        proof {
            assert(old(tower_queue).queue@[i as int].wf());
        }
        let fired = t.factory_timer.tick(delta);
        tower_queue.queue.set(i, t);
        if fired {
            armed.push(Position { x: t.xpos, y: t.ypos });
        }
        proof {
            assert(orig.subrange(0, i + 1).drop_last() =~= prefix);
            assert(orig.subrange(0, i + 1).last() == orig[i as int]);
        }
        i = i + 1;
    }
    proof {
        assert(orig.subrange(0, n as int) =~= orig);
        assert(tower_queue.queue@ =~= adv);
        assert forall|j: int| 0 <= j < adv.len() implies (#[trigger] adv[j]).wf() by {
            assert(orig[j].wf());
        }
    }
    armed
}

/// One arena slot after the fire pass: a hostile's projectile-fire interval
/// is advanced; everything else is untouched.
pub open spec fn fire_advanced_slot(s: Option<Entity>, delta: int) -> Option<Entity> {
    match s {
        Some(Entity::Hostile(h)) => match h.fire {
            Some(t) => Some(
                Entity::Hostile(
                    Hostile {
                        kind: h.kind,
                        pos: h.pos,
                        vel: h.vel,
                        health: h.health,
                        field: h.field,
                        fire: Some(t.spec_advanced(delta)),
                    },
                ),
            ),
            None => s,
        },
        _ => s,
    }
}

/// The positions of the live hostiles whose projectile-fire intervals fire
/// this tick, in arena order.
pub open spec fn fired_positions(s: Seq<Option<Entity>>, delta: int) -> Seq<Position>
    decreases s.len(),
{
    if s.len() == 0 {
        Seq::empty()
    } else {
        let rest = fired_positions(s.drop_last(), delta);
        if s.last() matches Some(Entity::Hostile(h)) && h.fire matches Some(t)
            && t.spec_fires(delta) {
            rest.push(s.last()->Some_0->Hostile_0.pos)
        } else {
            rest
        }
    }
}

/// Advance every live hostile's projectile-fire interval by one tick's delta;
/// report the positions of the hostiles whose interval fired, in arena order.
pub fn tick_fire_timers(entities: &mut Vec<Option<Entity>>, delta: i64) -> (firing: Vec<Position>)
    requires
        delta >= 0,
        arena_wf(old(entities)@),
    ensures
        arena_wf(final(entities)@),
        final(entities)@.len() == old(entities)@.len(),
        forall|i: int|
            0 <= i < old(entities)@.len() ==> final(entities)@[i] == fire_advanced_slot(
                #[trigger] old(entities)@[i],
                delta as int,
            ),
        firing@ == fired_positions(old(entities)@, delta as int),
{
    let ghost orig = entities@;
    let n = entities.len();
    let mut firing: Vec<Position> = Vec::new();
    let mut i: usize = 0;
    while i < n
        invariant
            orig == old(entities)@,
            arena_wf(orig),
            n == orig.len(),
            entities@.len() == n,
            i <= n,
            delta >= 0,
            forall|j: int|
                0 <= j < i ==> entities@[j] == fire_advanced_slot(
                    #[trigger] orig[j],
                    delta as int,
                ),
            forall|j: int| i <= j < n ==> entities@[j] == orig[j],
            firing@ == fired_positions(orig.subrange(0, i as int), delta as int),
        decreases n - i,
    {
        let ghost prefix = orig.subrange(0, i as int);
        let slot = entities[i];
        proof {
            assert(crate::entity::slot_wf(orig[i as int]));
        }
        match slot {
            Some(Entity::Hostile(h)) => {
                match h.fire {
                    Some(t) => {
                        let mut t2 = t;
                        let fired = t2.tick(delta);
                        entities.set(
                            i,
                            Some(
                                Entity::Hostile(
                                    Hostile {
                                        kind: h.kind,
                                        pos: h.pos,
                                        vel: h.vel,
                                        health: h.health,
                                        field: h.field,
                                        fire: Some(t2),
                                    },
                                ),
                            ),
                        );
                        if fired {
                            firing.push(Position { x: h.pos.x, y: h.pos.y });
                        }
                    },
                    None => {},
                }
            },
            _ => {},
        }
        proof {
            assert(orig.subrange(0, i + 1).drop_last() =~= prefix);
            assert(orig.subrange(0, i + 1).last() == orig[i as int]);
        }
        i = i + 1;
    }
    proof {
        assert(orig.subrange(0, n as int) =~= orig);
        assert forall|j: int|
            0 <= j < entities@.len() implies crate::entity::slot_wf(#[trigger] entities@[j]) by {
            assert(crate::entity::slot_wf(orig[j]));
            assert(entities@[j] == fire_advanced_slot(orig[j], delta as int));
        }
    }
    firing
}

/// The firing positions of a well-formed arena: there are no more of them
/// than slots, and each lies within the stored-position bound.
pub proof fn lemma_fired_positions_wf(s: Seq<Option<Entity>>, delta: int)
    requires
        arena_wf(s),
    ensures
        fired_positions(s, delta).len() <= s.len(),
        forall|k: int|
            0 <= k < fired_positions(s, delta).len() ==> crate::entity::pos_wf(
                #[trigger] fired_positions(s, delta)[k],
            ),
    decreases s.len(),
{
    if s.len() > 0 {
        assert(arena_wf(s.drop_last())) by {
            assert(forall|i: int| 0 <= i < s.len() - 1 ==> s.drop_last()[i] == #[trigger] s[i]);
        }
        lemma_fired_positions_wf(s.drop_last(), delta);
        assert(crate::entity::slot_wf(s[s.len() - 1]));
    }
}

/// The slot holds exactly the projectile one firing position produces: that
/// position, a fresh time-to-live, and a drawn heading.
pub open spec fn is_projectile_for(slot: Option<Entity>, pos: Position) -> bool {
    slot matches Some(Entity::Projectile(p)) && p.pos == pos && p.drop.time == PROJECTILE_TTL
        && projectile_velocity_ok(p.vel)
}

/// Spawn one projectile per firing position, each with a fresh time-to-live
/// and a heading drawn at random. Returns the new projectiles' handles, one
/// per position in order: the handles are pairwise distinct, each names a
/// slot holding exactly that position's projectile, every slot that held an
/// entity is untouched, and the count of occupied slots grows by exactly the
/// number of firing positions.
pub fn spawn_projectiles_at(
    entities: &mut Vec<Option<Entity>>,
    positions: &Vec<Position>,
) -> (handles: Vec<usize>)
    requires
        arena_wf(old(entities)@),
        old(entities)@.len() + positions@.len() <= usize::MAX,
        forall|j: int|
            0 <= j < positions@.len() ==> crate::entity::pos_wf(#[trigger] positions@[j]),
    ensures
        arena_wf(final(entities)@),
        old(entities)@.len() <= final(entities)@.len() <= old(entities)@.len()
            + positions@.len(),
        occupied(final(entities)@) == occupied(old(entities)@) + positions@.len(),
        handles@.len() == positions@.len(),
        forall|j: int| 0 <= j < handles@.len() ==> #[trigger] handles@[j] < final(entities)@.len(),
        forall|j: int|
            0 <= j < handles@.len() ==> is_projectile_for(
                final(entities)@[#[trigger] handles@[j] as int],
                positions@[j],
            ),
        forall|j1: int, j2: int|
            0 <= j1 < j2 < handles@.len() ==> #[trigger] handles@[j1] != #[trigger] handles@[j2],
        forall|i: int|
            0 <= i < old(entities)@.len() && old(entities)@[i] is Some ==> final(entities)@[i]
                == #[trigger] old(entities)@[i],
{
    let ghost orig = entities@;
    let m = positions.len();
    let mut handles: Vec<usize> = Vec::new();
    let mut t: usize = 0;
    while t < m
        invariant
            orig == old(entities)@,
            arena_wf(orig),
            m == positions@.len(),
            orig.len() + m <= usize::MAX,
            forall|j: int|
                0 <= j < positions@.len() ==> crate::entity::pos_wf(#[trigger] positions@[j]),
            t <= m,
            arena_wf(entities@),
            orig.len() <= entities@.len() <= orig.len() + t,
            occupied(entities@) == occupied(orig) + t,
            handles@.len() == t,
            forall|j: int| 0 <= j < t ==> #[trigger] handles@[j] < entities@.len(),
            forall|j: int|
                0 <= j < t ==> is_projectile_for(
                    entities@[#[trigger] handles@[j] as int],
                    positions@[j],
                ),
            forall|j1: int, j2: int|
                0 <= j1 < j2 < t ==> #[trigger] handles@[j1] != #[trigger] handles@[j2],
            forall|i: int|
                0 <= i < orig.len() && orig[i] is Some ==> entities@[i] == #[trigger] orig[i],
        decreases m - t,
    {
        let pos = positions[t];
        let vel = projectile_velocity();
        let projectile = Entity::Projectile(
            Projectile { pos, vel, drop: DropAfter { time: PROJECTILE_TTL } },
        );
        let ghost pre = entities@;
        let k = spawn(entities, projectile);
        proof {
            assert(crate::entity::arena_spawned(pre, entities@, projectile, k as int));
            crate::entity::lemma_arena_spawned_wf(pre, entities@, projectile, k as int);
            crate::entity::lemma_occupied_spawned(pre, entities@, projectile, k as int);
            assert forall|j: int| 0 <= j < t implies entities@[#[trigger] handles@[j] as int]
                == pre[handles@[j] as int] && handles@[j] != k by {
                assert(is_projectile_for(pre[handles@[j] as int], positions@[j]));
                if (k as int) < pre.len() {
                    assert(pre[k as int] is None);
                }
            }
        }
        handles.push(k);
        t = t + 1;
    }
    handles
}

/// The factory warning window: the armed-flicker warning is shown while some
/// pending asteroid request is within this much of materializing.
pub const FACTORY_WARNING_WINDOW: i64 = 2;

/// Some pending asteroid request is close enough to materializing that the
/// factory warning flicker should run.
pub open spec fn warning_active(q: Seq<OneShot>) -> bool {
    exists|i: int| 0 <= i < q.len() && (#[trigger] q[i]).remaining <= FACTORY_WARNING_WINDOW
}

/// The factory-visibility decision for the render collaborator: whether the
/// warning flicker runs, given how close the pending asteroid requests are to
/// materializing.
pub fn fix_visibility_factory(as_que: &AsteroidQueue) -> (active: bool)
    ensures
        active == warning_active(as_que.queue@),
{
    let n = as_que.queue.len();
    let mut i: usize = 0;
    while i < n
        invariant
            n == as_que.queue@.len(),
            i <= n,
            forall|j: int|
                0 <= j < i ==> (#[trigger] as_que.queue@[j]).remaining > FACTORY_WARNING_WINDOW,
        decreases n - i,
    {
        if as_que.queue[i].remaining <= FACTORY_WARNING_WINDOW {
            return true;
        }
        i = i + 1;
    }
    false
}

/// One arena slot after the time-to-live pass: a projectile or shot with time
/// left has it reduced by the delta; one whose time has run out is despawned.
pub open spec fn dropped_slot(s: Option<Entity>, delta: int) -> Option<Entity> {
    match s {
        Some(Entity::Projectile(p)) => if p.drop.time > 0 {
            Some(
                Entity::Projectile(
                    Projectile {
                        pos: p.pos,
                        vel: p.vel,
                        drop: DropAfter { time: (p.drop.time - delta) as i64 },
                    },
                ),
            )
        } else {
            None
        },
        Some(Entity::Shot(sh)) => if sh.drop.time > 0 {
            Some(
                Entity::Shot(
                    Shot {
                        pos: sh.pos,
                        vel: sh.vel,
                        drop: DropAfter { time: (sh.drop.time - delta) as i64 },
                    },
                ),
            )
        } else {
            None
        },
        _ => s,
    }
}

/// The time-to-live pass: every projectile and shot with time left has it
/// reduced by the delta; every one whose time had already run out is
/// despawned. Hostiles are untouched.
pub fn drop_them(entities: &mut Vec<Option<Entity>>, delta: i64)
    requires
        delta >= 0,
        arena_wf(old(entities)@),
    ensures
        arena_wf(final(entities)@),
        final(entities)@.len() == old(entities)@.len(),
        forall|i: int|
            0 <= i < old(entities)@.len() ==> final(entities)@[i] == dropped_slot(
                #[trigger] old(entities)@[i],
                delta as int,
            ),
{
    let ghost orig = entities@;
    let n = entities.len();
    let mut i: usize = 0;
    while i < n
        invariant
            orig == old(entities)@,
            arena_wf(orig),
            n == orig.len(),
            entities@.len() == n,
            i <= n,
            delta >= 0,
            forall|j: int|
                0 <= j < i ==> entities@[j] == dropped_slot(#[trigger] orig[j], delta as int),
            forall|j: int| i <= j < n ==> entities@[j] == orig[j],
        decreases n - i,
    {
        let slot = entities[i];
        match slot {
            Some(Entity::Projectile(p)) => {
                if p.drop.time > 0 {
                    entities.set(
                        i,
                        Some(
                            Entity::Projectile(
                                Projectile {
                                    pos: p.pos,
                                    vel: p.vel,
                                    drop: DropAfter { time: p.drop.time - delta },
                                },
                            ),
                        ),
                    );
                } else {
                    entities.set(i, None);
                }
            },
            Some(Entity::Shot(sh)) => {
                if sh.drop.time > 0 {
                    entities.set(
                        i,
                        Some(
                            Entity::Shot(
                                Shot {
                                    pos: sh.pos,
                                    vel: sh.vel,
                                    drop: DropAfter { time: sh.drop.time - delta },
                                },
                            ),
                        ),
                    );
                } else {
                    entities.set(i, None);
                }
            },
            _ => {},
        }
        i = i + 1;
    }
    proof {
        assert forall|j: int|
            0 <= j < entities@.len() implies crate::entity::slot_wf(#[trigger] entities@[j]) by {
            assert(crate::entity::slot_wf(orig[j]));
            assert(entities@[j] == dropped_slot(orig[j], delta as int));
        }
    }
}

} // verus!
