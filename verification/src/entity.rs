//! Entities of the simulation: the single player, hostile entities, their
//! projectiles, the player's shots, and the index-based arena with tombstone
//! slots that holds everything but the player.

use vstd::prelude::*;

verus! {

use crate::space::{Position, MAX_COORD};
use crate::timer::{Repeat, TowerField};

/// The player-controlled entity. Exactly one exists; it lives outside the
/// arena because its absence would be a fatal invariant violation.
#[derive(Clone, Copy, PartialEq, Eq, Structural, Debug)]
pub struct Player {
    pub pos: Position,
}

/// Remaining time-to-live of a short-lived entity; decremented every tick and
/// the owner is despawned once it has run out.
#[derive(Clone, Copy, PartialEq, Eq, Structural, Debug)]
pub struct DropAfter {
    pub time: i64,
}

/// A velocity in field units per time unit.
#[derive(Clone, Copy, PartialEq, Eq, Structural, Debug)]
pub struct Velocity {
    pub x: i64,
    pub y: i64,
}

/// The integer health a hostile entity carries; it never persists below one,
/// since a reading of zero despawns the owner in the same resolution pass.
#[derive(Clone, Copy, PartialEq, Eq, Structural, Debug)]
pub struct EnemyHelth {
    pub health: u32,
}

/// The two hostile families, with their distinct wave tracks.
#[derive(Clone, Copy, PartialEq, Eq, Structural, Debug)]
pub enum HostileKind {
    Asteroid,
    Tower,
}

/// A hostile entity. Towers own a field-occupation clock and a repeating
/// projectile-fire interval; asteroids own neither.
#[derive(Clone, Copy, PartialEq, Eq, Structural, Debug)]
pub struct Hostile {
    pub kind: HostileKind,
    pub pos: Position,
    pub vel: Velocity,
    pub health: EnemyHelth,
    pub field: Option<TowerField>,
    pub fire: Option<Repeat>,
}

/// A hostile-fired projectile: deadly to the player on contact, harmless to
/// other hostiles, and gone when its time-to-live runs out.
#[derive(Clone, Copy, PartialEq, Eq, Structural, Debug)]
pub struct Projectile {
    pub pos: Position,
    pub vel: Velocity,
    pub drop: DropAfter,
}

/// A player-fired shot: damages the hostile it hits and despawns on impact or
/// when its time-to-live runs out.
#[derive(Clone, Copy, PartialEq, Eq, Structural, Debug)]
pub struct Shot {
    pub pos: Position,
    pub vel: Velocity,
    pub drop: DropAfter,
}

/// Anything the arena can hold.
#[derive(Clone, Copy, PartialEq, Eq, Structural, Debug)]
pub enum Entity {
    Hostile(Hostile),
    Projectile(Projectile),
    Shot(Shot),
}

pub open spec fn pos_wf(pos: Position) -> bool {
    -MAX_COORD <= pos.x <= MAX_COORD && -MAX_COORD <= pos.y <= MAX_COORD
}

impl Hostile {
    pub open spec fn wf(self) -> bool {
        &&& pos_wf(self.pos)
        &&& self.health.health >= 1
        &&& match self.field {
            Some(f) => f.wf(),
            None => true,
        }
        &&& match self.fire {
            Some(t) => t.wf(),
            None => true,
        }
    }
}

impl Entity {
    pub open spec fn wf(self) -> bool {
        match self {
            Entity::Hostile(h) => h.wf(),
            Entity::Projectile(p) => pos_wf(p.pos),
            Entity::Shot(s) => pos_wf(s.pos),
        }
    }
}

/// Well-formedness of one arena slot: empty, or holding a well-formed entity.
pub open spec fn slot_wf(slot: Option<Entity>) -> bool {
    match slot {
        Some(e) => e.wf(),
        None => true,
    }
}

/// Well-formedness of the whole arena.
pub open spec fn arena_wf(s: Seq<Option<Entity>>) -> bool {
    forall|i: int| 0 <= i < s.len() ==> slot_wf(#[trigger] s[i])
}

/// How many arena slots hold a live entity.
pub open spec fn occupied(s: Seq<Option<Entity>>) -> int
    decreases s.len(),
{
    if s.len() == 0 {
        0int
    } else {
        occupied(s.drop_last()) + (if s.last() is Some {
            1int
        } else {
            0int
        })
    }
}

/// Updating one slot changes the occupied count by the difference the slot
/// contributes.
pub proof fn lemma_occupied_update(s: Seq<Option<Entity>>, k: int, v: Option<Entity>)
    requires
        0 <= k < s.len(),
    ensures
        occupied(s.update(k, v)) == occupied(s) - (if s[k] is Some {
            1int
        } else {
            0int
        }) + (if v is Some {
            1int
        } else {
            0int
        }),
    decreases s.len(),
{
    let u = s.update(k, v);
    if k == s.len() - 1 {
        assert(u.drop_last() =~= s.drop_last());
    } else {
        assert(u.drop_last() =~= s.drop_last().update(k, v));
        lemma_occupied_update(s.drop_last(), k, v);
        assert(u.last() == s.last());
    }
}

/// One spawn fills exactly one slot.
pub proof fn lemma_occupied_spawned(
    pre: Seq<Option<Entity>>,
    post: Seq<Option<Entity>>,
    e: Entity,
    k: int,
)
    requires
        arena_spawned(pre, post, e, k),
    ensures
        occupied(post) == occupied(pre) + 1,
{
    if k < pre.len() {
        lemma_occupied_update(pre, k, Some(e));
    } else {
        assert(post.drop_last() =~= pre);
    }
}

/// How one spawn changes the arena: the entity stands in slot `k`, which was
/// the first tombstone, or is a fresh slot at the end; nothing else moved.
pub open spec fn arena_spawned(
    pre: Seq<Option<Entity>>,
    post: Seq<Option<Entity>>,
    e: Entity,
    k: int,
) -> bool {
    &&& 0 <= k <= pre.len()
    &&& (k < pre.len() ==> pre[k] is None && post == pre.update(k, Some(e)))
    &&& (k == pre.len() ==> post == pre.push(Some(e)))
}

/// Spawning a well-formed entity into a well-formed arena leaves the arena
/// well-formed.
pub proof fn lemma_arena_spawned_wf(
    pre: Seq<Option<Entity>>,
    post: Seq<Option<Entity>>,
    e: Entity,
    k: int,
)
    requires
        arena_wf(pre),
        e.wf(),
        arena_spawned(pre, post, e, k),
    ensures
        arena_wf(post),
        pre.len() <= post.len() <= pre.len() + 1,
{
    assert forall|i: int| 0 <= i < post.len() implies slot_wf(#[trigger] post[i]) by {
        if i != k {
            assert(post[i] == pre[i]);
            assert(slot_wf(pre[i]));
        }
    }
}

/// Spawn an entity into the arena, reusing the first tombstone slot if one
/// exists, else growing the arena by one. Returns the entity's handle.
pub fn spawn(entities: &mut Vec<Option<Entity>>, e: Entity) -> (idx: usize)
    requires
        old(entities).len() < usize::MAX,
    ensures
        idx <= old(entities).len(),
        idx < final(entities).len(),
        final(entities)@ == if idx < old(entities).len() {
            old(entities)@.update(idx as int, Some(e))
        } else {
            old(entities)@.push(Some(e))
        },
        idx < old(entities).len() ==> old(entities)@[idx as int] is None,
        forall|j: int| 0 <= j < idx ==> #[trigger] old(entities)@[j] is Some,
{
    let ghost orig = entities@;
    let n = entities.len();
    let mut i: usize = 0;
    while i < n
        invariant
            orig == old(entities)@,
            entities@ == orig,
            n == orig.len(),
            i <= n,
            forall|j: int| 0 <= j < i ==> #[trigger] orig[j] is Some,
        decreases n - i,
    {
        if entities[i].is_none() {
            entities.set(i, Some(e));
            return i;
        }
        i = i + 1;
    }
    entities.push(Some(e));
    n
}

/// Despawn the entity behind a handle. A stale handle (out of range, or a
/// slot already emptied earlier in the same tick) is a silent no-op.
pub fn despawn(entities: &mut Vec<Option<Entity>>, idx: usize)
    ensures
        final(entities)@ == if idx < old(entities).len() {
            old(entities)@.update(idx as int, None)
        } else {
            old(entities)@
        },
{
    if idx < entities.len() {
        entities.set(idx, None);
    } else {
        proof {
            assert(entities@ =~= old(entities)@);
        }
    }
}

} // verus!
