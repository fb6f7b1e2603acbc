//! The world-extent controller: the extent shrinks with the accumulated
//! field-occupation time of all live hostiles, behind a hysteresis band that
//! suppresses jitter; destroying an occupier pays its elapsed time back (the
//! kill bonus, applied by the combat resolver).

use vstd::prelude::*;

verus! {

use vstd::math::abs;
use crate::entity::{arena_wf, Entity, Hostile};
use crate::state::{BoardSize, Score, DEFAULT_EXTENT};
use crate::timer::FIELD_TIMER_CAP;

/// The shrink rule's candidate extent is applied only when it differs from
/// the current extent by more than this.
pub const HYSTERESIS: i64 = 1;

/// The arena never grows beyond this many slots, so that the accumulated
/// field-occupation sums stay well inside `i64`.
pub const MAX_ARENA: u64 = 0x4_0000_0000_0000;

/// Machine bound on the extent for the shrink rule's arithmetic.
pub const EXTENT_LIMIT: i64 = 0x1000_0000_0000_0000;

/// The elapsed field-occupation time a slot contributes to the shrink sum.
pub open spec fn field_elapsed_of(slot: Option<Entity>) -> int {
    match slot {
        Some(Entity::Hostile(h)) => match h.field {
            Some(f) => f.elapsed as int,
            None => 0,
        },
        _ => 0,
    }
}

/// Whether a slot holds a hostile that owns a field-occupation clock.
pub open spec fn has_field(slot: Option<Entity>) -> bool {
    slot matches Some(Entity::Hostile(h)) && h.field is Some
}

/// The accumulated elapsed occupation time over the whole arena.
pub open spec fn sum_field_elapsed(s: Seq<Option<Entity>>) -> int
    decreases s.len(),
{
    if s.len() == 0 {
        0
    } else {
        sum_field_elapsed(s.drop_last()) + field_elapsed_of(s.last())
    }
}

/// How many live hostiles own a field-occupation clock.
pub open spec fn field_owner_count(s: Seq<Option<Entity>>) -> int
    decreases s.len(),
{
    if s.len() == 0 {
        0int
    } else {
        field_owner_count(s.drop_last()) + (if has_field(s.last()) {
            1int
        } else {
            0int
        })
    }
}

/// One arena slot after the field pass: a hostile's field-occupation clock is
/// advanced (capped); everything else is untouched.
pub open spec fn field_advanced_slot(slot: Option<Entity>, delta: int) -> Option<Entity> {
    match slot {
        Some(Entity::Hostile(h)) => match h.field {
            Some(f) => Some(
                Entity::Hostile(
                    Hostile {
                        kind: h.kind,
                        pos: h.pos,
                        vel: h.vel,
                        health: h.health,
                        field: Some(f.spec_advanced(delta)),
                        fire: h.fire,
                    },
                ),
            ),
            None => slot,
        },
        _ => slot,
    }
}

/// The shrink rule's candidate extent: the default extent less the
/// accumulated occupation time.
pub open spec fn candidate_extent(s: Seq<Option<Entity>>) -> int {
    DEFAULT_EXTENT - sum_field_elapsed(s)
}

/// The occupation sum over a well-formed arena is bounded by the cap per
/// slot, and the owner count by the slot count.
pub proof fn lemma_field_sums_bounded(s: Seq<Option<Entity>>)
    requires
        arena_wf(s),
    ensures
        0 <= sum_field_elapsed(s) <= FIELD_TIMER_CAP * s.len(),
        0 <= field_owner_count(s) <= s.len(),
    decreases s.len(),
{
    if s.len() > 0 {
        assert(arena_wf(s.drop_last())) by {
            assert(forall|i: int|
                0 <= i < s.len() - 1 ==> s.drop_last()[i] == #[trigger] s[i]);
        }
        lemma_field_sums_bounded(s.drop_last());
        assert(crate::entity::slot_wf(s[s.len() - 1]));
        assert(0 <= field_elapsed_of(s.last()) <= FIELD_TIMER_CAP);
        assert(FIELD_TIMER_CAP * (s.len() - 1) + FIELD_TIMER_CAP == FIELD_TIMER_CAP * s.len())
            by (nonlinear_arith);
    }
}

/// The field pass: advance every live hostile's field-occupation clock by the
/// frame delta (each clock stops at its cap), credit the score for the
/// occupied time, recompute the shrink rule's candidate extent from the
/// accumulated occupation, and apply it only when it clears the hysteresis
/// band around the current extent.
pub fn time_and_adjust_board(
    entities: &mut Vec<Option<Entity>>,
    board_size: &mut BoardSize,
    score: &mut Score,
    delta: i64,
)
    requires
        delta >= 0,
        arena_wf(old(entities)@),
        old(entities)@.len() <= MAX_ARENA,
        -EXTENT_LIMIT <= old(board_size).size <= EXTENT_LIMIT,
        old(score).score >= 0,
        old(score).score + delta * field_owner_count(old(entities)@) <= i64::MAX,
    ensures
        arena_wf(final(entities)@),
        final(entities)@.len() == old(entities)@.len(),
        forall|i: int|
            0 <= i < old(entities)@.len() ==> final(entities)@[i] == field_advanced_slot(
                #[trigger] old(entities)@[i],
                delta as int,
            ),
        final(score).score == old(score).score + delta * field_owner_count(old(entities)@),
        final(board_size).size == if abs(
            candidate_extent(final(entities)@) - old(board_size).size,
        ) > HYSTERESIS {
            candidate_extent(final(entities)@)
        } else {
            old(board_size).size as int
        },
{
    let ghost orig = entities@;
    let n = entities.len();
    let mut sum: i64 = 0;
    let mut count: i64 = 0;
    let mut i: usize = 0;
    while i < n
        invariant
            orig == old(entities)@,
            arena_wf(orig),
            n == orig.len(),
            n <= MAX_ARENA,
            entities@.len() == n,
            i <= n,
            delta >= 0,
            forall|j: int|
                0 <= j < i ==> entities@[j] == field_advanced_slot(
                    #[trigger] orig[j],
                    delta as int,
                ),
            forall|j: int| i <= j < n ==> entities@[j] == orig[j],
            sum == sum_field_elapsed(entities@.subrange(0, i as int)),
            0 <= sum <= FIELD_TIMER_CAP * i,
            count == field_owner_count(orig.subrange(0, i as int)),
            0 <= count <= i,
        decreases n - i,
    {
        let ghost pre = entities@;
        let slot = entities[i];
        proof {
            assert(crate::entity::slot_wf(orig[i as int]));
            assert(FIELD_TIMER_CAP * i + FIELD_TIMER_CAP == FIELD_TIMER_CAP * (i + 1))
                by (nonlinear_arith);
        }
        match slot {
            Some(Entity::Hostile(h)) => {
                match h.field {
                    Some(f) => {
                        let mut f2 = f;
                        f2.tick(delta);
                        entities.set(
                            i,
                            Some(
                                Entity::Hostile(
                                    Hostile {
                                        kind: h.kind,
                                        pos: h.pos,
                                        vel: h.vel,
                                        health: h.health,
                                        field: Some(f2),
                                        fire: h.fire,
                                    },
                                ),
                            ),
                        );
                        sum = sum + f2.elapsed;
                        count = count + 1;
                    },
                    None => {},
                }
            },
            _ => {},
        }
        proof {
            assert(entities@.subrange(0, i + 1).drop_last() =~= pre.subrange(0, i as int));
            assert(entities@.subrange(0, i + 1).last() == entities@[i as int]);
            assert(orig.subrange(0, i + 1).drop_last() =~= orig.subrange(0, i as int));
            assert(orig.subrange(0, i + 1).last() == orig[i as int]);
        }
        i = i + 1;
    }
    proof {
        assert(entities@.subrange(0, n as int) =~= entities@);
        assert(orig.subrange(0, n as int) =~= orig);
        assert forall|j: int|
            0 <= j < entities@.len() implies crate::entity::slot_wf(#[trigger] entities@[j]) by {
            assert(crate::entity::slot_wf(orig[j]));
            assert(entities@[j] == field_advanced_slot(orig[j], delta as int));
        }
    }
    score.score = score.score + delta * count;
    let candidate = DEFAULT_EXTENT - sum;
    let distance = if candidate >= board_size.size {
        candidate - board_size.size
    } else {
        board_size.size - candidate
    };
    if distance > HYSTERESIS {
        board_size.size = candidate;
    }
}

} // verus!
