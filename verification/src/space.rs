//! Toroidal spatial model: wrapping coordinates into the current world extent
//! and shortest-path displacement across the wrap boundary.

use vstd::prelude::*;

verus! {

use vstd::math::abs;
use vstd::arithmetic::div_mod::{lemma_mod_bound, lemma_mod_multiples_vanish, lemma_small_mod};

/// Coordinates and the world extent stay well inside `i64` so that the wrap
/// arithmetic cannot overflow.
pub const MAX_EXTENT: i64 = 0x1000_0000_0000;

/// Bound on every stored position: a wrapped position plus the translation a
/// player wrap can apply to a projectile stays inside it.
pub const MAX_COORD: i64 = 0x2000_0000_0000;

/// Bound on positions supplied from outside (the physics collaborator's
/// integration results): tighter than `MAX_COORD` by enough room for the
/// wrap-translation of projectiles.
pub const MAX_SET_COORD: i64 = 0x1000_0000_0000;

/// A point on the playing field.
#[derive(Clone, Copy, PartialEq, Eq, Structural, Debug)]
pub struct Position {
    pub x: i64,
    pub y: i64,
}

/// A coordinate is in range when it lies in `[-extent/2, extent/2]`; a
/// coordinate outside is remapped there by `wrap_spec`.
pub open spec fn in_wrap_range(p: int, extent: int) -> bool {
    -(extent / 2) <= p <= extent / 2
}

/// Remap a coordinate into `[-extent/2, extent/2]` with modulo arithmetic
/// centered on zero; coordinates already in range are left untouched.
pub open spec fn wrap_spec(p: int, extent: int) -> int {
    let half = extent / 2;
    if -half <= p <= half {
        p
    } else {
        ((p + half) % extent) - half
    }
}

/// The wrapped coordinate always lands in range.
pub proof fn lemma_wrap_in_range(p: int, extent: int)
    requires
        extent > 0,
    ensures
        in_wrap_range(wrap_spec(p, extent), extent),
{
    let half = extent / 2;
    if !(-half <= p <= half) {
        lemma_mod_bound(p + half, extent);
    }
}

/// Wrapping is idempotent: a second wrap of an already wrapped coordinate
/// changes nothing.
pub proof fn lemma_wrap_idempotent(p: int, extent: int)
    requires
        extent > 0,
    ensures
        wrap_spec(wrap_spec(p, extent), extent) == wrap_spec(p, extent),
{
    lemma_wrap_in_range(p, extent);
}

/// Wrap one axis of a coordinate into the current extent. Returns the wrapped
/// coordinate and whether the coordinate was out of range and moved.
pub fn wrap_coord(p: i64, extent: i64) -> (res: (i64, bool))
    requires
        0 < extent <= MAX_EXTENT,
        -MAX_COORD <= p <= MAX_COORD,
    ensures
        res.0 == wrap_spec(p as int, extent as int),
        res.1 == !in_wrap_range(p as int, extent as int),
        in_wrap_range(res.0 as int, extent as int),
{
    proof {
        lemma_wrap_in_range(p as int, extent as int);
    }
    let half = extent.checked_div_euclid(2).unwrap();
    if p < -half || p > half {
        let m = (p + half).checked_rem_euclid(extent).unwrap();
        (m - half, true)
    } else {
        (p, false)
    }
}

/// Wrap both axes of a position into the current extent, as happens to every
/// entity each tick. Returns the wrapped position and whether any axis moved.
pub fn blink(pos: Position, extent: i64) -> (res: (Position, bool))
    requires
        0 < extent <= MAX_EXTENT,
        -MAX_COORD <= pos.x <= MAX_COORD,
        -MAX_COORD <= pos.y <= MAX_COORD,
    ensures
        res.0.x == wrap_spec(pos.x as int, extent as int),
        res.0.y == wrap_spec(pos.y as int, extent as int),
        res.1 == !(in_wrap_range(pos.x as int, extent as int) && in_wrap_range(
            pos.y as int,
            extent as int,
        )),
{
    let (x, wx) = wrap_coord(pos.x, extent);
    let (y, wy) = wrap_coord(pos.y, extent);
    (Position { x, y }, wx || wy)
}

/// The signed displacement from `position` to `target` along the shorter of
/// the two toroidal paths: the direct difference when its doubled magnitude is
/// under the extent, otherwise the complementary distance around the seam,
/// negated so that it points the other way.
pub open spec fn shortest_disp_spec(extent: int, position: int, target: int) -> int {
    let d = target - position;
    if 2 * abs(d) < extent {
        d
    } else if d < 0 {
        extent - abs(d)
    } else {
        -(extent - abs(d))
    }
}

/// The shortest displacement never exceeds half the extent in magnitude, for
/// any pair of coordinates no farther apart than the extent itself.
pub proof fn lemma_shortest_disp_bounded(extent: int, position: int, target: int)
    requires
        extent > 0,
        abs(target - position) <= extent,
    ensures
        2 * abs(shortest_disp_spec(extent, position, target)) <= extent,
{
}

/// The shortest displacement is congruent to the direct difference modulo the
/// extent: following it from `position` reaches `target` up to a whole wrap.
pub proof fn lemma_shortest_disp_congruent(extent: int, position: int, target: int)
    requires
        extent > 0,
    ensures
        (shortest_disp_spec(extent, position, target) - (target - position)) % extent == 0,
{
    let d = target - position;
    let s = shortest_disp_spec(extent, position, target);
    lemma_small_mod(0, extent as nat);
    if 2 * abs(d) < extent {
        assert(s - d == 0);
    } else if d < 0 {
        assert(s - d == extent);
        lemma_mod_multiples_vanish(1, 0, extent);
        assert(extent * 1 + 0 == extent) by (nonlinear_arith);
    } else {
        assert(s - d == -extent);
        lemma_mod_multiples_vanish(-1, 0, extent);
        assert(extent * -1 + 0 == -extent) by (nonlinear_arith);
    }
}

/// One axis of pursuit steering: the impulse direction from `position` toward
/// `target` along the shorter toroidal path.
pub fn find_impulse_direction(extent: i64, position: i64, target: i64) -> (r: i64)
    requires
        0 < extent <= MAX_EXTENT,
        -MAX_COORD <= position <= MAX_COORD,
        -MAX_COORD <= target <= MAX_COORD,
    ensures
        r == shortest_disp_spec(extent as int, position as int, target as int),
        abs(target as int - position as int) <= extent as int ==> 2 * abs(r as int) <= extent
            as int,
{
    proof {
        if abs(target as int - position as int) <= extent as int {
            lemma_shortest_disp_bounded(extent as int, position as int, target as int);
        }
    }
    let distance = target - position;
    let magnitude = if distance < 0 {
        -distance
    } else {
        distance
    };
    if 2 * magnitude < extent {
        return distance;
    }
    let mirrored_travel = extent - magnitude;
    if distance < 0 {
        return mirrored_travel;
    }
    -mirrored_travel
}

/// Both axes of pursuit steering toward a target position.
pub fn pursuit_vector(extent: i64, position: Position, target: Position) -> (r: (i64, i64))
    requires
        0 < extent <= MAX_EXTENT,
        -MAX_COORD <= position.x <= MAX_COORD,
        -MAX_COORD <= position.y <= MAX_COORD,
        -MAX_COORD <= target.x <= MAX_COORD,
        -MAX_COORD <= target.y <= MAX_COORD,
    ensures
        r.0 == shortest_disp_spec(extent as int, position.x as int, target.x as int),
        r.1 == shortest_disp_spec(extent as int, position.y as int, target.y as int),
{
    (
        find_impulse_direction(extent, position.x, target.x),
        find_impulse_direction(extent, position.y, target.y),
    )
}

} // verus!
