//! Wave scheduling: two independent escalating timer tracks, one per hostile
//! family, that enqueue timed spawn requests with growing burst size and
//! shrinking, floor-clamped intervals.

use vstd::prelude::*;

verus! {

use vstd::math::max;
use crate::rng::rand_range;
use crate::state::BoardSize;
use crate::timer::{OneShot, Repeat};

/// Interval of the asteroid track's single timer at the first launch and
/// after every reset.
pub const ASTEROID_SINGLE_START: i64 = 5;

/// Interval of the asteroid track's burst timer at the first launch and after
/// every reset.
pub const ASTEROID_BURST_START: i64 = 20;

/// Interval of the tower track's single timer at the first launch and after
/// every reset.
pub const TOWER_SINGLE_START: i64 = 5;

/// Interval of the tower track's burst timer at the first launch and after
/// every reset.
pub const TOWER_BURST_START: i64 = 25;

/// Materialization delay of a single asteroid spawn request; a burst enqueues
/// three requests staggered at one, two and three times this delay.
pub const ASTEROID_SPAWN_DELAY: i64 = 3;

/// Delay until an enqueued tower materializes as a live hostile.
pub const TOWER_ARM_DELAY: i64 = 5;

/// Delay until an enqueued tower's armed-flicker feedback fires.
pub const TOWER_FACTORY_DELAY: i64 = 3;

/// Period of a live tower's projectile-fire interval.
pub const TOWER_FIRE_PERIOD: i64 = 5;

/// Towers are placed at least this far inside the extent's edges.
pub const TOWER_MARGIN: i64 = 50;

/// A collapsed (negative) extent is replaced by this stand-in extent for
/// tower placement.
pub const FALLBACK_EXTENT: i64 = 110;

/// One escalating timer track: a single-spawn timer, a burst timer, and the
/// iteration counter that drives the escalation formulas.
#[derive(Clone, Copy, PartialEq, Eq, Structural, Debug)]
pub struct Track {
    pub single: OneShot,
    pub burst: OneShot,
    pub iteration: u64,
}

impl Track {
    pub open spec fn wf(self) -> bool {
        self.single.wf() && self.burst.wf()
    }
}

/// The asteroid track's single interval as recomputed by a burst at the given
/// iteration, floored at one.
pub open spec fn asteroid_single_interval(iteration: int) -> int {
    max(1, 10 - iteration)
}

/// The asteroid track's burst interval as recomputed by a burst at the given
/// iteration, floored at five.
pub open spec fn asteroid_burst_interval(iteration: int) -> int {
    max(5, 20 - 2 * iteration)
}

/// The tower track's single interval. The escalation of the tower track reads
/// the asteroid track's iteration counter, not its own; that coupling is part
/// of the observed behaviour and is kept.
pub open spec fn tower_single_interval(asteroid_iteration: int) -> int {
    max(1, 15 - asteroid_iteration)
}

/// The tower track's burst interval, from the asteroid track's iteration
/// counter (see `tower_single_interval`).
pub open spec fn tower_burst_interval(asteroid_iteration: int) -> int {
    max(5, 30 - 3 * asteroid_iteration)
}

/// Law: the asteroid escalation takes the interval pair (10, 20) at iteration
/// zero and at no later iteration; one burst later it gives (9, 18); and as
/// the iteration grows unbounded the intervals are floored at 1 and 5, which
/// they reach for good at iterations 9 and 8.
pub proof fn lemma_asteroid_escalation(iteration: int)
    requires
        iteration >= 0,
    ensures
        asteroid_single_interval(0) == 10 && asteroid_burst_interval(0) == 20,
        asteroid_single_interval(1) == 9 && asteroid_burst_interval(1) == 18,
        iteration >= 1 ==> asteroid_single_interval(iteration) < 10,
        iteration >= 1 ==> asteroid_burst_interval(iteration) < 20,
        1 <= asteroid_single_interval(iteration) <= 10,
        5 <= asteroid_burst_interval(iteration) <= 20,
        iteration >= 9 ==> asteroid_single_interval(iteration) == 1,
        iteration >= 8 ==> asteroid_burst_interval(iteration) == 5,
{
}

/// Law: a burst firing appends exactly the three staggered requests — the
/// materialization delay once, twice and three times over — and steps the
/// iteration up by one; so one burst fired from iteration zero leaves
/// iteration one. Stated for a burst without a simultaneous single-timer
/// firing, which prepends one further request of its own.
pub proof fn lemma_burst_appends_three(t: Track, delta: int)
    requires
        t.burst.spec_fires(delta),
        !t.single.spec_fires(delta),
        t.iteration < u64::MAX,
    ensures
        asteroid_requests(t.single.spec_fires(delta), t.burst.spec_fires(delta)).len() == 3,
        asteroid_requests(false, true)[0].remaining == ASTEROID_SPAWN_DELAY,
        asteroid_requests(false, true)[1].remaining == 2 * ASTEROID_SPAWN_DELAY,
        asteroid_requests(false, true)[2].remaining == 3 * ASTEROID_SPAWN_DELAY,
        asteroid_track_after(t, delta).iteration == t.iteration + 1,
{
    assert(asteroid_requests(false, true).len() == 3);
}

/// Law: the tower escalation is floored at 1 and 5 as the asteroid iteration
/// it reads grows unbounded.
pub proof fn lemma_tower_escalation(asteroid_iteration: int)
    requires
        asteroid_iteration >= 0,
    ensures
        tower_single_interval(0) == 15 && tower_burst_interval(0) == 30,
        1 <= tower_single_interval(asteroid_iteration) <= 15,
        5 <= tower_burst_interval(asteroid_iteration) <= 30,
        asteroid_iteration >= 14 ==> tower_single_interval(asteroid_iteration) == 1,
        asteroid_iteration >= 9 ==> tower_burst_interval(asteroid_iteration) == 5,
{
}

/// Both asteroid intervals recomputed at the given iteration.
pub fn asteroid_intervals(iteration: u64) -> (r: (i64, i64))
    ensures
        r.0 == asteroid_single_interval(iteration as int),
        r.1 == asteroid_burst_interval(iteration as int),
{
    let single: i64 = if iteration >= 9 {
        1
    } else {
        10 - (iteration as i64)
    };
    let burst: i64 = if iteration >= 8 {
        5
    } else {
        20 - 2 * (iteration as i64)
    };
    (single, burst)
}

/// Both tower intervals recomputed from the asteroid track's iteration.
pub fn tower_intervals(asteroid_iteration: u64) -> (r: (i64, i64))
    ensures
        r.0 == tower_single_interval(asteroid_iteration as int),
        r.1 == tower_burst_interval(asteroid_iteration as int),
{
    let single: i64 = if asteroid_iteration >= 14 {
        1
    } else {
        15 - (asteroid_iteration as i64)
    };
    let burst: i64 = if asteroid_iteration >= 9 {
        5
    } else {
        30 - 3 * (asteroid_iteration as i64)
    };
    (single, burst)
}

/// The extent towers are placed in: a collapsed extent is replaced by the
/// fallback stand-in.
pub open spec fn placement_extent(board: int) -> int {
    if board < 0 {
        FALLBACK_EXTENT as int
    } else {
        board
    }
}

/// Tower placement is feasible when the extent minus both margins leaves a
/// non-empty band to draw positions from.
pub open spec fn placement_feasible(board: int) -> bool {
    placement_extent(board) / 2 > TOWER_MARGIN
}

/// Where a tower may be placed: within the placement extent, at least the
/// margin away from its edges.
pub open spec fn in_placement_range(p: int, board: int) -> bool {
    let half = placement_extent(board) / 2;
    -half + TOWER_MARGIN <= p < half - TOWER_MARGIN
}

/// A pending tower spawn request: the arm delay until the tower
/// materializes, the factory delay until the armed-flicker feedback, the
/// projectile-fire interval the tower will start with, and the randomized
/// position it will stand at.
#[derive(Clone, Copy, PartialEq, Eq, Structural, Debug)]
pub struct TowerTimer {
    pub timer: OneShot,
    pub factory_timer: OneShot,
    pub projectile_timer: Repeat,
    pub xpos: i64,
    pub ypos: i64,
}

impl TowerTimer {
    pub open spec fn wf(self) -> bool {
        &&& self.timer.wf()
        &&& self.factory_timer.wf()
        &&& self.projectile_timer.wf()
        &&& -crate::space::MAX_COORD <= self.xpos <= crate::space::MAX_COORD
        &&& -crate::space::MAX_COORD <= self.ypos <= crate::space::MAX_COORD
    }

    /// A fresh spawn request: all three timers at their start values and a
    /// position drawn at random within the current extent minus the margin.
    pub open spec fn fresh(self, board: int) -> bool {
        &&& self.timer.remaining == TOWER_ARM_DELAY
        &&& self.factory_timer.remaining == TOWER_FACTORY_DELAY
        &&& self.projectile_timer == (Repeat {
            period: TOWER_FIRE_PERIOD,
            remaining: TOWER_FIRE_PERIOD,
        })
        &&& in_placement_range(self.xpos as int, board)
        &&& in_placement_range(self.ypos as int, board)
    }

    pub fn new(board_size: &i64) -> (t: TowerTimer)
        requires
            placement_feasible(*board_size as int),
            placement_extent(*board_size as int) <= crate::space::MAX_EXTENT,
        ensures
            t.fresh(*board_size as int),
            t.wf(),
    {
        let board: i64 = if *board_size < 0 {
            FALLBACK_EXTENT
        } else {
            *board_size
        };
        let half = board.checked_div_euclid(2).unwrap();
        TowerTimer {
            timer: OneShot::new(TOWER_ARM_DELAY),
            factory_timer: OneShot::new(TOWER_FACTORY_DELAY),
            projectile_timer: Repeat::new(TOWER_FIRE_PERIOD),
            xpos: rand_range(-half + TOWER_MARGIN, half - TOWER_MARGIN),
            ypos: rand_range(-half + TOWER_MARGIN, half - TOWER_MARGIN),
        }
    }
}

/// The pending asteroid spawn requests: each entry is the remaining delay
/// until one asteroid materializes.
#[derive(PartialEq, Eq, Debug)]
pub struct AsteroidQueue {
    pub queue: Vec<OneShot>,
}

impl AsteroidQueue {
    pub open spec fn wf(self) -> bool {
        forall|i: int| 0 <= i < self.queue.len() ==> (#[trigger] self.queue[i]).wf()
    }
}

/// The pending tower spawn requests.
#[derive(PartialEq, Eq, Debug)]
pub struct TowerQueue {
    pub queue: Vec<TowerTimer>,
}

impl TowerQueue {
    pub open spec fn wf(self) -> bool {
        forall|i: int| 0 <= i < self.queue.len() ==> (#[trigger] self.queue[i]).wf()
    }
}

/// The asteroid track after one scheduler tick: both timers advanced; if the
/// burst timer fired, the iteration steps up and both timers restart at the
/// intervals recomputed from the iteration the burst fired at.
pub open spec fn asteroid_track_after(t: Track, delta: int) -> Track {
    if t.burst.spec_fires(delta) {
        Track {
            single: OneShot { remaining: asteroid_single_interval(t.iteration as int) as i64 },
            burst: OneShot { remaining: asteroid_burst_interval(t.iteration as int) as i64 },
            iteration: (t.iteration + 1) as u64,
        }
    } else {
        Track {
            single: t.single.spec_advanced(delta),
            burst: t.burst.spec_advanced(delta),
            iteration: t.iteration,
        }
    }
}

/// The tower track after one scheduler tick. Its burst restarts both timers
/// at intervals recomputed from the asteroid track's iteration counter as it
/// stands after the asteroid track was advanced in the same tick.
pub open spec fn tower_track_after(t: Track, asteroid_iteration: int, delta: int) -> Track {
    if t.burst.spec_fires(delta) {
        Track {
            single: OneShot { remaining: tower_single_interval(asteroid_iteration) as i64 },
            burst: OneShot { remaining: tower_burst_interval(asteroid_iteration) as i64 },
            iteration: (t.iteration + 1) as u64,
        }
    } else {
        Track {
            single: t.single.spec_advanced(delta),
            burst: t.burst.spec_advanced(delta),
            iteration: t.iteration,
        }
    }
}

/// The asteroid spawn requests one scheduler tick enqueues: one request at
/// the materialization delay if the single timer fired, three staggered
/// requests if the burst timer fired.
pub open spec fn asteroid_requests(single_fired: bool, burst_fired: bool) -> Seq<OneShot> {
    (if single_fired {
        seq![OneShot { remaining: ASTEROID_SPAWN_DELAY }]
    } else {
        Seq::<OneShot>::empty()
    }) + (if burst_fired {
        seq![
            OneShot { remaining: ASTEROID_SPAWN_DELAY },
            OneShot { remaining: (2 * ASTEROID_SPAWN_DELAY) as i64 },
            OneShot { remaining: (3 * ASTEROID_SPAWN_DELAY) as i64 },
        ]
    } else {
        Seq::<OneShot>::empty()
    })
}

/// How many tower spawn requests one scheduler tick enqueues: one for the
/// single timer, three more for the burst timer.
pub open spec fn tower_request_count(single_fired: bool, burst_fired: bool) -> int {
    (if single_fired {
        1int
    } else {
        0int
    }) + (if burst_fired {
        3int
    } else {
        0int
    })
}

/// One scheduler tick over both tracks: advance the four escalating timers by
/// the frame delta and enqueue the spawn requests of every timer that fired.
/// Asteroid requests carry fixed delays; tower requests are freshly formed at
/// a random position within the current extent minus the margin.
pub fn queue_enemies(
    asteroid_track: &mut Track,
    tower_track: &mut Track,
    as_que: &mut AsteroidQueue,
    tower_queue: &mut TowerQueue,
    board_size: &BoardSize,
    delta: i64,
)
    requires
        delta >= 0,
        old(asteroid_track).wf(),
        old(tower_track).wf(),
        old(as_que).wf(),
        old(tower_queue).wf(),
        old(asteroid_track).iteration < u64::MAX,
        old(tower_track).iteration < u64::MAX,
        old(as_que).queue.len() + 4 <= usize::MAX,
        old(tower_queue).queue.len() + 4 <= usize::MAX,
        (old(tower_track).single.spec_fires(delta as int) || old(tower_track).burst.spec_fires(
            delta as int,
        )) ==> placement_feasible(board_size.size as int) && placement_extent(
            board_size.size as int,
        ) <= crate::space::MAX_EXTENT,
    ensures
        *final(asteroid_track) == asteroid_track_after(*old(asteroid_track), delta as int),
        *final(tower_track) == tower_track_after(
            *old(tower_track),
            asteroid_track_after(*old(asteroid_track), delta as int).iteration as int,
            delta as int,
        ),
        final(as_que).queue@ == old(as_que).queue@ + asteroid_requests(
            old(asteroid_track).single.spec_fires(delta as int),
            old(asteroid_track).burst.spec_fires(delta as int),
        ),
        final(tower_queue).queue@.len() == old(tower_queue).queue@.len() + tower_request_count(
            old(tower_track).single.spec_fires(delta as int),
            old(tower_track).burst.spec_fires(delta as int),
        ),
        final(tower_queue).queue@.subrange(0, old(tower_queue).queue@.len() as int) == old(
            tower_queue,
        ).queue@,
        forall|i: int|
            old(tower_queue).queue@.len() <= i < final(tower_queue).queue@.len() ==> (
            #[trigger] final(tower_queue).queue@[i]).fresh(board_size.size as int),
        final(asteroid_track).wf(),
        final(tower_track).wf(),
        final(as_que).wf(),
        final(tower_queue).wf(),
{
    let ghost as_que0 = as_que.queue@;
    let ghost tq0 = tower_queue.queue@;
    let single_fired = asteroid_track.single.tick(delta);
    if single_fired {
        as_que.queue.push(OneShot::new(ASTEROID_SPAWN_DELAY));
    }
    let burst_fired = asteroid_track.burst.tick(delta);
    if burst_fired {
        let (s, b) = asteroid_intervals(asteroid_track.iteration);
        as_que.queue.push(OneShot::new(ASTEROID_SPAWN_DELAY));
        as_que.queue.push(OneShot::new(2 * ASTEROID_SPAWN_DELAY));
        as_que.queue.push(OneShot::new(3 * ASTEROID_SPAWN_DELAY));
        asteroid_track.iteration = asteroid_track.iteration + 1;
        asteroid_track.single = OneShot::new(s);
        asteroid_track.burst = OneShot::new(b);
    }
    proof {
        assert(as_que.queue@ =~= as_que0 + asteroid_requests(single_fired, burst_fired));
    }

    let tower_single_fired = tower_track.single.tick(delta);
    if tower_single_fired {
        tower_queue.queue.push(TowerTimer::new(&board_size.size));
    }
    let tower_burst_fired = tower_track.burst.tick(delta);
    if tower_burst_fired {
        let (s, b) = tower_intervals(asteroid_track.iteration);
        tower_queue.queue.push(TowerTimer::new(&board_size.size));
        tower_queue.queue.push(TowerTimer::new(&board_size.size));
        tower_queue.queue.push(TowerTimer::new(&board_size.size));
        tower_track.iteration = tower_track.iteration + 1;
        tower_track.single = OneShot::new(s);
        tower_track.burst = OneShot::new(b);
    }
    proof {
        assert(tower_queue.queue@.subrange(0, tq0.len() as int) =~= tq0);
        assert forall|j: int|
            0 <= j < as_que.queue@.len() implies (#[trigger] as_que.queue@[j]).wf() by {
            if j < as_que0.len() {
                assert(as_que.queue@[j] == as_que0[j]);
                assert(as_que0[j].wf());
            }
        }
        assert forall|j: int|
            0 <= j < tower_queue.queue@.len() implies (#[trigger] tower_queue.queue@[j]).wf() by {
            if j < tq0.len() {
                assert(tower_queue.queue@[j] == tq0[j]);
                assert(tq0[j].wf());
            }
        }
    }
}

} // verus!
