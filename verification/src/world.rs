//! The explicit world-state aggregate, passed by reference through the fixed,
//! ordered sequence of per-tick update passes; and the reset action that
//! atomically restores every subsystem.

use vstd::prelude::*;

verus! {

use crate::combat::{check_shooted, CollisionEvent};
use crate::entity::{
    arena_spawned,
    arena_wf,
    lemma_arena_spawned_wf,
    spawn,
    DropAfter,
    Entity,
    Player,
    Shot,
    Velocity,
};
use crate::extent::{field_owner_count, lemma_field_sums_bounded, time_and_adjust_board, MAX_ARENA};
use crate::space::{
    blink,
    in_wrap_range,
    pursuit_vector,
    shortest_disp_spec,
    wrap_spec,
    Position,
    MAX_COORD,
    MAX_EXTENT,
    MAX_SET_COORD,
};
use crate::spawn::{
    drop_them,
    spawn_after_finished_queue,
    spawn_and_destroy_factories,
    spawn_projectiles_at,
    tick_fire_timers,
    update_spawn_queue,
    SHOT_TTL,
};
use crate::state::{
    check_win_condition,
    handle_resize,
    on_death,
    update_time,
    BoardSize,
    CurrentGame,
    GameState,
    Score,
    TimeCounter,
    DEATH_SENTINEL_EXTENT,
    DEFAULT_EXTENT,
    RESIZE_STEP,
    WIN_TIME,
};
use crate::tension::{fix_volume, AudioDirective, POLL_PERIOD};
use crate::timer::{OneShot, Repeat};
use crate::waves::{
    placement_extent,
    placement_feasible,
    queue_enemies,
    AsteroidQueue,
    Track,
    TowerQueue,
    ASTEROID_BURST_START,
    ASTEROID_SINGLE_START,
    TOWER_BURST_START,
    TOWER_SINGLE_START,
};

/// Where the player starts.
pub const PLAYER_START_Y: i64 = 100;

/// Where the tower-factory origin sits, and where a reset recenters it.
pub const FACTORY_ORIGIN_COORD: i64 = 10;

/// Machine bound on the extent at a tick's entry, leaving room for the debug
/// resize and the kill bonuses of one tick.
pub const BOARD_TICK_BOUND: i64 = 0x0800_0000_0000_0000;

/// Machine bound on how many collision-pair events one tick can drain.
pub const MAX_TICK_EVENTS: u64 = 0x1_0000_0000;

/// The whole world state: the state machine, the scalar resources, the single
/// player, the entity arena, both wave tracks and spawn queues, the tension
/// mapper's polling interval, and the tower-factory origin.
pub struct World {
    pub game: CurrentGame,
    pub board_size: BoardSize,
    pub score: Score,
    pub time_counter: TimeCounter,
    pub player: Player,
    pub entities: Vec<Option<Entity>>,
    pub asteroid_track: Track,
    pub tower_track: Track,
    pub asteroid_queue: AsteroidQueue,
    pub tower_queue: TowerQueue,
    pub polling: Repeat,
    pub factory_origin: Position,
}

/// The decoded input events one tick consumes: the reset key, the two debug
/// resize keys, and a fire command carrying the shot velocity the input
/// handling derived from the player's heading. The fire-rate throttle sits
/// below the integer time resolution, so pacing the fire commands is left to
/// the input side.
#[derive(Clone, Copy, PartialEq, Eq, Structural, Debug)]
pub struct InputEvents {
    pub reset_pressed: bool,
    pub shrink_pressed: bool,
    pub grow_pressed: bool,
    pub shoot: Option<Velocity>,
}

impl InputEvents {
    /// No input at all.
    pub fn none() -> (r: InputEvents)
        ensures
            r == (InputEvents {
                reset_pressed: false,
                shrink_pressed: false,
                grow_pressed: false,
                shoot: None::<Velocity>,
            }),
    {
        InputEvents { reset_pressed: false, shrink_pressed: false, grow_pressed: false, shoot: None }
    }
}

/// One pursuit steering command for the physics collaborator: the entity to
/// push and the unnormalized toroidal-shortest direction toward the player.
#[derive(Clone, Copy, PartialEq, Eq, Structural, Debug)]
pub struct PursuitImpulse {
    pub handle: usize,
    pub dir: Velocity,
}

/// Everything one tick hands back to the outside collaborators.
pub struct TickOutput {
    /// Arena handle of the asteroid the spawn queue materialized, if any.
    pub materialized_asteroid: Option<usize>,
    /// Arena handle of the tower the tower queue materialized, if any.
    pub materialized_tower: Option<usize>,
    /// Positions whose armed-flicker feedback fired, for the render collaborator.
    pub armed: Vec<Position>,
    /// Pursuit directions for the physics collaborator.
    pub pursuit: Vec<PursuitImpulse>,
    /// Arena handles of the projectiles the firing towers spawned this tick,
    /// one per firing position, in arena order of the towers.
    pub spawned_projectiles: Vec<usize>,
    /// Volume directives for the audio collaborator, when the poll fired.
    pub audio: Option<Vec<AudioDirective>>,
    /// Whether the player wrapped across the seam this tick.
    pub player_wrapped: bool,
}

impl World {
    /// Structural well-formedness: every subsystem's own invariant, the arena
    /// size bound, nonnegative accumulators, and the player inside the
    /// externally-set position bound.
    pub open spec fn wf(self) -> bool {
        &&& arena_wf(self.entities@)
        &&& self.entities@.len() <= MAX_ARENA
        &&& self.asteroid_track.wf()
        &&& self.tower_track.wf()
        &&& self.asteroid_queue.wf()
        &&& self.tower_queue.wf()
        &&& self.polling.wf()
        &&& self.polling.period == POLL_PERIOD
        &&& self.score.score >= 0
        &&& self.time_counter.score >= 0
        &&& -MAX_SET_COORD <= self.player.pos.x <= MAX_SET_COORD
        &&& -MAX_SET_COORD <= self.player.pos.y <= MAX_SET_COORD
    }

    /// A fresh world: title screen, default extent, zero accumulators, the
    /// player at its start, an empty arena, both tracks at their launch
    /// intervals with iteration zero, empty queues.
    pub fn new() -> (w: World)
        ensures
            w.wf(),
            w.game.state is TitleScreen,
            w.board_size.size == DEFAULT_EXTENT,
            w.score.score == 0,
            w.time_counter.score == 0,
            w.player.pos == (Position { x: 0, y: PLAYER_START_Y }),
            w.entities@.len() == 0,
            w.asteroid_track == (Track {
                single: OneShot { remaining: ASTEROID_SINGLE_START },
                burst: OneShot { remaining: ASTEROID_BURST_START },
                iteration: 0u64,
            }),
            w.tower_track == (Track {
                single: OneShot { remaining: TOWER_SINGLE_START },
                burst: OneShot { remaining: TOWER_BURST_START },
                iteration: 0u64,
            }),
            w.asteroid_queue.queue@.len() == 0,
            w.tower_queue.queue@.len() == 0,
            w.polling == (Repeat { period: POLL_PERIOD, remaining: POLL_PERIOD }),
            w.factory_origin == (Position { x: FACTORY_ORIGIN_COORD, y: FACTORY_ORIGIN_COORD }),
    {
        World {
            game: CurrentGame { state: GameState::TitleScreen },
            board_size: BoardSize { size: DEFAULT_EXTENT },
            score: Score { score: 0 },
            time_counter: TimeCounter { score: 0 },
            player: Player { pos: Position { x: 0, y: PLAYER_START_Y } },
            entities: Vec::new(),
            asteroid_track: Track {
                single: OneShot::new(ASTEROID_SINGLE_START),
                burst: OneShot::new(ASTEROID_BURST_START),
                iteration: 0,
            },
            tower_track: Track {
                single: OneShot::new(TOWER_SINGLE_START),
                burst: OneShot::new(TOWER_BURST_START),
                iteration: 0,
            },
            asteroid_queue: AsteroidQueue { queue: Vec::new() },
            tower_queue: TowerQueue { queue: Vec::new() },
            polling: Repeat::new(POLL_PERIOD),
            factory_origin: Position { x: FACTORY_ORIGIN_COORD, y: FACTORY_ORIGIN_COORD },
        }
    }
}

/// An arena slot after a reset: every hostile entity is despawned; shots and
/// projectiles are left to run out their time-to-live.
pub open spec fn reset_slot(slot: Option<Entity>) -> Option<Entity> {
    match slot {
        Some(Entity::Hostile(_)) => None,
        _ => slot,
    }
}

/// The reset action, available in any state: despawn every hostile entity,
/// clear both spawn queues, restore both wave tracks to their launch
/// intervals with iteration zero, zero the score and the time counter,
/// restore the default extent, recenter the tower-factory origin, and enter
/// the running state.
pub fn reset(w: &mut World)
    requires
        old(w).wf(),
    ensures
        final(w).wf(),
        final(w).game.state is Running,
        final(w).board_size.size == DEFAULT_EXTENT,
        final(w).score.score == 0,
        final(w).time_counter.score == 0,
        final(w).asteroid_queue.queue@.len() == 0,
        final(w).tower_queue.queue@.len() == 0,
        final(w).asteroid_track == (Track {
            single: OneShot { remaining: ASTEROID_SINGLE_START },
            burst: OneShot { remaining: ASTEROID_BURST_START },
            iteration: 0u64,
        }),
        final(w).tower_track == (Track {
            single: OneShot { remaining: TOWER_SINGLE_START },
            burst: OneShot { remaining: TOWER_BURST_START },
            iteration: 0u64,
        }),
        final(w).factory_origin == (Position { x: FACTORY_ORIGIN_COORD, y: FACTORY_ORIGIN_COORD }),
        final(w).entities@.len() == old(w).entities@.len(),
        forall|i: int|
            0 <= i < old(w).entities@.len() ==> final(w).entities@[i] == reset_slot(
                #[trigger] old(w).entities@[i],
            ),
        final(w).player == old(w).player,
        final(w).polling == old(w).polling,
{
    let ghost orig = w.entities@;
    let n = w.entities.len();
    let mut i: usize = 0;
    while i < n
        invariant
            orig == old(w).entities@,
            arena_wf(orig),
            n == orig.len(),
            w.entities@.len() == n,
            i <= n,
            forall|j: int| 0 <= j < i ==> w.entities@[j] == reset_slot(#[trigger] orig[j]),
            forall|j: int| i <= j < n ==> w.entities@[j] == orig[j],
            w.game == old(w).game,
            w.board_size == old(w).board_size,
            w.score == old(w).score,
            w.time_counter == old(w).time_counter,
            w.player == old(w).player,
            w.asteroid_track == old(w).asteroid_track,
            w.tower_track == old(w).tower_track,
            w.asteroid_queue == old(w).asteroid_queue,
            w.tower_queue == old(w).tower_queue,
            w.polling == old(w).polling,
            w.factory_origin == old(w).factory_origin,
        decreases n - i,
    {
        match w.entities[i] {
            Some(Entity::Hostile(_)) => {
                w.entities.set(i, None);
            },
            _ => {},
        }
        i = i + 1;
    }
    w.asteroid_queue.queue = Vec::new();
    w.tower_queue.queue = Vec::new();
    w.asteroid_track = Track {
        single: OneShot::new(ASTEROID_SINGLE_START),
        burst: OneShot::new(ASTEROID_BURST_START),
        iteration: 0,
    };
    w.tower_track = Track {
        single: OneShot::new(TOWER_SINGLE_START),
        burst: OneShot::new(TOWER_BURST_START),
        iteration: 0,
    };
    w.score.score = 0;
    w.time_counter.score = 0;
    w.board_size.size = DEFAULT_EXTENT;
    w.factory_origin = Position { x: FACTORY_ORIGIN_COORD, y: FACTORY_ORIGIN_COORD };
    w.game.state = GameState::Running;
    proof {
        assert forall|j: int|
            0 <= j < w.entities@.len() implies crate::entity::slot_wf(
            #[trigger] w.entities@[j],
        ) by {
            assert(crate::entity::slot_wf(orig[j]));
            assert(w.entities@[j] == reset_slot(orig[j]));
        }
    }
}

/// One arena slot with its position wrapped into the extent.
pub open spec fn wrapped_slot(slot: Option<Entity>, extent: int) -> Option<Entity> {
    match slot {
        Some(Entity::Hostile(h)) => Some(
            Entity::Hostile(
                crate::entity::Hostile {
                    kind: h.kind,
                    pos: Position {
                        x: wrap_spec(h.pos.x as int, extent) as i64,
                        y: wrap_spec(h.pos.y as int, extent) as i64,
                    },
                    vel: h.vel,
                    health: h.health,
                    field: h.field,
                    fire: h.fire,
                },
            ),
        ),
        Some(Entity::Projectile(p)) => Some(
            Entity::Projectile(
                crate::entity::Projectile {
                    pos: Position {
                        x: wrap_spec(p.pos.x as int, extent) as i64,
                        y: wrap_spec(p.pos.y as int, extent) as i64,
                    },
                    vel: p.vel,
                    drop: p.drop,
                },
            ),
        ),
        Some(Entity::Shot(sh)) => Some(
            Entity::Shot(
                crate::entity::Shot {
                    pos: Position {
                        x: wrap_spec(sh.pos.x as int, extent) as i64,
                        y: wrap_spec(sh.pos.y as int, extent) as i64,
                    },
                    vel: sh.vel,
                    drop: sh.drop,
                },
            ),
        ),
        None => None,
    }
}

/// One arena slot after the player-wrap correction: shots and projectiles are
/// translated by the delta the player experienced, so their trajectories stay
/// continuous across the seam; no other entity class is touched.
pub open spec fn shifted_slot(slot: Option<Entity>, dx: int, dy: int) -> Option<Entity> {
    match slot {
        Some(Entity::Projectile(p)) => Some(
            Entity::Projectile(
                crate::entity::Projectile {
                    pos: Position { x: (p.pos.x + dx) as i64, y: (p.pos.y + dy) as i64 },
                    vel: p.vel,
                    drop: p.drop,
                },
            ),
        ),
        Some(Entity::Shot(sh)) => Some(
            Entity::Shot(
                crate::entity::Shot {
                    pos: Position { x: (sh.pos.x + dx) as i64, y: (sh.pos.y + dy) as i64 },
                    vel: sh.vel,
                    drop: sh.drop,
                },
            ),
        ),
        _ => slot,
    }
}

/// The toroidal wrap pass: wrap every entity's position into the extent, then
/// the player's; when the player wrapped, translate every live shot and
/// projectile by the same delta. Returns whether the player wrapped.
pub fn blink_system(
    player: &mut Player,
    entities: &mut Vec<Option<Entity>>,
    board_size: &BoardSize,
) -> (player_wrapped: bool)
    requires
        0 < board_size.size <= MAX_EXTENT,
        arena_wf(old(entities)@),
        -MAX_SET_COORD <= old(player).pos.x <= MAX_SET_COORD,
        -MAX_SET_COORD <= old(player).pos.y <= MAX_SET_COORD,
    ensures
        arena_wf(final(entities)@),
        final(entities)@.len() == old(entities)@.len(),
        final(player).pos.x == wrap_spec(old(player).pos.x as int, board_size.size as int),
        final(player).pos.y == wrap_spec(old(player).pos.y as int, board_size.size as int),
        in_wrap_range(final(player).pos.x as int, board_size.size as int),
        in_wrap_range(final(player).pos.y as int, board_size.size as int),
        player_wrapped == !(in_wrap_range(old(player).pos.x as int, board_size.size as int)
            && in_wrap_range(old(player).pos.y as int, board_size.size as int)),
        forall|i: int|
            0 <= i < old(entities)@.len() ==> final(entities)@[i] == shifted_slot(
                wrapped_slot(#[trigger] old(entities)@[i], board_size.size as int),
                if player_wrapped {
                    final(player).pos.x - old(player).pos.x
                } else {
                    0
                },
                if player_wrapped {
                    final(player).pos.y - old(player).pos.y
                } else {
                    0
                },
            ),
{
    let extent = board_size.size;
    let ghost orig = entities@;
    let n = entities.len();
    let mut i: usize = 0;
    while i < n
        invariant
            orig == old(entities)@,
            arena_wf(orig),
            0 < extent <= MAX_EXTENT,
            n == orig.len(),
            entities@.len() == n,
            i <= n,
            forall|j: int|
                0 <= j < i ==> entities@[j] == wrapped_slot(#[trigger] orig[j], extent as int),
            forall|j: int|
                0 <= j < i ==> crate::entity::slot_wf(#[trigger] entities@[j])
                    && slot_in_wrap_range(entities@[j], extent as int),
            forall|j: int| i <= j < n ==> entities@[j] == orig[j],
        decreases n - i,
    {
        proof {
            assert(crate::entity::slot_wf(orig[i as int]));
        }
        match entities[i] {
            Some(Entity::Hostile(h)) => {
                let (pos, _) = blink(h.pos, extent);
                entities.set(
                    i,
                    Some(
                        Entity::Hostile(
                            crate::entity::Hostile {
                                kind: h.kind,
                                pos,
                                vel: h.vel,
                                health: h.health,
                                field: h.field,
                                fire: h.fire,
                            },
                        ),
                    ),
                );
            },
            Some(Entity::Projectile(p)) => {
                let (pos, _) = blink(p.pos, extent);
                entities.set(
                    i,
                    Some(
                        Entity::Projectile(
                            crate::entity::Projectile { pos, vel: p.vel, drop: p.drop },
                        ),
                    ),
                );
            },
            Some(Entity::Shot(sh)) => {
                let (pos, _) = blink(sh.pos, extent);
                entities.set(
                    i,
                    Some(Entity::Shot(crate::entity::Shot { pos, vel: sh.vel, drop: sh.drop })),
                );
            },
            None => {},
        }
        i = i + 1;
    }
    proof {
        assert forall|j: int|
            0 <= j < n implies crate::entity::slot_wf(#[trigger] entities@[j])
            && slot_in_wrap_range(entities@[j], extent as int) by {}
    }
    let old_pos = player.pos;
    let (new_pos, player_wrapped) = blink(player.pos, extent);
    player.pos = new_pos;
    if !player_wrapped {
        proof {
            assert forall|j: int|
                0 <= j < n implies entities@[j] == shifted_slot(
                wrapped_slot(#[trigger] orig[j], extent as int),
                0,
                0,
            ) by {
                assert(entities@[j] == wrapped_slot(orig[j], extent as int));
            }
        }
        return false;
    }
    let dx = new_pos.x - old_pos.x;
    let dy = new_pos.y - old_pos.y;
    let ghost mid = entities@;
    let mut k: usize = 0;
    while k < n
        invariant
            orig == old(entities)@,
            n == mid.len(),
            entities@.len() == n,
            k <= n,
            0 < extent <= MAX_EXTENT,
            -MAX_SET_COORD <= old_pos.x <= MAX_SET_COORD,
            -MAX_SET_COORD <= old_pos.y <= MAX_SET_COORD,
            in_wrap_range(new_pos.x as int, extent as int),
            in_wrap_range(new_pos.y as int, extent as int),
            dx == new_pos.x - old_pos.x,
            dy == new_pos.y - old_pos.y,
            forall|j: int| 0 <= j < n ==> mid[j] == wrapped_slot(#[trigger] orig[j], extent as int),
            forall|j: int|
                0 <= j < n ==> crate::entity::slot_wf(#[trigger] mid[j]) && slot_in_wrap_range(
                    mid[j],
                    extent as int,
                ),
            forall|j: int|
                0 <= j < k ==> entities@[j] == shifted_slot(#[trigger] mid[j], dx as int, dy as int),
            forall|j: int| k <= j < n ==> entities@[j] == mid[j],
        decreases n - k,
    {
        proof {
            assert(crate::entity::slot_wf(mid[k as int]));
            assert(slot_in_wrap_range(mid[k as int], extent as int));
        }
        match entities[k] {
            Some(Entity::Projectile(p)) => {
                entities.set(
                    k,
                    Some(
                        Entity::Projectile(
                            crate::entity::Projectile {
                                pos: Position { x: p.pos.x + dx, y: p.pos.y + dy },
                                vel: p.vel,
                                drop: p.drop,
                            },
                        ),
                    ),
                );
            },
            Some(Entity::Shot(sh)) => {
                entities.set(
                    k,
                    Some(
                        Entity::Shot(
                            crate::entity::Shot {
                                pos: Position { x: sh.pos.x + dx, y: sh.pos.y + dy },
                                vel: sh.vel,
                                drop: sh.drop,
                            },
                        ),
                    ),
                );
            },
            _ => {},
        }
        k = k + 1;
    }
    proof {
        assert forall|j: int|
            0 <= j < n implies crate::entity::slot_wf(#[trigger] entities@[j]) by {
            assert(entities@[j] == shifted_slot(mid[j], dx as int, dy as int));
            assert(crate::entity::slot_wf(mid[j]) && slot_in_wrap_range(mid[j], extent as int));
        }
        assert forall|j: int|
            0 <= j < n implies entities@[j] == shifted_slot(
            wrapped_slot(#[trigger] orig[j], extent as int),
            dx as int,
            dy as int,
        ) by {
            assert(entities@[j] == shifted_slot(mid[j], dx as int, dy as int));
        }
    }
    true
}

/// Every position of an arena slot lies in the wrap range.
pub open spec fn slot_in_wrap_range(slot: Option<Entity>, extent: int) -> bool {
    match slot {
        Some(Entity::Hostile(h)) => in_wrap_range(h.pos.x as int, extent) && in_wrap_range(
            h.pos.y as int,
            extent,
        ),
        Some(Entity::Projectile(p)) => in_wrap_range(p.pos.x as int, extent) && in_wrap_range(
            p.pos.y as int,
            extent,
        ),
        Some(Entity::Shot(sh)) => in_wrap_range(sh.pos.x as int, extent) && in_wrap_range(
            sh.pos.y as int,
            extent,
        ),
        None => true,
    }
}

/// The pursuit commands of one tick, in arena order: for every live hostile
/// and hostile-fired projectile, the toroidal-shortest direction from it to
/// the player.
pub open spec fn pursuit_list(s: Seq<Option<Entity>>, extent: int, target: Position) -> Seq<
    PursuitImpulse,
>
    decreases s.len(),
{
    if s.len() == 0 {
        Seq::empty()
    } else {
        let rest = pursuit_list(s.drop_last(), extent, target);
        let i = s.len() - 1;
        match s.last() {
            Some(Entity::Hostile(h)) => rest.push(
                PursuitImpulse {
                    handle: i as usize,
                    dir: Velocity {
                        x: shortest_disp_spec(extent, h.pos.x as int, target.x as int) as i64,
                        y: shortest_disp_spec(extent, h.pos.y as int, target.y as int) as i64,
                    },
                },
            ),
            Some(Entity::Projectile(p)) => rest.push(
                PursuitImpulse {
                    handle: i as usize,
                    dir: Velocity {
                        x: shortest_disp_spec(extent, p.pos.x as int, target.x as int) as i64,
                        y: shortest_disp_spec(extent, p.pos.y as int, target.y as int) as i64,
                    },
                },
            ),
            _ => rest,
        }
    }
}

/// The pursuit steering pass: compute, for every live hostile and projectile,
/// the unnormalized toroidal-shortest direction toward the player, for the
/// physics collaborator to scale and apply.
pub fn target_move_player(
    entities: &Vec<Option<Entity>>,
    player: &Player,
    board_size: &BoardSize,
) -> (impulses: Vec<PursuitImpulse>)
    requires
        0 < board_size.size <= MAX_EXTENT,
        arena_wf(entities@),
        -MAX_COORD <= player.pos.x <= MAX_COORD,
        -MAX_COORD <= player.pos.y <= MAX_COORD,
    ensures
        impulses@ == pursuit_list(entities@, board_size.size as int, player.pos),
{
    let ghost s = entities@;
    let n = entities.len();
    let mut impulses: Vec<PursuitImpulse> = Vec::new();
    let mut i: usize = 0;
    while i < n
        invariant
            s == entities@,
            arena_wf(s),
            0 < board_size.size <= MAX_EXTENT,
            -MAX_COORD <= player.pos.x <= MAX_COORD,
            -MAX_COORD <= player.pos.y <= MAX_COORD,
            n == s.len(),
            i <= n,
            impulses@ == pursuit_list(s.subrange(0, i as int), board_size.size as int, player.pos),
        decreases n - i,
    {
        let ghost prefix = s.subrange(0, i as int);
        proof {
            assert(crate::entity::slot_wf(s[i as int]));
        }
        match entities[i] {
            Some(Entity::Hostile(h)) => {
                let (x, y) = pursuit_vector(board_size.size, h.pos, player.pos);
                impulses.push(PursuitImpulse { handle: i, dir: Velocity { x, y } });
            },
            Some(Entity::Projectile(p)) => {
                let (x, y) = pursuit_vector(board_size.size, p.pos, player.pos);
                impulses.push(PursuitImpulse { handle: i, dir: Velocity { x, y } });
            },
            _ => {},
        }
        proof {
            assert(s.subrange(0, i + 1).drop_last() =~= prefix);
            assert(s.subrange(0, i + 1).last() == s[i as int]);
        }
        i = i + 1;
    }
    proof {
        assert(s.subrange(0, n as int) =~= s);
    }
    impulses
}


/// The entity a fire command spawns: a shot at the player's position with the
/// commanded velocity and a fresh time-to-live.
pub open spec fn shot_entity(pos: Position, vel: Velocity) -> Entity {
    Entity::Shot(Shot { pos, vel, drop: DropAfter { time: SHOT_TTL } })
}

/// The extent after the debug-resize key events of one tick. Input is only
/// handled while the game is running.
pub open spec fn resized_board(size: int, state: GameState, shrink: bool, grow: bool) -> int {
    if state is Running {
        size - (if shrink {
            RESIZE_STEP as int
        } else {
            0
        }) + (if grow {
            RESIZE_STEP as int
        } else {
            0
        })
    } else {
        size
    }
}

/// The input pass: apply the debug-resize key events to the extent and spawn
/// a shot at the player for a fire command. Input is only handled while the
/// game is running; the reset key is handled by the tick itself.
pub fn handle_input(w: &mut World, input: &InputEvents)
    requires
        old(w).wf(),
        i64::MIN + RESIZE_STEP <= old(w).board_size.size <= i64::MAX - RESIZE_STEP,
        old(w).entities@.len() < usize::MAX,
        old(w).entities@.len() < MAX_ARENA,
    ensures
        final(w).wf(),
        final(w).board_size.size == resized_board(
            old(w).board_size.size as int,
            old(w).game.state,
            input.shrink_pressed,
            input.grow_pressed,
        ),
        input.shoot matches Some(v) ==> (old(w).game.state is Running ==> exists|k: int|
            #[trigger] arena_spawned(
                old(w).entities@,
                final(w).entities@,
                shot_entity(old(w).player.pos, v),
                k,
            )),
        !(old(w).game.state is Running && input.shoot is Some) ==> final(w).entities@
            == old(w).entities@,
        old(w).entities@.len() <= final(w).entities@.len() <= old(w).entities@.len() + 1,
        final(w).game == old(w).game,
        final(w).score == old(w).score,
        final(w).time_counter == old(w).time_counter,
        final(w).player == old(w).player,
        final(w).asteroid_track == old(w).asteroid_track,
        final(w).tower_track == old(w).tower_track,
        final(w).asteroid_queue == old(w).asteroid_queue,
        final(w).tower_queue == old(w).tower_queue,
        final(w).polling == old(w).polling,
        final(w).factory_origin == old(w).factory_origin,
{
    handle_resize(&w.game, &mut w.board_size, input.shrink_pressed, input.grow_pressed);
    if w.game.state == GameState::Running {
        if let Some(vel) = input.shoot {
            let shot = Entity::Shot(
                Shot { pos: w.player.pos, vel, drop: DropAfter { time: SHOT_TTL } },
            );
            let ghost pre = w.entities@;
            let k = spawn(&mut w.entities, shot);
            proof {
                assert(arena_spawned(pre, w.entities@, shot_entity(old(w).player.pos, vel),
                    k as int));
                lemma_arena_spawned_wf(pre, w.entities@, shot_entity(old(w).player.pos, vel),
                    k as int);
            }
        }
    }
}

/// One simulation tick, the passes in their fixed order: input, the wave
/// scheduler, both spawn-queue materializations, the armed-flicker feedback,
/// the tower fire pass, the time-to-live pass, the toroidal wrap, the pursuit
/// pass, the collision drain, the extent shrink, the accumulators, the win
/// check, the death side effect, and the tension sample. A pressed reset key
/// preempts all of it: the reset action is the whole tick.
pub fn tick(
    w: &mut World,
    delta: i64,
    input: &InputEvents,
    collisions: &Vec<CollisionEvent>,
) -> (out: TickOutput)
    requires
        old(w).wf(),
        0 <= delta,
        2 * delta <= i64::MAX,
        old(w).time_counter.score + delta <= i64::MAX,
        2 * old(w).entities@.len() + 8 <= MAX_ARENA,
        2 * old(w).entities@.len() + 8 <= usize::MAX,
        old(w).score.score + delta * (2 * old(w).entities@.len() + 8) + 2 * delta <= i64::MAX,
        -BOARD_TICK_BOUND <= old(w).board_size.size <= BOARD_TICK_BOUND,
        collisions@.len() <= MAX_TICK_EVENTS,
        old(w).asteroid_track.iteration < u64::MAX,
        old(w).tower_track.iteration < u64::MAX,
        old(w).asteroid_queue.queue@.len() + 4 <= usize::MAX,
        old(w).tower_queue.queue@.len() + 4 <= usize::MAX,
        (old(w).tower_track.single.spec_fires(delta as int)
            || old(w).tower_track.burst.spec_fires(delta as int)) ==> placement_feasible(
            resized_board(
                old(w).board_size.size as int,
                old(w).game.state,
                input.shrink_pressed,
                input.grow_pressed,
            ),
        ) && placement_extent(
            resized_board(
                old(w).board_size.size as int,
                old(w).game.state,
                input.shrink_pressed,
                input.grow_pressed,
            ),
        ) <= MAX_EXTENT,
    ensures
        final(w).wf(),
        input.reset_pressed ==> final(w).game.state is Running && final(w).board_size.size
            == DEFAULT_EXTENT && final(w).score.score == 0 && final(w).time_counter.score == 0
            && final(w).asteroid_queue.queue@.len() == 0 && final(w).tower_queue.queue@.len()
            == 0 && final(w).asteroid_track.iteration == 0 && final(w).tower_track.iteration
            == 0,
        !input.reset_pressed ==> {
            &&& final(w).asteroid_track == crate::waves::asteroid_track_after(
                old(w).asteroid_track,
                delta as int,
            )
            &&& final(w).tower_track == crate::waves::tower_track_after(
                old(w).tower_track,
                crate::waves::asteroid_track_after(
                    old(w).asteroid_track,
                    delta as int,
                ).iteration as int,
                delta as int,
            )
            &&& final(w).polling == old(w).polling.spec_advanced(delta as int)
            &&& (final(w).game.state is Running ==> old(w).game.state is Running)
            &&& (old(w).game.state is Won ==> final(w).game.state is Won)
            &&& (old(w).game.state is TitleScreen ==> final(w).game.state is TitleScreen)
            &&& (old(w).game.state is Died ==> final(w).game.state is Died)
            &&& (final(w).game.state is Died ==> final(w).board_size.size
                == DEATH_SENTINEL_EXTENT && final(w).score.score == 0
                && final(w).time_counter.score == 0)
            &&& (old(w).game.state is Running && old(w).time_counter.score + delta > WIN_TIME
                && !(final(w).game.state is Died) ==> final(w).game.state is Won)
            &&& exists|mid: Seq<Option<Entity>>|
                {
                    let drained = crate::combat::drain_spec(
                        mid,
                        resized_board(
                            old(w).board_size.size as int,
                            old(w).game.state,
                            input.shrink_pressed,
                            input.grow_pressed,
                        ),
                        old(w).game.state,
                        collisions@,
                    );
                    &&& #[trigger] arena_wf(mid)
                    &&& final(w).entities@.len() == drained.0.len()
                    &&& (forall|i: int|
                        0 <= i < drained.0.len() ==> final(w).entities@[i]
                            == crate::extent::field_advanced_slot(
                            #[trigger] drained.0[i],
                            delta as int,
                        ))
                    &&& final(w).game.state == (if drained.2 is Died {
                        GameState::Died
                    } else if drained.2 is Running && old(w).time_counter.score + delta
                        > WIN_TIME {
                        GameState::Won
                    } else {
                        drained.2
                    })
                    &&& final(w).board_size.size == (if drained.2 is Died {
                        DEATH_SENTINEL_EXTENT as int
                    } else if vstd::math::abs(
                        crate::extent::candidate_extent(final(w).entities@) - drained.1,
                    ) > crate::extent::HYSTERESIS {
                        crate::extent::candidate_extent(final(w).entities@)
                    } else {
                        drained.1
                    })
                    &&& final(w).score.score == (if drained.2 is Died {
                        0int
                    } else {
                        old(w).score.score + delta * field_owner_count(drained.0) + (
                        if drained.2 is Running {
                            2 * delta
                        } else {
                            0int
                        })
                    })
                    &&& final(w).time_counter.score == (if drained.2 is Died {
                        0int
                    } else {
                        old(w).time_counter.score + (if drained.2 is Running {
                            delta as int
                        } else {
                            0int
                        })
                    })
                }
        },
{
    if input.reset_pressed {
        reset(w);
        return TickOutput {
            materialized_asteroid: None,
            materialized_tower: None,
            armed: Vec::new(),
            pursuit: Vec::new(),
            spawned_projectiles: Vec::new(),
            audio: None,
            player_wrapped: false,
        };
    }
    let ghost len0 = w.entities@.len();
    let ghost state0 = w.game.state;
    let ghost time0 = w.time_counter.score as int;
    let ghost score0 = w.score.score as int;

    // Input: debug resize and fire command.
    handle_input(w, input);

    // Wave scheduler: both escalating tracks enqueue spawn requests.
    queue_enemies(
        &mut w.asteroid_track,
        &mut w.tower_track,
        &mut w.asteroid_queue,
        &mut w.tower_queue,
        &w.board_size,
        delta,
    );

    // Spawn queues: each materializes at most one expired request.
    let materialized_asteroid = update_spawn_queue(&mut w.asteroid_queue, &mut w.entities, delta);
    let materialized_tower = spawn_after_finished_queue(&mut w.tower_queue, &mut w.entities, delta);
    proof {
        assert(w.entities@.len() <= len0 + 3);
    }

    // Armed-flicker feedback for the render collaborator.
    let armed = spawn_and_destroy_factories(&mut w.tower_queue, delta);

    // Tower fire pass: advance fire intervals, then spawn the projectiles.
    let ghost pre_fire = w.entities@;
    let firing = tick_fire_timers(&mut w.entities, delta);
    proof {
        crate::spawn::lemma_fired_positions_wf(pre_fire, delta as int);
        assert(firing@.len() <= pre_fire.len());
        assert(w.entities@.len() + firing@.len() <= 2 * len0 + 6);
    }
    let spawned_projectiles = spawn_projectiles_at(&mut w.entities, &firing);
    proof {
        assert(w.entities@.len() <= 2 * len0 + 6);
    }

    // Time-to-live pass.
    drop_them(&mut w.entities, delta);

    // Toroidal wrap, and the pursuit pass for the physics collaborator. A
    // collapsed or oversized extent defines no wrap range; both passes then
    // stand down for the tick.
    let mut player_wrapped = false;
    let mut pursuit: Vec<PursuitImpulse> = Vec::new();
    if 0 < w.board_size.size && w.board_size.size <= MAX_EXTENT {
        player_wrapped = blink_system(&mut w.player, &mut w.entities, &w.board_size);
        pursuit = target_move_player(&w.entities, &w.player, &w.board_size);
    }

    // Combat: drain the collision-pair events.
    let ghost combat_arena = w.entities@;
    let ghost combat_board = w.board_size.size as int;
    proof {
        assert(crate::timer::FIELD_TIMER_CAP * collisions@.len() <= crate::timer::FIELD_TIMER_CAP
            * MAX_TICK_EVENTS) by (nonlinear_arith)
            requires
                collisions@.len() <= MAX_TICK_EVENTS,
        ;
    }
    check_shooted(&mut w.entities, &mut w.board_size, &mut w.game, collisions);
    proof {
        crate::combat::lemma_drain_state(combat_arena, combat_board, state0, collisions@);
    }

    // Extent shrink from accumulated field occupation.
    proof {
        lemma_field_sums_bounded(w.entities@);
        assert(delta * field_owner_count(w.entities@) <= delta * (2 * len0 + 8))
            by (nonlinear_arith)
            requires
                delta >= 0,
                field_owner_count(w.entities@) <= 2 * len0 + 8,
        ;
    }
    time_and_adjust_board(&mut w.entities, &mut w.board_size, &mut w.score, delta);

    // Accumulators, win check, death side effect.
    update_time(&mut w.score, &mut w.time_counter, &w.game, delta);
    check_win_condition(&mut w.game, &w.time_counter);
    on_death(&w.game, &mut w.board_size, &mut w.score, &mut w.time_counter);

    // Tension sample for the audio collaborator.
    let audio = fix_volume(&w.entities, &mut w.polling, delta);

    proof {
        let rb = resized_board(
            old(w).board_size.size as int,
            old(w).game.state,
            input.shrink_pressed,
            input.grow_pressed,
        );
        let drained = crate::combat::drain_spec(combat_arena, rb, old(w).game.state, collisions@);
        assert(combat_board == rb);
        assert(arena_wf(combat_arena));
        assert(w.entities@.len() == drained.0.len());
        assert(forall|i: int|
            0 <= i < drained.0.len() ==> w.entities@[i] == crate::extent::field_advanced_slot(
                #[trigger] drained.0[i],
                delta as int,
            ));
        assert(w.game.state == (if drained.2 is Died {
            GameState::Died
        } else if drained.2 is Running && time0 + delta > WIN_TIME {
            GameState::Won
        } else {
            drained.2
        }));
        assert(w.board_size.size == (if drained.2 is Died {
            DEATH_SENTINEL_EXTENT as int
        } else if vstd::math::abs(
            crate::extent::candidate_extent(w.entities@) - drained.1,
        ) > crate::extent::HYSTERESIS {
            crate::extent::candidate_extent(w.entities@)
        } else {
            drained.1
        }));
        assert(w.score.score == (if drained.2 is Died {
            0int
        } else {
            score0 + delta * field_owner_count(drained.0) + (if drained.2 is Running {
                2 * delta
            } else {
                0int
            })
        }));
        assert(w.time_counter.score == (if drained.2 is Died {
            0int
        } else {
            time0 + (if drained.2 is Running {
                delta as int
            } else {
                0int
            })
        }));
    }

    TickOutput {
        materialized_asteroid,
        materialized_tower,
        armed,
        pursuit,
        spawned_projectiles,
        audio,
        player_wrapped,
    }
}

} // verus!
