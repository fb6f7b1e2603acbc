//! Game state machine and the scalar world resources: extent, score and the
//! running time counter.

use vstd::prelude::*;

verus! {

/// The world extent every game starts from, and that a reset restores.
pub const DEFAULT_EXTENT: i64 = 800;

/// The extent is forced to this sentinel on entering the died state: an
/// intentional visual collapse, corrected only by a reset.
pub const DEATH_SENTINEL_EXTENT: i64 = -500;

/// Once the time counter exceeds this many time units while running, the game
/// is won.
pub const WIN_TIME: i64 = 100;

/// One manual debug-resize key event changes the extent by this much.
pub const RESIZE_STEP: i64 = 10;

/// The four game states. Exactly one is active at a time.
#[derive(Clone, Copy, PartialEq, Eq, Structural, Debug)]
pub enum GameState {
    TitleScreen,
    Running,
    Died,
    Won,
}

/// The active game state.
#[derive(Clone, Copy, PartialEq, Eq, Structural, Debug)]
pub struct CurrentGame {
    pub state: GameState,
}

/// The world extent: the side length of the square toroidal playing field.
/// Strictly positive except during the died-sentinel window.
#[derive(Clone, Copy, PartialEq, Eq, Structural, Debug)]
pub struct BoardSize {
    pub size: i64,
}

/// The score accumulator, counted in half time-units so that the half-rate
/// contribution of each occupied field stays exact: running time adds two per
/// time unit, every live field-timer owner adds one more per time unit.
#[derive(Clone, Copy, PartialEq, Eq, Structural, Debug)]
pub struct Score {
    pub score: i64,
}

/// The simulation-time accumulator the win condition is checked against.
#[derive(Clone, Copy, PartialEq, Eq, Structural, Debug)]
pub struct TimeCounter {
    pub score: i64,
}

/// Advance the score and time accumulators by one tick's delta. They only
/// accumulate while the game is running.
pub fn update_time(
    score: &mut Score,
    time_counter: &mut TimeCounter,
    game: &CurrentGame,
    delta: i64,
)
    requires
        delta >= 0,
        2 * delta <= i64::MAX,
        old(score).score + 2 * delta <= i64::MAX,
        old(time_counter).score + delta <= i64::MAX,
    ensures
        game.state is Running ==> final(score).score == old(score).score + 2 * delta,
        game.state is Running ==> final(time_counter).score == old(time_counter).score + delta,
        !(game.state is Running) ==> *final(score) == *old(score),
        !(game.state is Running) ==> *final(time_counter) == *old(time_counter),
{
    if game.state == GameState::Running {
        score.score = score.score + 2 * delta;
        time_counter.score = time_counter.score + delta;
    }
}

/// The side effect of being in the died state, applied every tick until a
/// reset: the extent collapses to the sentinel and both accumulators are
/// zeroed.
pub fn on_death(
    game: &CurrentGame,
    board_size: &mut BoardSize,
    score: &mut Score,
    time_counter: &mut TimeCounter,
)
    ensures
        game.state is Died ==> final(board_size).size == DEATH_SENTINEL_EXTENT,
        game.state is Died ==> final(score).score == 0 && final(time_counter).score == 0,
        !(game.state is Died) ==> *final(board_size) == *old(board_size),
        !(game.state is Died) ==> *final(score) == *old(score),
        !(game.state is Died) ==> *final(time_counter) == *old(time_counter),
{
    if game.state == GameState::Died {
        board_size.size = DEATH_SENTINEL_EXTENT;
        score.score = 0;
        time_counter.score = 0;
    }
}

/// The win check, run every tick while running: once the time counter exceeds
/// the win threshold the game is won. No other state is touched.
pub fn check_win_condition(game: &mut CurrentGame, time_counter: &TimeCounter)
    ensures
        final(game).state == if old(game).state is Running && time_counter.score > WIN_TIME {
            GameState::Won
        } else {
            old(game).state
        },
{
    if game.state == GameState::Running && time_counter.score > WIN_TIME {
        game.state = GameState::Won;
    }
}

/// Apply the manual debug-resize key events to the extent, one step down for
/// a shrink press and one step up for a grow press, unclamped. Input is only
/// handled while the game is running.
pub fn handle_resize(
    game: &CurrentGame,
    board_size: &mut BoardSize,
    shrink_pressed: bool,
    grow_pressed: bool,
)
    requires
        i64::MIN + RESIZE_STEP <= old(board_size).size <= i64::MAX - RESIZE_STEP,
    ensures
        final(board_size).size == if game.state is Running {
            old(board_size).size - (if shrink_pressed {
                RESIZE_STEP as int
            } else {
                0
            }) + (if grow_pressed {
                RESIZE_STEP as int
            } else {
                0
            })
        } else {
            old(board_size).size as int
        },
{
    if game.state == GameState::Running {
        if shrink_pressed {
            board_size.size = board_size.size - RESIZE_STEP;
        }
        if grow_pressed {
            board_size.size = board_size.size + RESIZE_STEP;
        }
    }
}

} // verus!
