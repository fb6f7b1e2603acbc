//! The audio-tension mapper: samples aggregate hostile health on a fixed
//! polling interval, buckets it into a discrete tension level, and emits the
//! level's fixed target-volume vector as crossfade directives for the audio
//! collaborator.

use vstd::prelude::*;

verus! {

use crate::entity::Entity;
use crate::timer::Repeat;

/// The tension mapper samples at most once per this many time units.
pub const POLL_PERIOD: i64 = 1;

/// The fixed volume (in tenths) of every active layer.
pub const LAYER_VOLUME_TENTHS: i64 = 3;

/// Periodic volume changes are issued as linear crossfades of this length.
pub const CROSSFADE_UNITS: i64 = 3;

/// The very first activation of each layer at startup uses an eased fade-in
/// of this length instead.
pub const STARTUP_FADE_UNITS: i64 = 5;

/// Aggregate-health thresholds of the tension buckets.
pub const TENSION_T1: i64 = 5;

/// See `TENSION_T1`.
pub const TENSION_T2: i64 = 10;

/// See `TENSION_T1`.
pub const TENSION_T3: i64 = 20;

/// See `TENSION_T1`.
pub const TENSION_T4: i64 = 30;

/// The five audio layers: the base layer and four escalation layers.
#[derive(Clone, Copy, PartialEq, Eq, Structural, Debug)]
pub enum AudioChannel {
    Base,
    Layer1,
    Layer2,
    Layer3,
    Layer4,
}

/// How a volume change reaches its target.
#[derive(Clone, Copy, PartialEq, Eq, Structural, Debug)]
pub enum FadeCurve {
    Linear,
    EasedIn,
}

/// One volume directive for the audio collaborator.
#[derive(Clone, Copy, PartialEq, Eq, Structural, Debug)]
pub struct AudioDirective {
    pub channel: AudioChannel,
    pub volume_tenths: i64,
    pub fade_units: i64,
    pub curve: FadeCurve,
}

/// The health a slot contributes to the aggregate.
pub open spec fn health_of(slot: Option<Entity>) -> int {
    match slot {
        Some(Entity::Hostile(h)) => h.health.health as int,
        _ => 0,
    }
}

/// Aggregate health over the whole arena.
pub open spec fn sum_enemy_health(s: Seq<Option<Entity>>) -> int
    decreases s.len(),
{
    if s.len() == 0 {
        0
    } else {
        sum_enemy_health(s.drop_last()) + health_of(s.last())
    }
}

/// The discrete tension bucket of an aggregate health.
pub open spec fn tension_level(sum: int) -> int {
    if sum < TENSION_T1 {
        0
    } else if sum < TENSION_T2 {
        1
    } else if sum < TENSION_T3 {
        2
    } else if sum < TENSION_T4 {
        3
    } else {
        4
    }
}

/// The fixed target volume (in tenths) of each layer at each tension level:
/// each level increment adds one more escalation layer, and the base layer is
/// attenuated once the level reaches three.
pub open spec fn mix_volume_tenths(level: int, channel: AudioChannel) -> int {
    match channel {
        AudioChannel::Base => if level <= 2 {
            LAYER_VOLUME_TENTHS as int
        } else {
            0
        },
        AudioChannel::Layer1 => if level >= 1 {
            LAYER_VOLUME_TENTHS as int
        } else {
            0
        },
        AudioChannel::Layer2 => if level >= 2 {
            LAYER_VOLUME_TENTHS as int
        } else {
            0
        },
        AudioChannel::Layer3 => if level >= 3 {
            LAYER_VOLUME_TENTHS as int
        } else {
            0
        },
        AudioChannel::Layer4 => if level >= 4 {
            LAYER_VOLUME_TENTHS as int
        } else {
            0
        },
    }
}

/// The directive vector one tension sample emits: every layer's target
/// volume, as a linear crossfade.
pub open spec fn mix_directives(level: int) -> Seq<AudioDirective> {
    seq![
        AudioDirective {
            channel: AudioChannel::Base,
            volume_tenths: mix_volume_tenths(level, AudioChannel::Base) as i64,
            fade_units: CROSSFADE_UNITS,
            curve: FadeCurve::Linear,
        },
        AudioDirective {
            channel: AudioChannel::Layer1,
            volume_tenths: mix_volume_tenths(level, AudioChannel::Layer1) as i64,
            fade_units: CROSSFADE_UNITS,
            curve: FadeCurve::Linear,
        },
        AudioDirective {
            channel: AudioChannel::Layer2,
            volume_tenths: mix_volume_tenths(level, AudioChannel::Layer2) as i64,
            fade_units: CROSSFADE_UNITS,
            curve: FadeCurve::Linear,
        },
        AudioDirective {
            channel: AudioChannel::Layer3,
            volume_tenths: mix_volume_tenths(level, AudioChannel::Layer3) as i64,
            fade_units: CROSSFADE_UNITS,
            curve: FadeCurve::Linear,
        },
        AudioDirective {
            channel: AudioChannel::Layer4,
            volume_tenths: mix_volume_tenths(level, AudioChannel::Layer4) as i64,
            fade_units: CROSSFADE_UNITS,
            curve: FadeCurve::Linear,
        },
    ]
}

/// The startup directives: every layer starts playing under an eased fade-in,
/// the base layer at its fixed volume and the escalation layers silent.
pub open spec fn startup_directives_spec() -> Seq<AudioDirective> {
    seq![
        AudioDirective {
            channel: AudioChannel::Base,
            volume_tenths: LAYER_VOLUME_TENTHS,
            fade_units: STARTUP_FADE_UNITS,
            curve: FadeCurve::EasedIn,
        },
        AudioDirective {
            channel: AudioChannel::Layer1,
            volume_tenths: 0,
            fade_units: STARTUP_FADE_UNITS,
            curve: FadeCurve::EasedIn,
        },
        AudioDirective {
            channel: AudioChannel::Layer2,
            volume_tenths: 0,
            fade_units: STARTUP_FADE_UNITS,
            curve: FadeCurve::EasedIn,
        },
        AudioDirective {
            channel: AudioChannel::Layer3,
            volume_tenths: 0,
            fade_units: STARTUP_FADE_UNITS,
            curve: FadeCurve::EasedIn,
        },
        AudioDirective {
            channel: AudioChannel::Layer4,
            volume_tenths: 0,
            fade_units: STARTUP_FADE_UNITS,
            curve: FadeCurve::EasedIn,
        },
    ]
}

/// The startup directives handed to the audio collaborator once, when the
/// five looping layers begin playing.
pub fn setup_audio() -> (dirs: Vec<AudioDirective>)
    ensures
        dirs@ == startup_directives_spec(),
{
    let mut dirs: Vec<AudioDirective> = Vec::new();
    dirs.push(
        AudioDirective {
            channel: AudioChannel::Base,
            volume_tenths: LAYER_VOLUME_TENTHS,
            fade_units: STARTUP_FADE_UNITS,
            curve: FadeCurve::EasedIn,
        },
    );
    dirs.push(
        AudioDirective {
            channel: AudioChannel::Layer1,
            volume_tenths: 0,
            fade_units: STARTUP_FADE_UNITS,
            curve: FadeCurve::EasedIn,
        },
    );
    dirs.push(
        AudioDirective {
            channel: AudioChannel::Layer2,
            volume_tenths: 0,
            fade_units: STARTUP_FADE_UNITS,
            curve: FadeCurve::EasedIn,
        },
    );
    dirs.push(
        AudioDirective {
            channel: AudioChannel::Layer3,
            volume_tenths: 0,
            fade_units: STARTUP_FADE_UNITS,
            curve: FadeCurve::EasedIn,
        },
    );
    dirs.push(
        AudioDirective {
            channel: AudioChannel::Layer4,
            volume_tenths: 0,
            fade_units: STARTUP_FADE_UNITS,
            curve: FadeCurve::EasedIn,
        },
    );
    proof {
        assert(dirs@ =~= startup_directives_spec());
    }
    dirs
}

/// Sum the aggregate hostile health, stopping early once the top tension
/// threshold is reached (the bucket no longer depends on the exact sum).
fn saturating_enemy_health(entities: &Vec<Option<Entity>>) -> (sum: u64)
    ensures
        tension_level(sum as int) == tension_level(sum_enemy_health(entities@)),
{
    let ghost s = entities@;
    let n = entities.len();
    let mut sum: u64 = 0;
    let mut i: usize = 0;
    while i < n
        invariant
            s == entities@,
            n == s.len(),
            i <= n,
            (sum < TENSION_T4 && sum == sum_enemy_health(s.subrange(0, i as int))) || (sum
                >= TENSION_T4 && sum_enemy_health(s.subrange(0, i as int)) >= TENSION_T4),
        decreases n - i,
    {
        let ghost prefix = s.subrange(0, i as int);
        if sum < (TENSION_T4 as u64) {
            match entities[i] {
                Some(Entity::Hostile(h)) => {
                    sum = sum + (h.health.health as u64);
                },
                _ => {},
            }
        }
        proof {
            assert(s.subrange(0, i + 1).drop_last() =~= prefix);
            assert(s.subrange(0, i + 1).last() == s[i as int]);
            assert(health_of(s[i as int]) >= 0);
        }
        i = i + 1;
    }
    proof {
        assert(s.subrange(0, n as int) =~= s);
    }
    sum
}

/// One tick of the tension mapper: advance the polling interval; when it
/// fires, bucket the aggregate hostile health and emit the level's directive
/// vector; between samples, emit nothing.
pub fn fix_volume(
    entities: &Vec<Option<Entity>>,
    polling: &mut Repeat,
    delta: i64,
) -> (dirs: Option<Vec<AudioDirective>>)
    requires
        delta >= 0,
        old(polling).wf(),
    ensures
        final(polling).wf(),
        *final(polling) == old(polling).spec_advanced(delta as int),
        dirs is Some <==> old(polling).spec_fires(delta as int),
        dirs matches Some(v) ==> v@ == mix_directives(tension_level(sum_enemy_health(entities@))),
{
    if !polling.tick(delta) {
        return None;
    }
    let sum = saturating_enemy_health(entities);
    let ghost level = tension_level(sum_enemy_health(entities@));
    let mut v: Vec<AudioDirective> = Vec::new();
    let base_volume: i64 = if sum < (TENSION_T3 as u64) {
        LAYER_VOLUME_TENTHS
    } else {
        0
    };
    v.push(
        AudioDirective {
            channel: AudioChannel::Base,
            volume_tenths: base_volume,
            fade_units: CROSSFADE_UNITS,
            curve: FadeCurve::Linear,
        },
    );
    v.push(
        AudioDirective {
            channel: AudioChannel::Layer1,
            volume_tenths: if sum >= (TENSION_T1 as u64) {
                LAYER_VOLUME_TENTHS
            } else {
                0
            },
            fade_units: CROSSFADE_UNITS,
            curve: FadeCurve::Linear,
        },
    );
    v.push(
        AudioDirective {
            channel: AudioChannel::Layer2,
            volume_tenths: if sum >= (TENSION_T2 as u64) {
                LAYER_VOLUME_TENTHS
            } else {
                0
            },
            fade_units: CROSSFADE_UNITS,
            curve: FadeCurve::Linear,
        },
    );
    v.push(
        AudioDirective {
            channel: AudioChannel::Layer3,
            volume_tenths: if sum >= (TENSION_T3 as u64) {
                LAYER_VOLUME_TENTHS
            } else {
                0
            },
            fade_units: CROSSFADE_UNITS,
            curve: FadeCurve::Linear,
        },
    );
    v.push(
        AudioDirective {
            channel: AudioChannel::Layer4,
            volume_tenths: if sum >= (TENSION_T4 as u64) {
                LAYER_VOLUME_TENTHS
            } else {
                0
            },
            fade_units: CROSSFADE_UNITS,
            curve: FadeCurve::Linear,
        },
    );
    proof {
        assert(v@ =~= mix_directives(level));
    }
    Some(v)
}

} // verus!
