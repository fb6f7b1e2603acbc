use astro_core::entity::{EnemyHelth, Entity, Hostile, HostileKind, Velocity};
use astro_core::space::Position;
use astro_core::tension::{fix_volume, setup_audio, AudioChannel, FadeCurve};
use astro_core::timer::Repeat;

fn hostile_with_health(health: u32) -> Option<Entity> {
    Some(Entity::Hostile(Hostile {
        kind: HostileKind::Asteroid,
        pos: Position { x: 0, y: 0 },
        vel: Velocity { x: 0, y: 0 },
        health: EnemyHelth { health },
        field: None,
        fire: None,
    }))
}

fn volumes_for(healths: &[u32]) -> Vec<i64> {
    let entities: Vec<Option<Entity>> = healths.iter().map(|&h| hostile_with_health(h)).collect();
    let mut polling = Repeat::new(1);
    let dirs = fix_volume(&entities, &mut polling, 1).expect("the poll fires at one unit");
    assert_eq!(dirs.len(), 5);
    assert_eq!(dirs[0].channel, AudioChannel::Base);
    assert_eq!(dirs[1].channel, AudioChannel::Layer1);
    assert_eq!(dirs[2].channel, AudioChannel::Layer2);
    assert_eq!(dirs[3].channel, AudioChannel::Layer3);
    assert_eq!(dirs[4].channel, AudioChannel::Layer4);
    for d in &dirs {
        assert_eq!(d.fade_units, 3, "periodic changes are three-unit crossfades");
        assert_eq!(d.curve, FadeCurve::Linear);
    }
    dirs.iter().map(|d| d.volume_tenths).collect()
}

#[test]
fn tension_level_zero_plays_only_the_base_layer() {
    assert_eq!(volumes_for(&[]), vec![3, 0, 0, 0, 0]);
    assert_eq!(volumes_for(&[3]), vec![3, 0, 0, 0, 0]);
    assert_eq!(volumes_for(&[4]), vec![3, 0, 0, 0, 0]);
}

#[test]
fn tension_levels_add_one_layer_each() {
    // Sum five reaches level one.
    assert_eq!(volumes_for(&[5]), vec![3, 3, 0, 0, 0]);
    assert_eq!(volumes_for(&[3, 3, 3]), vec![3, 3, 0, 0, 0]);
    // Sum ten reaches level two.
    assert_eq!(volumes_for(&[10]), vec![3, 3, 3, 0, 0]);
    assert_eq!(volumes_for(&[10, 9]), vec![3, 3, 3, 0, 0]);
    // Sum twenty reaches level three and attenuates the base layer.
    assert_eq!(volumes_for(&[10, 10]), vec![0, 3, 3, 3, 0]);
    // Sum thirty reaches level four.
    assert_eq!(volumes_for(&[10, 10, 10]), vec![0, 3, 3, 3, 3]);
    assert_eq!(volumes_for(&[100, 100]), vec![0, 3, 3, 3, 3]);
}

#[test]
fn tension_sample_waits_for_the_polling_interval() {
    let entities: Vec<Option<Entity>> = vec![];
    let mut polling = Repeat::new(1);
    assert!(fix_volume(&entities, &mut polling, 0).is_none());
    assert!(fix_volume(&entities, &mut polling, 1).is_some());
    assert!(fix_volume(&entities, &mut polling, 0).is_none());
}

#[test]
fn startup_directives_use_the_eased_fade_in() {
    let dirs = setup_audio();
    assert_eq!(dirs.len(), 5);
    assert_eq!(dirs[0].channel, AudioChannel::Base);
    assert_eq!(dirs[0].volume_tenths, 3);
    for d in &dirs {
        assert_eq!(d.fade_units, 5, "first activation uses the five-unit fade");
        assert_eq!(d.curve, FadeCurve::EasedIn);
    }
    for d in &dirs[1..] {
        assert_eq!(d.volume_tenths, 0, "escalation layers start silent");
    }
}
