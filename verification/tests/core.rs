use danger_zone::aircraft::{Aircraft, AircraftKind, MAX_PITCH_BIAS};
use danger_zone::audio::{Audio, SoundEffect};
use danger_zone::camera::Camera;
use danger_zone::enemies::Enemies;
use danger_zone::enemy::Enemy;
use danger_zone::game::Game;
use danger_zone::guns::Guns;
use danger_zone::hud::Hud;
use danger_zone::id_gen::{IDGenerator, IDKind};
use danger_zone::missile::{Missile, MissileMessage};
use danger_zone::missile_guidance::GuidanceStatus;
use danger_zone::model::Model;
use danger_zone::player::Player;
use danger_zone::targeting_data::TargetingData;
use danger_zone::targeting_sounds::TargetingSounds;
use danger_zone::terrain::{Bounds, Terrain};
use danger_zone::vec3::Vec3;

fn test_game(enemies: Vec<Enemy>, targeting: Option<TargetingData>) -> Game {
    let (tx, rx) = std::sync::mpsc::channel();
    std::mem::forget(rx);
    let bounds = Bounds { x_min: -100, x_max: 100, z_min: -100, z_max: 100 };
    Game {
        player: Player::default(),
        enemies: Enemies { list: enemies },
        missiles: Vec::new(),
        terrain: Terrain::new(Vec::new(), bounds, 0),
        last_launch_time: 0,
        last_target_switch_time: 0,
        targeting_data: targeting,
        targeting_sounds: TargetingSounds::new(),
        hud: Hud::new(),
        audio: Audio::new(tx),
        id_gen: IDGenerator::default(),
    }
}

#[test]
fn model_position() {
    let mut model = Model::default();
    let translation = Vec3::new(500, 1000, 5000);
    model.set_translation(translation);
    assert_eq!(model.position(), translation);
}

#[test]
fn ids_strictly_increase() {
    let mut gen = IDGenerator::default();
    let a = gen.get_new_id_of(IDKind::Enemy);
    let b = gen.get_new_id_of(IDKind::Enemy);
    let c = gen.get_new_id_of(IDKind::Enemy);
    assert_eq!(a, 0);
    assert_eq!(b, 1);
    assert_eq!(c, 2);
    let s = gen.get_new_id_of(IDKind::Sound);
    assert_eq!(s, 0);
}

#[test]
fn pitch_bias_is_clamped() {
    let mut aircraft = Aircraft::new(AircraftKind::Mig21);
    for _ in 0..100 {
        aircraft.pitch(1_000_000);
        assert!(aircraft.controls().pitch_bias().abs() <= MAX_PITCH_BIAS);
    }
    assert_eq!(aircraft.controls().pitch_bias(), MAX_PITCH_BIAS);
}

#[test]
fn gun_cooldown_allows_one_bullet_per_window() {
    // After an initial shot, firing once per frame for 50 frames at 500
    // microseconds per frame covers 25 milliseconds: with a 20 millisecond
    // cooldown exactly one more bullet spawns, not 50.
    let mut guns = Guns::new();
    let camera = Camera::default();
    guns.fire(&camera, 20_000);
    let before = guns.bullets.len();
    assert_eq!(before, 1);
    let mut now: i64 = 20_500;
    for _ in 0..50 {
        guns.fire(&camera, now);
        now += 500;
    }
    assert_eq!(guns.bullets.len() - before, 1);
}

#[test]
fn missile_without_target_counts_down() {
    let camera = Camera::default();
    let mut missile = Missile::new(&camera, None);
    assert_eq!(missile.guidance, GuidanceStatus::Terminating(5000));
    for expected in (0..5000u32).rev() {
        let msg = missile.update(None, 1000);
        assert!(msg.is_none());
        assert_eq!(missile.guidance, GuidanceStatus::Terminating(expected));
        if expected == 0 {
            break;
        }
    }
    assert_eq!(missile.guidance, GuidanceStatus::Terminating(0));
}

#[test]
fn missile_hits_close_target_on_first_update() {
    let camera = Camera::default();
    let mut enemy = Enemy::new(7, AircraftKind::Mig21);
    // Place the enemy 1.5 units (1500 milli-units) from the missile spawn
    // point, which sits half a unit below the camera at (0, 0, 5000).
    enemy.aircraft.model.set_translation(Vec3::new(1500, -500, 5000));
    let mut missile = Missile::new(&camera, Some(&enemy));
    let msg = missile.update(Some(&enemy), 1000);
    assert_eq!(msg, Some(MissileMessage::HitEnemy(7)));
    assert_eq!(missile.guidance, GuidanceStatus::Terminating(5000));
}

#[test]
fn decay_returns_bias_to_zero() {
    let mut aircraft = Aircraft::new(AircraftKind::Mig21);
    aircraft.pitch(400);
    let start = aircraft.controls().pitch_bias();
    assert!(start > 0);
    let mut last = start;
    for _ in 0..2000 {
        aircraft.apply_decay(20_000);
        let bias = aircraft.controls().pitch_bias();
        assert!(bias >= 0 && bias <= last);
        last = bias;
    }
    assert_eq!(last, 0);
}

#[test]
fn lock_acquired_cue_on_crossing() {
    // An enemy dead ahead of the default camera, lock countdown about to
    // cross zero: one tick plays the Locked cue and keeps the lock.
    let enemy = Enemy::new(9, AircraftKind::Mig21);
    let lock = TargetingData { target_id: 9, left_until_lock: 100 };
    let mut game = test_game(vec![enemy], Some(lock));
    game.update_targeting(500);
    assert_eq!(game.targeting_data.map(|d| d.left_until_lock), Some(-400));
    assert_eq!(game.targeting_sounds.current_effect, Some(SoundEffect::Locked));
}

#[test]
fn target_lost_cue_when_target_gone() {
    // A lock on an enemy that no longer exists: the tick drops the lock and
    // plays the Seeking cue.
    let lock = TargetingData { target_id: 4, left_until_lock: 2_000_000 };
    let mut game = test_game(Vec::new(), Some(lock));
    game.update_targeting(500);
    assert!(game.targeting_data.is_none());
    assert_eq!(game.targeting_sounds.current_effect, Some(SoundEffect::Seeking));
}

#[test]
fn targetable_list_is_sorted_by_angle() {
    // Three enemies in the cone at increasing angles off boresight come back
    // nearest-first.
    let mut center = Enemy::new(1, AircraftKind::Mig21);
    center.aircraft.model.set_translation(Vec3::new(0, 0, 0));
    let mut mid = Enemy::new(2, AircraftKind::Mig21);
    mid.aircraft.model.set_translation(Vec3::new(500, 0, 0));
    let mut far = Enemy::new(3, AircraftKind::Mig21);
    far.aircraft.model.set_translation(Vec3::new(1500, 0, 0));
    let game = test_game(vec![mid, far, center], None);
    let ids = game.player.targetable_enemies(&game.enemies).unwrap();
    assert_eq!(ids, vec![1, 2, 3]);
}
