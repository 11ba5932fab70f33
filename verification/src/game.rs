//! The per-frame orchestrator: drives flight control, enemy AI, guns,
//! missiles and target locking, and reports collisions and hits back to the
//! shell that owns the window and the clock.

use vstd::prelude::*;
use crate::audio::{Audio, SoundEffect};
use crate::enemies::{enemies_wf, ids_issued, room_for, Enemies, TARGET_ENEMIES};
use crate::guns::{BULLET_COOLDOWN, TIME_MAX};
use crate::hud::{hud_unchanged, hud_update_rel, hud_wf, Hud};
use crate::id_gen::{IDGenerator, IDKind};
use crate::missile::{EnemyID, Missile, MissileMessage};
use crate::missile_guidance::GuidanceStatus;
use crate::player::{in_cone_spec, player_wf, Player};
use crate::targeting_data::{TargetingData, LOCKING_TIME};
use crate::targeting_sounds::TargetingSounds;
use crate::terrain::{terrain_wf, Terrain};

verus! {

/// Cooldown between missile launches, in microseconds.
pub const MISSILE_COOLDOWN: i64 = 500_000;

/// Cooldown between target switches, in microseconds.
pub const SWITCH_COOLDOWN: i64 = 500_000;

pub struct Game {
    pub player: Player,
    pub enemies: Enemies,
    pub missiles: Vec<Missile>,
    pub terrain: Terrain,
    pub last_launch_time: i64,
    pub last_target_switch_time: i64,
    pub targeting_data: Option<TargetingData>,
    pub targeting_sounds: TargetingSounds,
    pub hud: Hud,
    pub audio: Audio,
    pub id_gen: IDGenerator,
}

/// The whole-game invariant between frames.
pub open spec fn game_wf(g: Game) -> bool {
    &&& player_wf(g.player)
    &&& enemies_wf(g.enemies)
    &&& terrain_wf(g.terrain)
    &&& ids_issued(g.enemies, g.id_gen)
    &&& forall|i: int| 0 <= i < g.missiles@.len() ==> crate::missile::missile_wf(#[trigger] g.missiles@[i])
    &&& missiles_ready(g)
    &&& hud_wf(g.hud)
    &&& 0 <= g.last_launch_time <= TIME_MAX
    &&& 0 <= g.last_target_switch_time <= TIME_MAX
    &&& (g.targeting_data matches Some(d) ==> -10_000_000 <= d.left_until_lock <= LOCKING_TIME)
}

/// No missile sits at the end of its countdown: the orchestrator removes
/// them the same frame the countdown reaches zero.
pub open spec fn missiles_ready(g: Game) -> bool {
    forall|i: int|
        0 <= i < g.missiles@.len() ==> ((#[trigger] g.missiles@[i]).guidance matches
        GuidanceStatus::Terminating(t) ==> t >= 1)
}

/// Room to issue `n` more sound IDs.
pub open spec fn sound_room(g: IDGenerator, n: int) -> bool {
    match g.last_of(IDKind::Sound) {
        Some(last) => last + n <= u32::MAX,
        None => n <= u32::MAX,
    }
}

/// The enemy a missile is handed for its tick: the live holder of its
/// target ID, or nothing for a terminating missile or a dead target.
pub open spec fn enemy_for_missile(es: Seq<crate::enemy::Enemy>, m: Missile) -> Option<
    crate::enemy::Enemy,
> {
    match crate::missile::missile_target_spec(m) {
        Some(id) => crate::enemies::enemy_by_id_spec(es, id),
        None => None,
    }
}

/// Every missile after one guidance pass against the enemies `es`.
pub open spec fn updated_missiles_spec(
    ms: Seq<Missile>,
    es: Seq<crate::enemy::Enemy>,
    dt: int,
) -> Seq<Missile> {
    Seq::new(
        ms.len(),
        |i: int| crate::missile::updated_missile_spec(ms[i], enemy_for_missile(es, ms[i]), dt),
    )
}

/// The IDs of enemies hit during one guidance pass: one entry per hitting
/// missile, in missile order.
pub open spec fn hit_ids_spec(ms: Seq<Missile>, es: Seq<crate::enemy::Enemy>, dt: int) -> Seq<
    EnemyID,
>
    decreases ms.len(),
{
    if ms.len() == 0 {
        Seq::empty()
    } else {
        let rest = hit_ids_spec(ms.drop_last(), es, dt);
        match crate::missile::update_msg_spec(
            ms.last(),
            enemy_for_missile(es, ms.last()),
            dt,
        ) {
            Some(MissileMessage::HitEnemy(id)) => rest.push(id),
            _ => rest,
        }
    }
}

/// The missiles that survive a frame: every one whose termination countdown
/// has not reached zero, in order.
pub open spec fn pruned_missiles_spec(s: Seq<Missile>) -> Seq<Missile>
    decreases s.len(),
{
    if s.len() == 0 {
        Seq::empty()
    } else {
        let rest = pruned_missiles_spec(s.drop_last());
        if s.last().guidance == GuidanceStatus::Terminating(0u32) {
            rest
        } else {
            rest.push(s.last())
        }
    }
}

/// What one non-colliding frame does to the populations, witnessed by the
/// respawned enemy set `spawned`, the post-flight set `flown` and the
/// gun-hit IDs `hits`: the population is topped up keeping the survivors in
/// place, every enemy flies one tick, the missiles run one guidance pass
/// against the flown enemies and the expired ones leave, the enemies hit by
/// missiles and then by guns are removed, and no removed ID survives.
pub open spec fn frame_rel(
    pre: Game,
    post: Game,
    spawned: Seq<crate::enemy::Enemy>,
    flown: Seq<crate::enemy::Enemy>,
    hits: Seq<EnemyID>,
    dt: int,
    now: int,
) -> bool {
    let shot = hit_ids_spec(pre.missiles@, flown, dt);
    let after_shot = crate::enemies::surviving_spec(flown, shot);
    &&& spawned.len() == TARGET_ENEMIES as int
    &&& spawned.subrange(0, pre.enemies.list@.len() as int) == pre.enemies.list@
    &&& flown.len() == spawned.len()
    &&& (forall|i: int|
        0 <= i < flown.len() ==> crate::enemy::fly_rel(
            spawned[i],
            #[trigger] flown[i],
            pre.terrain,
            dt,
        ))
    &&& post.missiles@ == pruned_missiles_spec(updated_missiles_spec(pre.missiles@, flown, dt))
    &&& (forall|id: EnemyID|
        #[trigger] hits.contains(id) <==> exists|i: int|
            0 <= i < after_shot.len() && (#[trigger] after_shot[i]).id == id
                && crate::guns::bullets_hit(
                crate::guns::updated_bullets_spec(pre.player.aircraft.guns.bullets@, dt, now),
                after_shot[i].aircraft.model.transformation.translation,
            ))
    &&& post.enemies.list@ == (if hits.len() == 0 {
        after_shot
    } else {
        crate::enemies::surviving_spec(after_shot, hits)
    })
    &&& (forall|i: int|
        0 <= i < post.enemies.list@.len() ==> !shot.contains(
            (#[trigger] post.enemies.list@[i]).id,
        ) && !hits.contains(post.enemies.list@[i].id))
}

/// Assembles `frame_rel` from the facts the frame's phases establish.
#[verifier::rlimit(100)]
proof fn lemma_frame_rel(
    pre: Game,
    post: Game,
    spawned: Seq<crate::enemy::Enemy>,
    flown: Seq<crate::enemy::Enemy>,
    hits: Seq<EnemyID>,
    before2: Seq<crate::enemy::Enemy>,
    dt: int,
    now: int,
)
    requires
        spawned.len() == TARGET_ENEMIES as int,
        spawned.subrange(0, pre.enemies.list@.len() as int) == pre.enemies.list@,
        flown.len() == spawned.len(),
        forall|i: int|
            0 <= i < flown.len() ==> crate::enemy::fly_rel(
                spawned[i],
                #[trigger] flown[i],
                pre.terrain,
                dt,
            ),
        post.missiles@ == pruned_missiles_spec(updated_missiles_spec(pre.missiles@, flown, dt)),
        before2 == crate::enemies::surviving_spec(flown, hit_ids_spec(pre.missiles@, flown, dt)),
        post.player.aircraft.guns.bullets@ == crate::guns::updated_bullets_spec(
            pre.player.aircraft.guns.bullets@,
            dt,
            now,
        ),
        hits.len() > 0 ==> forall|id: EnemyID|
            #[trigger] hits.contains(id) <==> exists|i: int|
                0 <= i < before2.len() && (#[trigger] before2[i]).id == id
                    && post.player.aircraft.guns.hits_enemy(
                    before2[i].aircraft.model.transformation.translation,
                ),
        hits.len() == 0 ==> !exists|i: int|
            0 <= i < before2.len() && post.player.aircraft.guns.hits_enemy(
                (#[trigger] before2[i]).aircraft.model.transformation.translation,
            ),
        post.enemies.list@ == (if hits.len() == 0 {
            before2
        } else {
            crate::enemies::surviving_spec(before2, hits)
        }),
        forall|i: int|
            0 <= i < before2.len() ==> !hit_ids_spec(pre.missiles@, flown, dt).contains(
                (#[trigger] before2[i]).id,
            ),
        hits.len() > 0 ==> forall|i: int|
            0 <= i < post.enemies.list@.len() ==> !hits.contains(
                (#[trigger] post.enemies.list@[i]).id,
            ) && before2.contains(post.enemies.list@[i]),
    ensures
        frame_rel(pre, post, spawned, flown, hits, dt, now),
{
    let shot = hit_ids_spec(pre.missiles@, flown, dt);
    let bullets = crate::guns::updated_bullets_spec(pre.player.aircraft.guns.bullets@, dt, now);
    assert forall|id: EnemyID| #[trigger] hits.contains(id) implies exists|i: int|
        0 <= i < before2.len() && (#[trigger] before2[i]).id == id && crate::guns::bullets_hit(
            bullets,
            before2[i].aircraft.model.transformation.translation,
        ) by {
        if hits.len() > 0 {
            let i = choose|i: int|
                0 <= i < before2.len() && (#[trigger] before2[i]).id == id
                    && post.player.aircraft.guns.hits_enemy(
                    before2[i].aircraft.model.transformation.translation,
                );
        }
    }
    assert forall|id: EnemyID|
        (exists|i: int|
            0 <= i < before2.len() && (#[trigger] before2[i]).id == id && crate::guns::bullets_hit(
                bullets,
                before2[i].aircraft.model.transformation.translation,
            )) implies #[trigger] hits.contains(id) by {
        let i = choose|i: int|
            0 <= i < before2.len() && (#[trigger] before2[i]).id == id && crate::guns::bullets_hit(
                bullets,
                before2[i].aircraft.model.transformation.translation,
            );
        assert(post.player.aircraft.guns.hits_enemy(
            before2[i].aircraft.model.transformation.translation,
        ));
        if hits.len() == 0 {
            assert(false);
        }
    }
    assert forall|i: int| 0 <= i < post.enemies.list@.len() implies !shot.contains(
        (#[trigger] post.enemies.list@[i]).id,
    ) && !hits.contains(post.enemies.list@[i].id) by {
        if hits.len() == 0 {
            assert(post.enemies.list@[i] == before2[i]);
        } else {
            assert(before2.contains(post.enemies.list@[i]));
            let w = choose|w: int| 0 <= w < before2.len() && before2[w] == post.enemies.list@[i];
            assert(!shot.contains(before2[w].id));
        }
    }
}

/// Whether the player's camera sits below the terrain under it.
pub open spec fn terrain_collision_spec(g: Game) -> bool {
    g.player.camera.position.y < crate::fixed::clamp_spec(
        crate::terrain::raw_height_spec(
            g.terrain.heights@,
            crate::fixed::clamp_spec(
                crate::fixed::tdiv(g.player.camera.position.x as int, 1000),
                -crate::fixed::COORD_MAX as int,
                crate::fixed::COORD_MAX as int,
            ),
            crate::fixed::clamp_spec(
                crate::fixed::tdiv(g.player.camera.position.z as int, 1000),
                -crate::fixed::COORD_MAX as int,
                crate::fixed::COORD_MAX as int,
            ),
        ) + g.terrain.translation_y + 800,
        -crate::fixed::COORD_MAX as int,
        crate::fixed::COORD_MAX as int,
    )
}

/// The audio cues one targeting pass owes: nothing while the lock simply
/// ticks or stands, a freshly issued `Locked` cue the moment the countdown
/// crosses below zero with the target still in the cone, and a freshly
/// issued `Seeking` cue the moment the target leaves the cone (after the
/// `Locked` cue when both happen in one pass).
pub open spec fn targeting_cues_rel(pre: Game, post: Game, dt: int) -> bool {
    pre.targeting_data matches Some(d) ==> {
        let crossing = d.left_until_lock > 0 && d.left_until_lock - dt < 0;
        let lost = !target_in_cone(pre, d.target_id);
        &&& (!crossing && !lost ==> post.targeting_sounds.current
            == pre.targeting_sounds.current && post.targeting_sounds.current_effect
            == pre.targeting_sounds.current_effect && post.id_gen == pre.id_gen)
        &&& (crossing && !lost ==> post.targeting_sounds.current == Some(
            pre.id_gen.next_of(IDKind::Sound),
        ) && post.targeting_sounds.current_effect == Some(SoundEffect::Locked)
            && post.id_gen.last_of(IDKind::Sound) == Some(pre.id_gen.next_of(IDKind::Sound))
            && post.id_gen.last_of(IDKind::Enemy) == pre.id_gen.last_of(IDKind::Enemy))
        &&& (!crossing && lost ==> post.targeting_sounds.current == Some(
            pre.id_gen.next_of(IDKind::Sound),
        ) && post.targeting_sounds.current_effect == Some(SoundEffect::Seeking)
            && post.id_gen.last_of(IDKind::Sound) == Some(pre.id_gen.next_of(IDKind::Sound))
            && post.id_gen.last_of(IDKind::Enemy) == pre.id_gen.last_of(IDKind::Enemy))
        &&& (crossing && lost ==> post.targeting_sounds.current == Some(
            ((pre.id_gen.next_of(IDKind::Sound) + 1) as u32),
        ) && post.targeting_sounds.current_effect == Some(SoundEffect::Seeking)
            && post.id_gen.last_of(IDKind::Sound) == Some(
            ((pre.id_gen.next_of(IDKind::Sound) + 1) as u32),
        ) && post.id_gen.last_of(IDKind::Enemy) == pre.id_gen.last_of(IDKind::Enemy))
    }
}

/// Whether the enemy holding `id` is inside the player's targeting cone.
pub open spec fn target_in_cone(g: Game, id: EnemyID) -> bool {
    exists|i: int|
        0 <= i < g.enemies.list@.len() && (#[trigger] g.enemies.list@[i]).id == id && in_cone_spec(
            g.player.camera,
            g.enemies.list@[i].aircraft.model.transformation.translation,
        )
}

impl Game {
    /// A fresh session: default player, a full enemy population scattered at
    /// random, no missiles, both action cooldowns already expired, the
    /// seeking cue playing.
    pub fn new(audio: Audio, terrain: Terrain, now: i64) -> (r: Game)
        requires
            terrain_wf(terrain),
            SWITCH_COOLDOWN <= now <= TIME_MAX,
        ensures
            game_wf(r),
            r.enemies.list@.len() == TARGET_ENEMIES as int,
            r.missiles@.len() == 0,
            r.targeting_data is None,
            r.last_launch_time == now - MISSILE_COOLDOWN,
            r.last_target_switch_time == now - SWITCH_COOLDOWN,
    {
        let mut id_gen = IDGenerator::default();
        let mut enemies = Enemies::new();
        enemies.respawn_enemies(&mut id_gen);
        enemies.randomize_positions();
        let mut targeting_sounds = TargetingSounds::new();
        audio.play(SoundEffect::CockpitAmbient, true, &mut id_gen);
        targeting_sounds.play(SoundEffect::Seeking, &audio, &mut id_gen);
        Game {
            player: Player::default(),
            enemies,
            missiles: Vec::new(),
            terrain,
            last_launch_time: now - MISSILE_COOLDOWN,
            last_target_switch_time: now - SWITCH_COOLDOWN,
            targeting_data: None,
            targeting_sounds,
            hud: Hud::new(),
            audio,
            id_gen,
        }
    }

    /// Keep the enemy population at its target size.
    pub fn respawn_enemies(&mut self)
        requires
            game_wf(*old(self)),
            old(self).enemies.list@.len() <= TARGET_ENEMIES as int,
            room_for(old(self).id_gen, TARGET_ENEMIES as int),
        ensures
            game_wf(*final(self)),
            final(self).enemies.list@.len() == TARGET_ENEMIES as int,
            final(self).missiles@ == old(self).missiles@,
            final(self).player == old(self).player,
            final(self).targeting_data == old(self).targeting_data,
    {
        self.enemies.respawn_enemies(&mut self.id_gen);
    }

    /// Count the lock timer down while a target is held, announce the lock
    /// when the timer crosses zero, and drop the lock the moment the target
    /// leaves the cone.
    pub fn update_targeting(&mut self, dt: i64)
        requires
            game_wf(*old(self)),
            0 <= dt <= 10_000_000,
            sound_room(old(self).id_gen, 2),
        ensures
            game_wf(*final(self)),
            final(self).player == old(self).player,
            final(self).enemies.list@ == old(self).enemies.list@,
            final(self).missiles@ == old(self).missiles@,
            final(self).last_launch_time == old(self).last_launch_time,
            final(self).last_target_switch_time == old(self).last_target_switch_time,
            old(self).targeting_data is None ==> *final(self) == *old(self),
            old(self).targeting_data is None ==> final(self).targeting_data is None,
            (old(self).targeting_data matches Some(d) ==> {
                let ticked = if d.left_until_lock > 0 {
                    TargetingData {
                        target_id: d.target_id,
                        left_until_lock: (d.left_until_lock - dt) as i64,
                    }
                } else {
                    d
                };
                if target_in_cone(*old(self), d.target_id) {
                    final(self).targeting_data == Some(ticked)
                } else {
                    final(self).targeting_data is None
                }
            }),
            targeting_cues_rel(*old(self), *final(self), dt as int),
            hud_unchanged(final(self).hud, old(self).hud),
    {
        match &self.targeting_data {
            Some(data) => {
                if data.left_until_lock > 0 {
                    let ticked = TargetingData {
                        target_id: data.target_id,
                        left_until_lock: data.left_until_lock - dt,
                    };
                    self.targeting_data = Some(ticked);
                    if ticked.left_until_lock < 0 {
                        self.targeting_sounds.play(
                            SoundEffect::Locked,
                            &self.audio,
                            &mut self.id_gen,
                        );
                    }
                }
            }
            None => {},
        }
        match &self.targeting_data {
            Some(data) => {
                let target_id = data.target_id;
                let still_there = match self.player.targetable_enemies(&self.enemies) {
                    Some(v) => contains_id(&v, target_id),
                    None => false,
                };
                if !still_there {
                    self.targeting_sounds.play(
                        SoundEffect::Seeking,
                        &self.audio,
                        &mut self.id_gen,
                    );
                    self.targeting_data = None;
                }
            }
            None => {},
        }
    }

    /// Acquire (or re-acquire) a lock on the enemy nearest the center of
    /// view, rate-limited by `SWITCH_COOLDOWN`. The attempt consumes the
    /// cooldown whether or not a candidate exists.
    pub fn switch_target(&mut self, now: i64)
        requires
            game_wf(*old(self)),
            0 <= now <= TIME_MAX,
            sound_room(old(self).id_gen, 1),
        ensures
            game_wf(*final(self)),
            final(self).player == old(self).player,
            final(self).enemies.list@ == old(self).enemies.list@,
            final(self).missiles@ == old(self).missiles@,
            old(self).last_target_switch_time + SWITCH_COOLDOWN > now ==> *final(self) == *old(self),
            old(self).last_target_switch_time + SWITCH_COOLDOWN <= now ==> {
                &&& final(self).last_target_switch_time == now
                &&& ((exists|i: int|
                    0 <= i < old(self).enemies.list@.len() && in_cone_spec(
                        old(self).player.camera,
                        (#[trigger] old(self).enemies.list@[i]).aircraft.model.transformation.translation,
                    )) ==> (final(self).targeting_data matches Some(d) && d.left_until_lock
                    == LOCKING_TIME && target_in_cone(*old(self), d.target_id)
                    && final(self).targeting_sounds.current == Some(
                    old(self).id_gen.next_of(IDKind::Sound),
                ) && final(self).targeting_sounds.current_effect == Some(SoundEffect::Locking)
                    && final(self).id_gen.last_of(IDKind::Sound) == Some(
                    old(self).id_gen.next_of(IDKind::Sound),
                ) && final(self).id_gen.last_of(IDKind::Enemy) == old(self).id_gen.last_of(
                    IDKind::Enemy,
                ) && (forall|i: int|
                    0 <= i < old(self).enemies.list@.len() && in_cone_spec(
                        old(self).player.camera,
                        (#[trigger] old(self).enemies.list@[i]).aircraft.model.transformation.translation,
                    ) ==> crate::player::key_of_id(
                        old(self).player.camera,
                        old(self).enemies,
                        d.target_id,
                    ) >= crate::player::key_of_id(
                        old(self).player.camera,
                        old(self).enemies,
                        old(self).enemies.list@[i].id,
                    ))))
                &&& (!(exists|i: int|
                    0 <= i < old(self).enemies.list@.len() && in_cone_spec(
                        old(self).player.camera,
                        (#[trigger] old(self).enemies.list@[i]).aircraft.model.transformation.translation,
                    )) ==> *final(self) == (Game {
                    last_target_switch_time: now,
                    ..*old(self)
                }))
            },
    {
        if self.last_target_switch_time + SWITCH_COOLDOWN > now {
            return ;
        }
        match self.player.targeted_enemy_id_nth(&self.enemies, 0) {
            Some(new_id) => {
                self.targeting_data = Some(TargetingData::new(new_id));
                self.targeting_sounds.play(SoundEffect::Locking, &self.audio, &mut self.id_gen);
            }
            None => {},
        }
        self.last_target_switch_time = now;
    }

    /// Launch a missile at the locked target, rate-limited by
    /// `MISSILE_COOLDOWN`. A launch attempted before the lock completes is
    /// refused but still consumes the cooldown; a completed lock guarantees
    /// the launch and clears the lock.
    pub fn launch_missile(&mut self, now: i64)
        requires
            game_wf(*old(self)),
            0 <= now <= TIME_MAX,
            sound_room(old(self).id_gen, 2),
        ensures
            game_wf(*final(self)),
            final(self).player == old(self).player,
            final(self).enemies.list@ == old(self).enemies.list@,
            old(self).last_launch_time + MISSILE_COOLDOWN > now ==> *final(self) == *old(self),
            old(self).last_launch_time + MISSILE_COOLDOWN <= now ==> {
                &&& (old(self).targeting_data is None ==> *final(self) == *old(self))
                &&& (old(self).targeting_data matches Some(d) ==> (if d.left_until_lock > 0 {
                    *final(self) == (Game { last_launch_time: now, ..*old(self) })
                } else {
                    &&& final(self).missiles@ == old(self).missiles@.push(
                        final(self).missiles@.last(),
                    )
                    &&& ({
                        let m = final(self).missiles@.last();
                        &&& m.model.orientation == old(self).player.camera.orientation
                        &&& m.model.transformation.translation
                            == crate::missile::missile_spawn_spec(old(self).player.camera)
                        &&& m.model.transformation.scale == 1000
                        &&& m.guidance == (match crate::enemies::enemy_by_id_spec(
                            old(self).enemies.list@,
                            d.target_id,
                        ) {
                            Some(e) => GuidanceStatus::Active(
                                crate::missile_guidance::GuidanceData {
                                    target_id: d.target_id,
                                    bezier: crate::missile::launch_bezier_spec(
                                        old(self).player.camera,
                                        e.aircraft.model.transformation.translation,
                                    ),
                                    progress: 0i64,
                                },
                            ),
                            None => GuidanceStatus::Terminating(
                                crate::missile_guidance::TERMINATION_TIME,
                            ),
                        })
                    })
                    &&& final(self).targeting_data is None
                    &&& final(self).last_launch_time == now
                    &&& final(self).targeting_sounds.current == Some(
                        ((old(self).id_gen.next_of(IDKind::Sound) + 1) as u32),
                    )
                    &&& final(self).targeting_sounds.current_effect == Some(SoundEffect::Seeking)
                    &&& final(self).id_gen.last_of(IDKind::Sound) == Some(
                        ((old(self).id_gen.next_of(IDKind::Sound) + 1) as u32),
                    )
                    &&& final(self).id_gen.last_of(IDKind::Enemy) == old(self).id_gen.last_of(
                        IDKind::Enemy,
                    )
                }))
            },
    {
        if self.last_launch_time + MISSILE_COOLDOWN > now {
            return ;
        }
        let data = match &self.targeting_data {
            Some(d) => *d,
            None => {
                return ;
            }
        };
        if data.left_until_lock > 0 {
            self.last_launch_time = now;
            return ;
        }
        let ghost prior = self.missiles@;
        let enemy = self.enemies.get_by_id(data.target_id);
        let missile = Missile::new(&self.player.camera, enemy);
        self.missiles.push(missile);
        proof {
            assert(self.missiles@ =~= prior.push(missile));
            assert(self.missiles@.last() == missile);
        }
        self.audio.play(SoundEffect::MissileLaunch, false, &mut self.id_gen);
        self.targeting_sounds.play(SoundEffect::Seeking, &self.audio, &mut self.id_gen);
        self.last_launch_time = now;
        self.targeting_data = None;
    }

    /// Hand every missile its target (when it still lives) for one guidance
    /// tick; collect the IDs of enemies that were hit. A hit also releases
    /// the player's lock.
    pub fn update_missiles(&mut self, dt: i64) -> (shot_down: Vec<EnemyID>)
        requires
            game_wf(*old(self)),
            0 <= dt <= 10_000_000,
        ensures
            player_wf(final(self).player),
            enemies_wf(final(self).enemies),
            final(self).enemies == old(self).enemies,
            final(self).player == old(self).player,
            final(self).missiles@ == updated_missiles_spec(
                old(self).missiles@,
                old(self).enemies.list@,
                dt as int,
            ),
            shot_down@ == hit_ids_spec(old(self).missiles@, old(self).enemies.list@, dt as int),
            final(self).targeting_data == (if hit_ids_spec(
                old(self).missiles@,
                old(self).enemies.list@,
                dt as int,
            ).len() > 0 {
                Option::<TargetingData>::None
            } else {
                old(self).targeting_data
            }),
            forall|i: int|
                0 <= i < final(self).missiles@.len() ==> crate::missile::missile_wf(
                    #[trigger] final(self).missiles@[i],
                ),
            final(self).id_gen == old(self).id_gen,
            final(self).terrain == old(self).terrain,
            final(self).last_launch_time == old(self).last_launch_time,
            final(self).last_target_switch_time == old(self).last_target_switch_time,
            final(self).targeting_sounds == old(self).targeting_sounds,
            hud_unchanged(final(self).hud, old(self).hud),
    {
        let ghost orig = self.missiles@;
        let ghost es = self.enemies.list@;
        let mut shot_down: Vec<EnemyID> = Vec::new();
        let mut out: Vec<Missile> = Vec::new();
        proof {
            assert(orig.subrange(0, 0) =~= Seq::<Missile>::empty());
        }
        while self.missiles.len() > 0
            invariant
                game_wf(*old(self)),
                0 <= dt <= 10_000_000,
                orig == old(self).missiles@,
                es == old(self).enemies.list@,
                out@.len() + self.missiles@.len() == orig.len(),
                self.missiles@ =~= orig.subrange(out@.len() as int, orig.len() as int),
                self.player == old(self).player,
                self.enemies == old(self).enemies,
                enemies_wf(self.enemies),
                player_wf(self.player),
                self.id_gen == old(self).id_gen,
                self.terrain == old(self).terrain,
                self.last_launch_time == old(self).last_launch_time,
                self.last_target_switch_time == old(self).last_target_switch_time,
                self.targeting_sounds == old(self).targeting_sounds,
                hud_unchanged(self.hud, old(self).hud),
                forall|i: int|
                    0 <= i < out@.len() ==> crate::missile::missile_wf(#[trigger] out@[i]),
                forall|i: int|
                    0 <= i < out@.len() ==> (#[trigger] out@[i])
                        == crate::missile::updated_missile_spec(
                        orig[i],
                        enemy_for_missile(es, orig[i]),
                        dt as int,
                    ),
                shot_down@ == hit_ids_spec(orig.subrange(0, out@.len() as int), es, dt as int),
                self.targeting_data == (if hit_ids_spec(
                    orig.subrange(0, out@.len() as int),
                    es,
                    dt as int,
                ).len() > 0 {
                    Option::<TargetingData>::None
                } else {
                    old(self).targeting_data
                }),
            decreases self.missiles@.len(),
        {
            let ghost taken = out@.len() as int;
            let mut missile = self.missiles.remove(0);
            proof {
                assert(missile == orig[taken]);
                assert(self.missiles@ =~= orig.subrange(taken + 1, orig.len() as int));
                assert(crate::missile::missile_wf(orig[taken]));
                assert(missiles_ready(*old(self)));
                assert(orig[taken].guidance matches GuidanceStatus::Terminating(t) ==> t >= 1);
                assert(orig.subrange(0, taken + 1).drop_last() =~= orig.subrange(0, taken));
                assert(orig.subrange(0, taken + 1).last() == orig[taken]);
            }
            let target = missile.target();
            let enemy = match target {
                Some(id) => self.enemies.get_by_id(id),
                None => None,
            };
            proof {
                match enemy {
                    Some(e) => {
                        assert(enemy_for_missile(es, orig[taken]) == Some(*e));
                    }
                    None => {
                        assert(enemy_for_missile(es, orig[taken]) is None);
                    }
                }
            }
            let msg = missile.update(enemy, dt);
            match msg {
                Some(MissileMessage::HitEnemy(id)) => {
                    shot_down.push(id);
                    self.targeting_data = None;
                }
                _ => {},
            }
            out.push(missile);
        }
        proof {
            assert(orig.subrange(0, orig.len() as int) =~= orig);
            assert(out@ =~= updated_missiles_spec(orig, es, dt as int));
        }
        self.missiles = out;
        shot_down
    }

    /// Fire the player's guns from the camera pose.
    pub fn fire_guns(&mut self, now: i64)
        requires
            game_wf(*old(self)),
            0 <= now <= TIME_MAX,
        ensures
            game_wf(*final(self)),
            final(self).enemies.list@ == old(self).enemies.list@,
            final(self).missiles@ == old(self).missiles@,
            final(self).player.camera == old(self).player.camera,
            final(self).player.aircraft.model == old(self).player.aircraft.model,
            final(self).player.aircraft.controls == old(self).player.aircraft.controls,
            final(self).targeting_data == old(self).targeting_data,
            old(self).player.aircraft.guns.last_fire_time + BULLET_COOLDOWN > now ==> final(self).player.aircraft.guns.bullets@ == old(self).player.aircraft.guns.bullets@
                && final(self).player.aircraft.guns.last_fire_time == old(self).player.aircraft.guns.last_fire_time
                && final(self).player.aircraft.guns.firing == old(self).player.aircraft.guns.firing,
            old(self).player.aircraft.guns.last_fire_time + BULLET_COOLDOWN <= now ==> {
                let g0 = old(self).player.aircraft.guns;
                let g1 = final(self).player.aircraft.guns;
                let cam = old(self).player.camera;
                &&& g1.bullets@.len() == g0.bullets@.len() + 1
                &&& g1.bullets@.subrange(0, g0.bullets@.len() as int) == g0.bullets@
                &&& ({
                    let b = g1.bullets@.last();
                    &&& b.model.transformation.translation == crate::guns::gun_spawn_spec(cam)
                    &&& b.model.transformation.scale == 1000
                    &&& b.termination_time == now + crate::guns::BULLET_TERMINATION_TIME
                    &&& exists|p: int, y: int, r: int|
                        -300 <= p < 300 && -300 <= y < 300 && -300 <= r < 300
                            && b.model.orientation == crate::quat::mul_spec(
                            cam.orientation,
                            #[trigger] crate::guns::spread_spec(p, y, r),
                        )
                })
                &&& g1.last_fire_time == now
                &&& g1.firing
            },
    {
        self.player.aircraft.guns.fire(&self.player.camera, now);
    }

    /// Tell the audio worker the session is over.
    pub fn exit_hook(&self) {
        self.audio.exit_hook();
    }

    /// One frame of simulation: collision test against the terrain, control
    /// application and decay, enemy respawn and flight, missile guidance and
    /// cleanup, gun travel and hit detection, and lock maintenance. Returns
    /// whether the player flew into the ground this frame.
    pub fn update(&mut self, dt: i64, now: i64) -> (collision: bool)
        requires
            game_wf(*old(self)),
            0 <= dt <= crate::aircraft::DT_MAX,
            0 <= now <= TIME_MAX,
            old(self).enemies.list@.len() <= TARGET_ENEMIES as int,
            room_for(old(self).id_gen, TARGET_ENEMIES as int),
            sound_room(old(self).id_gen, 2),
        ensures
            game_wf(*final(self)),
            collision == terrain_collision_spec(*old(self)),
            !collision ==> final(self).enemies.list@.len() <= TARGET_ENEMIES as int,
            collision ==> *final(self) == *old(self),
            !collision ==> final(self).player.camera == crate::player::controlled_camera_spec(
                old(self).player.camera,
                old(self).player.aircraft.controls,
                dt as int,
            ),
            !collision ==> final(self).player.aircraft.model
                == crate::player::controlled_model_spec(
                old(self).player.aircraft.model,
                old(self).player.aircraft.controls,
                dt as int,
            ),
            !collision ==> ({
                let c0 = old(self).player.aircraft.controls;
                let c1 = final(self).player.aircraft.controls;
                &&& c1.pitch_bias == (if c0.decay_pitch {
                    crate::control_surfaces::decay_step_spec(c0.pitch_bias as int, dt as int)
                } else {
                    c0.pitch_bias as int
                })
                &&& c1.yaw_bias == (if c0.decay_yaw {
                    crate::control_surfaces::decay_step_spec(c0.yaw_bias as int, dt as int)
                } else {
                    c0.yaw_bias as int
                })
                &&& c1.roll_bias == (if c0.decay_roll {
                    crate::control_surfaces::decay_step_spec(c0.roll_bias as int, dt as int)
                } else {
                    c0.roll_bias as int
                })
                &&& c1.throttle == c0.throttle
                &&& c1.decay_pitch == c0.decay_pitch
                &&& c1.decay_yaw == c0.decay_yaw
                &&& c1.decay_roll == c0.decay_roll
            }),
            !collision ==> final(self).player.aircraft.guns.bullets@
                == crate::guns::updated_bullets_spec(
                old(self).player.aircraft.guns.bullets@,
                dt as int,
                now as int,
            ) && final(self).player.aircraft.guns.last_fire_time == old(self).player.aircraft.guns.last_fire_time && final(self).player.aircraft.guns.firing == old(self).player.aircraft.guns.firing,
            !collision ==> exists|
                spawned: Seq<crate::enemy::Enemy>,
                flown: Seq<crate::enemy::Enemy>,
                hits: Seq<EnemyID>,
            | #[trigger] frame_rel(*old(self), *final(self), spawned, flown, hits, dt as int, now as int),
            !collision ==> (old(self).targeting_data is None ==> final(self).targeting_data is None),
            !collision ==> (final(self).targeting_data matches Some(d2) ==> old(self).targeting_data matches Some(d)
                && d2.target_id == d.target_id && d2.left_until_lock == (if d.left_until_lock > 0 {
                d.left_until_lock - dt
            } else {
                d.left_until_lock as int
            })),
            !collision ==> hud_update_rel(
                old(self).hud,
                final(self).hud,
                final(self).player.camera,
                final(self).enemies.list@,
                final(self).targeting_data,
                now as int,
            ),
    {
        let (cx, cz) = self.player.camera.xz_ints();
        let ground = self.terrain.height_at(cx, cz);
        if self.player.camera.altitude() < ground {
            return true;
        }
        self.run_frame(dt, now);
        false
    }

    /// The control, decay, respawn and flight part of a frame. Returns the
    /// respawned and the flown enemy sets as ghost witnesses.
    #[verifier::rlimit(100)]
    fn advance_world(&mut self, dt: i64) -> (w: Ghost<(Seq<crate::enemy::Enemy>, Seq<crate::enemy::Enemy>)>)
        requires
            game_wf(*old(self)),
            0 <= dt <= crate::aircraft::DT_MAX,
            old(self).enemies.list@.len() <= TARGET_ENEMIES as int,
            room_for(old(self).id_gen, TARGET_ENEMIES as int),
        ensures
            game_wf(*final(self)),
            final(self).player.camera == crate::player::controlled_camera_spec(
                old(self).player.camera,
                old(self).player.aircraft.controls,
                dt as int,
            ),
            final(self).player.aircraft.model == crate::player::controlled_model_spec(
                old(self).player.aircraft.model,
                old(self).player.aircraft.controls,
                dt as int,
            ),
            ({
                let c0 = old(self).player.aircraft.controls;
                let c1 = final(self).player.aircraft.controls;
                &&& c1.pitch_bias == (if c0.decay_pitch {
                    crate::control_surfaces::decay_step_spec(c0.pitch_bias as int, dt as int)
                } else {
                    c0.pitch_bias as int
                })
                &&& c1.yaw_bias == (if c0.decay_yaw {
                    crate::control_surfaces::decay_step_spec(c0.yaw_bias as int, dt as int)
                } else {
                    c0.yaw_bias as int
                })
                &&& c1.roll_bias == (if c0.decay_roll {
                    crate::control_surfaces::decay_step_spec(c0.roll_bias as int, dt as int)
                } else {
                    c0.roll_bias as int
                })
                &&& c1.throttle == c0.throttle
                &&& c1.decay_pitch == c0.decay_pitch
                &&& c1.decay_yaw == c0.decay_yaw
                &&& c1.decay_roll == c0.decay_roll
            }),
            final(self).player.aircraft.guns == old(self).player.aircraft.guns,
            final(self).player.aircraft.kind == old(self).player.aircraft.kind,
            final(self).player.aircraft.blueprint == old(self).player.aircraft.blueprint,
            final(self).missiles@ == old(self).missiles@,
            final(self).targeting_data == old(self).targeting_data,
            final(self).terrain == old(self).terrain,
            final(self).last_launch_time == old(self).last_launch_time,
            final(self).last_target_switch_time == old(self).last_target_switch_time,
            final(self).id_gen.last_of(IDKind::Sound) == old(self).id_gen.last_of(IDKind::Sound),
            hud_unchanged(final(self).hud, old(self).hud),
            ({
                let spawned = w@.0;
                let flown = w@.1;
                &&& spawned.len() == TARGET_ENEMIES as int
                &&& spawned.subrange(0, old(self).enemies.list@.len() as int) == old(self).enemies.list@
                &&& flown.len() == spawned.len()
                &&& (forall|i: int|
                    0 <= i < flown.len() ==> crate::enemy::fly_rel(
                        spawned[i],
                        #[trigger] flown[i],
                        old(self).terrain,
                        dt as int,
                    ))
                &&& final(self).enemies.list@ == flown
            }),
    {
        self.player.apply_controls(dt);
        self.player.aircraft.apply_decay(dt);
        self.enemies.respawn_enemies(&mut self.id_gen);
        let ghost spawned = self.enemies.list@;
        self.fly_enemies(dt);
        let ghost flown = self.enemies.list@;
        Ghost((spawned, flown))
    }

    /// The work of one non-colliding frame; see `update`.
    #[verifier::rlimit(100)]
    fn run_frame(&mut self, dt: i64, now: i64)
        requires
            game_wf(*old(self)),
            0 <= dt <= crate::aircraft::DT_MAX,
            0 <= now <= TIME_MAX,
            old(self).enemies.list@.len() <= TARGET_ENEMIES as int,
            room_for(old(self).id_gen, TARGET_ENEMIES as int),
            sound_room(old(self).id_gen, 2),
        ensures
            game_wf(*final(self)),
            final(self).enemies.list@.len() <= TARGET_ENEMIES as int,
            final(self).player.camera == crate::player::controlled_camera_spec(
                old(self).player.camera,
                old(self).player.aircraft.controls,
                dt as int,
            ),
            final(self).player.aircraft.model
                == crate::player::controlled_model_spec(
                old(self).player.aircraft.model,
                old(self).player.aircraft.controls,
                dt as int,
            ),
            ({
                let c0 = old(self).player.aircraft.controls;
                let c1 = final(self).player.aircraft.controls;
                &&& c1.pitch_bias == (if c0.decay_pitch {
                    crate::control_surfaces::decay_step_spec(c0.pitch_bias as int, dt as int)
                } else {
                    c0.pitch_bias as int
                })
                &&& c1.yaw_bias == (if c0.decay_yaw {
                    crate::control_surfaces::decay_step_spec(c0.yaw_bias as int, dt as int)
                } else {
                    c0.yaw_bias as int
                })
                &&& c1.roll_bias == (if c0.decay_roll {
                    crate::control_surfaces::decay_step_spec(c0.roll_bias as int, dt as int)
                } else {
                    c0.roll_bias as int
                })
                &&& c1.throttle == c0.throttle
                &&& c1.decay_pitch == c0.decay_pitch
                &&& c1.decay_yaw == c0.decay_yaw
                &&& c1.decay_roll == c0.decay_roll
            }),
            final(self).player.aircraft.guns.bullets@
                == crate::guns::updated_bullets_spec(
                old(self).player.aircraft.guns.bullets@,
                dt as int,
                now as int,
            ) && final(self).player.aircraft.guns.last_fire_time == old(self).player.aircraft.guns.last_fire_time && final(self).player.aircraft.guns.firing == old(self).player.aircraft.guns.firing,
            exists|
                spawned: Seq<crate::enemy::Enemy>,
                flown: Seq<crate::enemy::Enemy>,
                hits: Seq<EnemyID>,
            | #[trigger] frame_rel(*old(self), *final(self), spawned, flown, hits, dt as int, now as int),
            (old(self).targeting_data is None ==> final(self).targeting_data is None),
            (final(self).targeting_data matches Some(d2) ==> old(self).targeting_data matches Some(d)
                && d2.target_id == d.target_id && d2.left_until_lock == (if d.left_until_lock > 0 {
                d.left_until_lock - dt
            } else {
                d.left_until_lock as int
            })),
            hud_update_rel(
                old(self).hud,
                final(self).hud,
                final(self).player.camera,
                final(self).enemies.list@,
                final(self).targeting_data,
                now as int,
            ),
    {
        let w = self.advance_world(dt);
        let ghost spawned = w@.0;
        let ghost flown = w@.1;
        let hw = self.settle_combat(dt, now);
        let ghost hits = hw@;
        let ghost mid2 = *self;
        self.update_targeting(dt);
        self.hud.update(&self.player.camera, &self.enemies, &self.targeting_data, now);
        proof {
            let pre = *old(self);
            let post = *self;
            let shot = hit_ids_spec(pre.missiles@, flown, dt as int);
            let before2 = crate::enemies::surviving_spec(flown, shot);
            lemma_frame_rel(pre, post, spawned, flown, hits, before2, dt as int, now as int);
            assert(frame_rel(pre, post, spawned, flown, hits, dt as int, now as int));
        }
    }

    /// The missile pass, missile-kill removal, expired-missile pruning,
    /// bullet travel and gun-hit removal of one frame. Returns the gun-hit
    /// IDs as a ghost witness.
    #[verifier::rlimit(100)]
    fn settle_combat(&mut self, dt: i64, now: i64) -> (hw: Ghost<Seq<EnemyID>>)
        requires
            game_wf(*old(self)),
            0 <= dt <= crate::aircraft::DT_MAX,
            0 <= now <= TIME_MAX,
        ensures
            game_wf(*final(self)),
            final(self).player.camera == old(self).player.camera,
            final(self).player.aircraft.model == old(self).player.aircraft.model,
            final(self).player.aircraft.controls == old(self).player.aircraft.controls,
            final(self).player.aircraft.kind == old(self).player.aircraft.kind,
            final(self).player.aircraft.blueprint == old(self).player.aircraft.blueprint,
            final(self).player.cockpit == old(self).player.cockpit,
            final(self).player.kills == old(self).player.kills,
            final(self).player.guns_sound == old(self).player.guns_sound,
            final(self).player.aircraft.guns.bullets@ == crate::guns::updated_bullets_spec(
                old(self).player.aircraft.guns.bullets@,
                dt as int,
                now as int,
            ),
            final(self).player.aircraft.guns.last_fire_time == old(self).player.aircraft.guns.last_fire_time,
            final(self).player.aircraft.guns.firing == old(self).player.aircraft.guns.firing,
            final(self).missiles@ == pruned_missiles_spec(
                updated_missiles_spec(old(self).missiles@, old(self).enemies.list@, dt as int),
            ),
            final(self).id_gen == old(self).id_gen,
            final(self).terrain == old(self).terrain,
            final(self).last_launch_time == old(self).last_launch_time,
            final(self).last_target_switch_time == old(self).last_target_switch_time,
            final(self).targeting_sounds.current == old(self).targeting_sounds.current,
            final(self).targeting_sounds.current_effect == old(self).targeting_sounds.current_effect,
            hud_unchanged(final(self).hud, old(self).hud),
            ({
                let shot = hit_ids_spec(old(self).missiles@, old(self).enemies.list@, dt as int);
                let before2 = crate::enemies::surviving_spec(old(self).enemies.list@, shot);
                let hits = hw@;
                &&& (hits.len() > 0 ==> forall|id: EnemyID|
                    #[trigger] hits.contains(id) <==> exists|i: int|
                        0 <= i < before2.len() && (#[trigger] before2[i]).id == id && final(self).player.aircraft.guns.hits_enemy(
                            before2[i].aircraft.model.transformation.translation,
                        ))
                &&& (hits.len() == 0 ==> !exists|i: int|
                    0 <= i < before2.len() && final(self).player.aircraft.guns.hits_enemy(
                        (#[trigger] before2[i]).aircraft.model.transformation.translation,
                    ))
                &&& final(self).enemies.list@ == (if hits.len() == 0 {
                    before2
                } else {
                    crate::enemies::surviving_spec(before2, hits)
                })
                &&& (forall|i: int|
                    0 <= i < before2.len() ==> !shot.contains((#[trigger] before2[i]).id))
                &&& (hits.len() > 0 ==> forall|i: int|
                    0 <= i < final(self).enemies.list@.len() ==> !hits.contains(
                        (#[trigger] final(self).enemies.list@[i]).id,
                    ) && before2.contains(final(self).enemies.list@[i]))
                &&& final(self).enemies.list@.len() <= old(self).enemies.list@.len()
                &&& final(self).targeting_data == (if shot.len() > 0 || hits.len() > 0 {
                    Option::<TargetingData>::None
                } else {
                    old(self).targeting_data
                })
            }),
    {
        let ghost flown = self.enemies.list@;
        let shot_down = self.update_missiles(dt);
        let ghost before1 = self.enemies.list@;
        self.enemies.remove_ids(&shot_down);
        proof {
            crate::enemies::lemma_surviving_sound(before1, shot_down@);
            lemma_removal_keeps_ids_issued(before1, self.enemies, self.id_gen);
        }
        self.prune_missiles();
        self.player.aircraft.guns.update(dt, now);
        let hits_found = self.player.aircraft.guns.check_collisions(&self.enemies);
        let ghost before2 = self.enemies.list@;
        let ghost hits: Seq<EnemyID> = if hits_found is Some {
            hits_found->Some_0@
        } else {
            Seq::empty()
        };
        match &hits_found {
            Some(hit_enemies) => {
                self.enemies.remove_ids(hit_enemies);
                self.targeting_data = None;
                proof {
                    crate::enemies::lemma_surviving_sound(before2, hit_enemies@);
                    lemma_removal_keeps_ids_issued(before2, self.enemies, self.id_gen);
                    let g = self.player.aircraft.guns;
                    let i0 = choose|i: int|
                        0 <= i < before2.len() && g.hits_enemy(
                            (#[trigger] before2[i]).aircraft.model.transformation.translation,
                        );
                    assert(hit_enemies@.contains(before2[i0].id));
                    assert(hits.len() > 0);
                }
            }
            None => {},
        }
        proof {
            assert(before2 == crate::enemies::surviving_spec(
                flown,
                hit_ids_spec(old(self).missiles@, flown, dt as int),
            ));
        }
        Ghost(hits)
    }

    /// Advance every enemy one flight tick.
    fn fly_enemies(&mut self, dt: i64)
        requires
            game_wf(*old(self)),
            0 <= dt <= 10_000_000,
        ensures
            enemies_wf(final(self).enemies),
            final(self).enemies.list@.len() == old(self).enemies.list@.len(),
            forall|i: int|
                0 <= i < final(self).enemies.list@.len() ==> crate::enemy::fly_rel(
                    old(self).enemies.list@[i],
                    #[trigger] final(self).enemies.list@[i],
                    old(self).terrain,
                    dt as int,
                ),
            forall|i: int|
                0 <= i < final(self).enemies.list@.len() ==> (#[trigger] final(self).enemies.list@[i]).id == old(self).enemies.list@[i].id,
            ids_issued(final(self).enemies, final(self).id_gen),
            final(self).player == old(self).player,
            final(self).missiles@ == old(self).missiles@,
            final(self).id_gen == old(self).id_gen,
            final(self).terrain == old(self).terrain,
            final(self).targeting_data == old(self).targeting_data,
            final(self).last_launch_time == old(self).last_launch_time,
            final(self).last_target_switch_time == old(self).last_target_switch_time,
            hud_unchanged(final(self).hud, old(self).hud),
            game_wf(*final(self)),
    {
        let ghost s = self.enemies.list@;
        let mut out: Vec<crate::enemy::Enemy> = Vec::new();
        while self.enemies.list.len() > 0
            invariant
                game_wf(*old(self)),
                0 <= dt <= 10_000_000,
                s == old(self).enemies.list@,
                out@.len() + self.enemies.list@.len() == s.len(),
                self.enemies.list@ =~= s.subrange(out@.len() as int, s.len() as int),
                self.terrain == old(self).terrain,
                self.player == old(self).player,
                self.missiles@ == old(self).missiles@,
                self.id_gen == old(self).id_gen,
                self.targeting_data == old(self).targeting_data,
                self.last_launch_time == old(self).last_launch_time,
                self.last_target_switch_time == old(self).last_target_switch_time,
                hud_unchanged(self.hud, old(self).hud),
                forall|i: int| 0 <= i < s.len() ==> crate::enemy::enemy_wf(#[trigger] s[i]),
                forall|i: int| 0 <= i < out@.len() ==> crate::enemy::enemy_wf(#[trigger] out@[i]),
                forall|i: int|
                    0 <= i < out@.len() ==> crate::enemy::fly_rel(
                        s[i],
                        #[trigger] out@[i],
                        old(self).terrain,
                        dt as int,
                    ),
                forall|i: int| 0 <= i < out@.len() ==> (#[trigger] out@[i]).id == s[i].id,
            decreases self.enemies.list@.len(),
        {
            let ghost taken = out@.len() as int;
            let mut enemy = self.enemies.list.remove(0);
            proof {
                assert(enemy == s[taken]);
                assert(self.enemies.list@ =~= s.subrange(taken + 1, s.len() as int));
            }
            enemy.fly(&self.terrain, dt);
            out.push(enemy);
        }
        self.enemies.list = out;
        proof {
            assert(enemies_wf(self.enemies)) by {
                assert forall|i: int, j: int|
                    #![trigger self.enemies.list@[i].id, self.enemies.list@[j].id]
                    0 <= i < j < self.enemies.list@.len() implies self.enemies.list@[i].id
                    != self.enemies.list@[j].id by {
                    assert(s[i].id != s[j].id);
                }
            }
            assert forall|i: int|
                0 <= i < self.enemies.list@.len() implies crate::enemies::id_issued(
                (#[trigger] self.enemies.list@[i]).id,
                self.id_gen,
            ) by {
                assert(s[i].id == self.enemies.list@[i].id);
                assert(crate::enemies::id_issued(s[i].id, old(self).id_gen));
            }
        }
    }

    /// Drop every missile whose termination countdown has ended.
    fn prune_missiles(&mut self)
        requires
            player_wf(old(self).player),
            enemies_wf(old(self).enemies),
            forall|i: int|
                0 <= i < old(self).missiles@.len() ==> crate::missile::missile_wf(
                    #[trigger] old(self).missiles@[i],
                ),
        ensures
            missiles_ready(*final(self)),
            final(self).missiles@ == pruned_missiles_spec(old(self).missiles@),
            forall|i: int|
                0 <= i < final(self).missiles@.len() ==> crate::missile::missile_wf(
                    #[trigger] final(self).missiles@[i],
                ),
            final(self).missiles@.len() <= old(self).missiles@.len(),
            final(self).player == old(self).player,
            final(self).enemies.list@ == old(self).enemies.list@,
            final(self).id_gen == old(self).id_gen,
            final(self).terrain == old(self).terrain,
            final(self).targeting_data == old(self).targeting_data,
            final(self).last_launch_time == old(self).last_launch_time,
            final(self).last_target_switch_time == old(self).last_target_switch_time,
            final(self).targeting_sounds == old(self).targeting_sounds,
            hud_unchanged(final(self).hud, old(self).hud),
    {
        let ghost s = self.missiles@;
        let mut out: Vec<Missile> = Vec::new();
        let ghost mut processed: int = 0;
        proof {
            assert(s.subrange(0, 0) =~= Seq::<Missile>::empty());
        }
        while self.missiles.len() > 0
            invariant
                s == old(self).missiles@,
                out@.len() <= processed <= s.len(),
                processed + self.missiles@.len() == s.len(),
                self.missiles@ =~= s.subrange(processed, s.len() as int),
                out@ == pruned_missiles_spec(s.subrange(0, processed)),
                self.player == old(self).player,
                self.enemies.list@ == old(self).enemies.list@,
                self.id_gen == old(self).id_gen,
                self.terrain == old(self).terrain,
                self.targeting_data == old(self).targeting_data,
                self.last_launch_time == old(self).last_launch_time,
                self.last_target_switch_time == old(self).last_target_switch_time,
                self.targeting_sounds == old(self).targeting_sounds,
                hud_unchanged(self.hud, old(self).hud),
                forall|i: int| 0 <= i < s.len() ==> crate::missile::missile_wf(#[trigger] s[i]),
                forall|i: int|
                    0 <= i < out@.len() ==> crate::missile::missile_wf(#[trigger] out@[i]) && ((
                    #[trigger] out@[i]).guidance matches GuidanceStatus::Terminating(t) ==> t >= 1),
            decreases self.missiles@.len(),
        {
            let missile = self.missiles.remove(0);
            proof {
                assert(missile == s[processed]);
                assert(self.missiles@ =~= s.subrange(processed + 1, s.len() as int));
                assert(s.subrange(0, processed + 1).drop_last() =~= s.subrange(0, processed));
                assert(s.subrange(0, processed + 1).last() == s[processed]);
            }
            let keep: bool = match &missile.guidance {
                GuidanceStatus::Terminating(t) => *t != 0u32,
                GuidanceStatus::Active(_) => true,
            };
            if keep {
                out.push(missile);
            }
            proof {
                processed = processed + 1;
            }
        }
        proof {
            assert(s.subrange(0, s.len() as int) =~= s);
        }
        self.missiles = out;
    }
}

/// Removing enemies cannot introduce an ID the generator never issued.
proof fn lemma_removal_keeps_ids_issued(before: Seq<crate::enemy::Enemy>, e: Enemies, g: IDGenerator)
    requires
        forall|i: int|
            0 <= i < before.len() ==> crate::enemies::id_issued((#[trigger] before[i]).id, g),
        forall|i: int| 0 <= i < e.list@.len() ==> before.contains(#[trigger] e.list@[i]),
    ensures
        ids_issued(e, g),
{
    assert forall|i: int|
        0 <= i < e.list@.len() implies crate::enemies::id_issued(
        (#[trigger] e.list@[i]).id,
        g,
    ) by {
        assert(before.contains(e.list@[i]));
        let w = choose|w: int| 0 <= w < before.len() && before[w] == e.list@[i];
        assert(crate::enemies::id_issued(before[w].id, g));
    }
}

/// Whether a vector of IDs holds `id`.
fn contains_id(v: &Vec<EnemyID>, id: EnemyID) -> (r: bool)
    ensures
        r == v@.contains(id),
{
    let n = v.len();
    let mut i: usize = 0;
    while i < n
        invariant
            i <= n,
            n == v@.len(),
            forall|l: int| 0 <= l < i ==> (#[trigger] v@[l]) != id,
        decreases n - i,
    {
        if v[i] == id {
            proof {
                assert(v@.contains(id)) by {
                    assert(v@[i as int] == id);
                }
            }
            return true;
        }
        i = i + 1;
    }
    false
}

} // verus!
