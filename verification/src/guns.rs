//! The fire-rate-limited gun system: bullet spawning with spread, ballistic
//! travel, expiry, and proximity hit detection.

use vstd::prelude::*;
use crate::camera::{cam_right_spec, cam_up_spec, cam_wf, Camera};
use crate::enemies::{enemies_wf, Enemies};
use crate::enemy::Enemy;
use crate::fixed::COORD_MAX;
use crate::missile::EnemyID;
use crate::model::{forward_spec, model_wf, vec_front_spec, vec_right_spec, vec_up_spec, Model};
use crate::quat::{from_axis_angle_spec, mul_spec, quat_in_coord_range, Quat};
use crate::rng::random_in_range;
use crate::vec3::{add_spec, dist2_spec, in_coord_range, scale_spec, Vec3};

verus! {

/// Bullet travel speed: 1000 world units per second, which is exactly one
/// milli-unit per microsecond.
pub const BULLET_SPEED: i64 = 1000;

/// How long a bullet lives, in microseconds (3 seconds).
pub const BULLET_TERMINATION_TIME: i64 = 3_000_000;

/// Minimum time between shots, in microseconds (0.02 seconds).
pub const BULLET_COOLDOWN: i64 = 20_000;

/// Squared hit radius: a hit is a squared distance strictly below
/// `2000 * 2000` milli-units.
pub const HIT_RADIUS_SQ: i64 = 4_000_000;

/// The game clock never exceeds this (about eleven days in microseconds), so
/// cooldown and expiry sums stay in range.
pub const TIME_MAX: i64 = 1_000_000_000_000;

/// A ballistic projectile and the clock time at which it expires.
#[derive(Clone, Copy, PartialEq, Eq, Structural, Debug)]
pub struct Bullet {
    pub model: Model,
    pub termination_time: i64,
}

#[derive(Clone, PartialEq, Eq, Debug)]
pub struct Guns {
    pub bullets: Vec<Bullet>,
    pub last_fire_time: i64,
    pub firing: bool,
}

pub open spec fn guns_wf(g: Guns) -> bool {
    &&& forall|i: int| 0 <= i < g.bullets@.len() ==> model_wf(#[trigger] g.bullets@[i].model)
    &&& 0 <= g.last_fire_time <= TIME_MAX
}

/// Where a bullet spawns: the camera position offset along the camera's right
/// and up vectors (the gun mount is beside and below the eye point).
pub open spec fn gun_spawn_spec(c: Camera) -> Vec3 {
    add_spec(
        add_spec(c.position, scale_spec(cam_right_spec(c), 2500, 1000)),
        scale_spec(cam_up_spec(c), -1500, 1000),
    )
}

/// A small random spread rotation: rotations about the x, y and z axes by
/// `p`, `y` and `r` milli-degrees.
pub open spec fn spread_spec(p: int, y: int, r: int) -> Quat {
    mul_spec(
        mul_spec(
            from_axis_angle_spec(vec_right_spec(), p),
            from_axis_angle_spec(vec_up_spec(), y),
        ),
        from_axis_angle_spec(scale_spec(vec_front_spec(), -1, 1), r),
    )
}

/// Whether some bullet of the list lies strictly within the hit radius of
/// `pos`.
pub open spec fn bullets_hit(bs: Seq<Bullet>, pos: Vec3) -> bool {
    exists|l: int|
        0 <= l < bs.len() && dist2_spec(pos, (#[trigger] bs[l]).model.transformation.translation)
            < HIT_RADIUS_SQ
}

/// The hit entries one enemy contributes: its ID once per bullet strictly
/// within the hit radius, in bullet order.
pub open spec fn enemy_hits_spec(pos: Vec3, id: EnemyID, bs: Seq<Bullet>) -> Seq<EnemyID>
    decreases bs.len(),
{
    if bs.len() == 0 {
        Seq::empty()
    } else {
        let rest = enemy_hits_spec(pos, id, bs.drop_last());
        if dist2_spec(pos, bs.last().model.transformation.translation) < HIT_RADIUS_SQ {
            rest.push(id)
        } else {
            rest
        }
    }
}

/// The whole collision scan: every enemy's hit entries, in enemy order.
pub open spec fn collisions_spec(es: Seq<Enemy>, bs: Seq<Bullet>) -> Seq<EnemyID>
    decreases es.len(),
{
    if es.len() == 0 {
        Seq::empty()
    } else {
        collisions_spec(es.drop_last(), bs) + enemy_hits_spec(
            es.last().aircraft.model.transformation.translation,
            es.last().id,
            bs,
        )
    }
}

/// A bullet moved `dt` microseconds along its facing direction.
pub open spec fn moved_bullet_spec(b: Bullet, dt: int) -> Bullet {
    Bullet { model: forward_spec(b.model, dt), termination_time: b.termination_time }
}

/// The bullet list after one update: every bullet moves forward, then the
/// expired ones (termination time not after `now`) are dropped.
pub open spec fn updated_bullets_spec(s: Seq<Bullet>, dt: int, now: int) -> Seq<Bullet>
    decreases s.len(),
{
    if s.len() == 0 {
        Seq::empty()
    } else {
        let rest = updated_bullets_spec(s.drop_last(), dt, now);
        let m = moved_bullet_spec(s.last(), dt);
        if m.termination_time > now {
            rest.push(m)
        } else {
            rest
        }
    }
}

impl Bullet {
    pub fn new(position: Vec3, orientation: Quat, now: i64) -> (r: Bullet)
        requires
            in_coord_range(position),
            quat_in_coord_range(orientation),
            0 <= now <= TIME_MAX,
        ensures
            r.model.transformation.translation == position,
            r.model.transformation.scale == 1000,
            r.model.orientation == orientation,
            r.termination_time == now + BULLET_TERMINATION_TIME,
            model_wf(r.model),
    {
        let mut model = Model::default();
        model.set_translation(position);
        model.set_orientation(orientation);
        Bullet { model, termination_time: now + BULLET_TERMINATION_TIME }
    }

    /// Fly forward at `BULLET_SPEED` for `dt` microseconds.
    fn update(&mut self, dt: i64)
        requires
            model_wf(old(self).model),
            0 <= dt,
        ensures
            *final(self) == moved_bullet_spec(*old(self), dt as int),
            model_wf(final(self).model),
    {
        self.model.forward(dt);
    }
}

impl Guns {
    pub fn new() -> (r: Guns)
        ensures
            r.bullets@.len() == 0,
            r.last_fire_time == 0,
            !r.firing,
            guns_wf(r),
    {
        Guns { bullets: Vec::new(), last_fire_time: 0, firing: false }
    }

    /// Fire one bullet, unless the cooldown since the last shot has not yet
    /// passed, in which case nothing changes. The bullet spawns at the gun
    /// mount with the camera's orientation perturbed by up to 0.3 degrees per
    /// axis, and expires `BULLET_TERMINATION_TIME` after `now`.
    pub fn fire(&mut self, camera: &Camera, now: i64)
        requires
            guns_wf(*old(self)),
            cam_wf(*camera),
            0 <= now <= TIME_MAX,
        ensures
            old(self).last_fire_time + BULLET_COOLDOWN > now ==> {
                &&& final(self).bullets@ == old(self).bullets@
                &&& final(self).last_fire_time == old(self).last_fire_time
                &&& final(self).firing == old(self).firing
            },
            old(self).last_fire_time + BULLET_COOLDOWN <= now ==> {
                &&& final(self).bullets@.len() == old(self).bullets@.len() + 1
                &&& final(self).bullets@.subrange(0, old(self).bullets@.len() as int) == old(self).bullets@
                &&& ({
                    let b = final(self).bullets@.last();
                    &&& b.model.transformation.translation == gun_spawn_spec(*camera)
                    &&& b.model.transformation.scale == 1000
                    &&& b.termination_time == now + BULLET_TERMINATION_TIME
                    &&& exists|p: int, y: int, r: int|
                        -300 <= p < 300 && -300 <= y < 300 && -300 <= r < 300
                            && b.model.orientation == mul_spec(
                            camera.orientation,
                            spread_spec(p, y, r),
                        )
                })
                &&& final(self).last_fire_time == now
                &&& final(self).firing
            },
            guns_wf(*final(self)),
    {
        if self.last_fire_time + BULLET_COOLDOWN > now {
            return ;
        }
        let position = camera.position().add(camera.right().scale(2500, 1000)).add(
            camera.up().scale(-1500, 1000),
        );
        let p = random_in_range(-300, 300);
        let y = random_in_range(-300, 300);
        let r = random_in_range(-300, 300);
        let rand_quat = Quat::from_axis_angle(crate::model::vec_right(), p).mul(
            Quat::from_axis_angle(crate::model::vec_up(), y),
        ).mul(Quat::from_axis_angle(crate::model::vec_front().scale(-1, 1), r));
        let orientation = camera.orientation_quat().mul(rand_quat);
        let ghost prior = self.bullets@;
        let bullet = Bullet::new(position, orientation, now);
        self.bullets.push(bullet);
        self.last_fire_time = now;
        self.firing = true;
        proof {
            assert(self.bullets@.subrange(0, prior.len() as int) =~= prior);
            assert(exists|pp: int, yy: int, rr: int|
                -300 <= pp < 300 && -300 <= yy < 300 && -300 <= rr < 300
                    && self.bullets@.last().model.orientation == mul_spec(
                    camera.orientation,
                    spread_spec(pp, yy, rr),
                )) by {
                assert(-300 <= p < 300 && -300 <= y < 300 && -300 <= r < 300
                    && self.bullets@.last().model.orientation == mul_spec(
                    camera.orientation,
                    spread_spec(p as int, y as int, r as int),
                ));
            }
        }
    }

    /// Lower the trigger; bullets already in flight are unaffected.
    pub fn stop_firing(&mut self)
        ensures
            !final(self).firing,
            final(self).bullets@ == old(self).bullets@,
            final(self).last_fire_time == old(self).last_fire_time,
    {
        self.firing = false;
    }

    /// Advance every bullet and drop the ones whose termination time has
    /// passed.
    pub fn update(&mut self, dt: i64, now: i64)
        requires
            guns_wf(*old(self)),
            0 <= dt,
        ensures
            final(self).bullets@ == updated_bullets_spec(old(self).bullets@, dt as int, now as int),
            final(self).last_fire_time == old(self).last_fire_time,
            final(self).firing == old(self).firing,
            guns_wf(*final(self)),
    {
        let ghost s = self.bullets@;
        let mut out: Vec<Bullet> = Vec::new();
        let n = self.bullets.len();
        let mut i: usize = 0;
        while i < n
            invariant
                n == s.len(),
                i <= n,
                self.bullets@ == s,
                guns_wf(*self),
                0 <= dt,
                out@ == updated_bullets_spec(s.subrange(0, i as int), dt as int, now as int),
                forall|j: int| 0 <= j < out@.len() ==> model_wf(#[trigger] out@[j].model),
            decreases n - i,
        {
            let mut b = self.bullets[i];
            b.update(dt);
            proof {
                assert(s.subrange(0, i + 1).drop_last() =~= s.subrange(0, i as int));
                assert(s.subrange(0, i + 1).last() == s[i as int]);
            }
            if b.termination_time > now {
                out.push(b);
            }
            i = i + 1;
        }
        proof {
            assert(s.subrange(0, n as int) =~= s);
        }
        self.bullets = out;
    }

    /// Every enemy within the hit radius of some live bullet, by ID; `None`
    /// when no bullet hits anything. An enemy hit by several bullets appears
    /// once for each of them.
    pub fn check_collisions(&self, enemies: &Enemies) -> (r: Option<Vec<EnemyID>>)
        requires
            guns_wf(*self),
            enemies_wf(*enemies),
        ensures
            r is None <==> !exists|i: int|
                0 <= i < enemies.list@.len() && self.hits_enemy(
                    #[trigger] enemies.list@[i].aircraft.model.transformation.translation,
                ),
            r is Some ==> forall|id: EnemyID|
                #[trigger] r->Some_0@.contains(id) <==> exists|i: int|
                    0 <= i < enemies.list@.len() && #[trigger] enemies.list@[i].id == id
                        && self.hits_enemy(
                        enemies.list@[i].aircraft.model.transformation.translation,
                    ),
            r matches Some(v) ==> v@ == collisions_spec(enemies.list@, self.bullets@),
    {
        let mut hit_enemies: Vec<EnemyID> = Vec::new();
        let n = enemies.list.len();
        let mut i: usize = 0;
        while i < n
            invariant
                n == enemies.list@.len(),
                i <= n,
                guns_wf(*self),
                enemies_wf(*enemies),
                forall|id: EnemyID|
                    #[trigger] hit_enemies@.contains(id) <==> exists|k: int|
                        0 <= k < i && #[trigger] enemies.list@[k].id == id && self.hits_enemy(
                            enemies.list@[k].aircraft.model.transformation.translation,
                        ),
                hit_enemies@ == collisions_spec(enemies.list@.subrange(0, i as int), self.bullets@),
            decreases n - i,
        {
            let enemy_pos = enemies.list[i].aircraft.model.position();
            let enemy_id = enemies.list[i].id;
            proof {
                assert(enemies.list@.subrange(0, i + 1).drop_last() =~= enemies.list@.subrange(
                    0,
                    i as int,
                ));
                assert(enemies.list@.subrange(0, i + 1).last() == enemies.list@[i as int]);
                assert(self.bullets@.subrange(0, 0) =~= Seq::<Bullet>::empty());
            }
            let m = self.bullets.len();
            let mut j: usize = 0;
            while j < m
                invariant
                    m == self.bullets@.len(),
                    j <= m,
                    guns_wf(*self),
                    enemies_wf(*enemies),
                    0 <= i < n,
                    n == enemies.list@.len(),
                    enemy_pos == enemies.list@[i as int].aircraft.model.transformation.translation,
                    enemy_id == enemies.list@[i as int].id,
                    in_coord_range(enemy_pos),
                    forall|id: EnemyID|
                        #[trigger] hit_enemies@.contains(id) <==> (exists|k: int|
                            0 <= k < i && #[trigger] enemies.list@[k].id == id && self.hits_enemy(
                                enemies.list@[k].aircraft.model.transformation.translation,
                            )) || (id == enemy_id && exists|l: int|
                            0 <= l < j && dist2_spec(
                                enemy_pos,
                                #[trigger] self.bullets@[l].model.transformation.translation,
                            ) < HIT_RADIUS_SQ),
                    hit_enemies@ == collisions_spec(
                        enemies.list@.subrange(0, i as int),
                        self.bullets@,
                    ) + enemy_hits_spec(enemy_pos, enemy_id, self.bullets@.subrange(0, j as int)),
                decreases m - j,
            {
                let b_pos = self.bullets[j].model.position();
                proof {
                    assert(self.bullets@.subrange(0, j + 1).drop_last() =~= self.bullets@.subrange(
                        0,
                        j as int,
                    ));
                    assert(self.bullets@.subrange(0, j + 1).last() == self.bullets@[j as int]);
                }
                let ghost he0 = hit_enemies@;
                if enemy_pos.dist2(b_pos) < HIT_RADIUS_SQ as i128 {
                    hit_enemies.push(enemy_id);
                    proof {
                        assert forall|id: EnemyID| #[trigger] hit_enemies@.contains(id) implies (
                        he0.contains(id) || id == enemy_id) by {
                            let w = choose|w: int|
                                0 <= w < hit_enemies@.len() && hit_enemies@[w] == id;
                            if w < he0.len() {
                                assert(he0[w] == id);
                            }
                        }
                        assert forall|id: EnemyID| he0.contains(id) implies #[trigger] hit_enemies@.contains(
                            id,
                        ) by {
                            let w = choose|w: int| 0 <= w < he0.len() && he0[w] == id;
                            assert(hit_enemies@[w] == id);
                        }
                        assert(hit_enemies@.contains(enemy_id)) by {
                            assert(hit_enemies@[hit_enemies@.len() - 1] == enemy_id);
                        }
                    }
                }
                j = j + 1;
            }
            proof {
                assert(self.bullets@.subrange(0, m as int) =~= self.bullets@);
            }
            i = i + 1;
        }
        proof {
            assert(enemies.list@.subrange(0, n as int) =~= enemies.list@);
        }
        if hit_enemies.len() > 0 {
            proof {
                assert(hit_enemies@.contains(hit_enemies@[0]));
            }
            Some(hit_enemies)
        } else {
            proof {
                assert forall|w: int|
                    0 <= w < enemies.list@.len() implies !self.hits_enemy(
                    (#[trigger] enemies.list@[w]).aircraft.model.transformation.translation,
                ) by {
                    if self.hits_enemy(enemies.list@[w].aircraft.model.transformation.translation) {
                        assert(hit_enemies@.contains(enemies.list@[w].id));
                    }
                }
            }
            None
        }
    }

    /// Whether some live bullet lies strictly within the hit radius of the
    /// given position.
    pub open spec fn hits_enemy(self, pos: Vec3) -> bool {
        bullets_hit(self.bullets@, pos)
    }
}

} // verus!
