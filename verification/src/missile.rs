//! A guided missile fired by the player. The missile knows only the ID of
//! the enemy it chases; each tick it receives a reference to that enemy (if
//! it still lives) and reports what happened.

use vstd::prelude::*;
use crate::bezier::{
    advanced_progress_spec, bezier_in_range, eval_spec, QuadraticBezier, PROGRESS_MAX,
};
use crate::camera::{cam_front_spec, cam_up_spec, cam_wf, Camera};
use crate::enemy::{enemy_wf, Enemy};
use crate::guns::HIT_RADIUS_SQ;
use crate::missile_guidance::{GuidanceData, GuidanceStatus, TERMINATION_TIME};
use crate::model::{forward_spec, model_wf, vec_right_spec, vec_up_spec, Model};
use crate::quat::{from_arc_spec, lemma_mul_identity_left, mul_spec, from_axis_angle_spec, Quat};
use crate::vec3::{add_spec, dist2_spec, normalize_spec, scale_spec, sub_spec, Vec3};

verus! {

pub type EnemyID = u32;

/// What a missile did during one tick.
#[derive(Clone, Copy, PartialEq, Eq, Structural, Debug)]
pub enum MissileMessage {
    HitEnemy(EnemyID),
    BeganTermination,
}

pub struct Missile {
    pub model: Model,
    pub guidance: GuidanceStatus,
}

pub open spec fn missile_wf(m: Missile) -> bool {
    &&& model_wf(m.model)
    &&& (m.guidance matches GuidanceStatus::Active(d) ==> bezier_in_range(d.bezier) && 0
        <= d.progress <= PROGRESS_MAX)
}

/// Where a missile spawns: half a unit below the camera.
pub open spec fn missile_spawn_spec(c: Camera) -> Vec3 {
    add_spec(c.position, scale_spec(cam_up_spec(c), -500, 1000))
}

/// The initial homing curve: from the spawn point, through a lead point 50
/// units ahead of the camera (the missile accelerating off the rail), to the
/// target's position.
pub open spec fn launch_bezier_spec(c: Camera, target_pos: Vec3) -> QuadraticBezier {
    QuadraticBezier {
        start: missile_spawn_spec(c),
        ctrl: add_spec(missile_spawn_spec(c), scale_spec(cam_front_spec(c), 50000, 1000)),
        end: target_pos,
    }
}

/// The orientation a homing missile takes: the right axis carried onto the
/// direction toward the target, corrected by a quarter yaw so the mesh's
/// forward axis lines up with the flight direction.
pub open spec fn homing_orientation_spec(target_pos: Vec3, own_pos: Vec3) -> Quat {
    mul_spec(
        from_arc_spec(vec_right_spec(), normalize_spec(sub_spec(target_pos, own_pos))),
        from_axis_angle_spec(vec_up_spec(), -90000),
    )
}

/// The missile this ID chases, while it is actively homing.
pub open spec fn missile_target_spec(m: Missile) -> Option<EnemyID> {
    match m.guidance {
        GuidanceStatus::Active(d) => Some(d.target_id),
        GuidanceStatus::Terminating(_) => None,
    }
}

/// The missile after one guidance tick against `enemy` (the live target, or
/// `None` when it is gone): a terminating missile coasts `dt / 10`
/// milli-units forward and counts one tick down; an active missile whose
/// target vanished begins termination; one within the hit radius of its
/// target begins termination where it stands; otherwise it advances along
/// its curve, re-aims the curve's end at the target, moves to the evaluated
/// point and turns to face the target.
pub open spec fn updated_missile_spec(m: Missile, enemy: Option<Enemy>, dt: int) -> Missile {
    match m.guidance {
        GuidanceStatus::Terminating(t) => Missile {
            model: forward_spec(m.model, dt / 10),
            guidance: GuidanceStatus::Terminating((t - 1) as u32),
        },
        GuidanceStatus::Active(d) => match enemy {
            None => Missile {
                model: m.model,
                guidance: GuidanceStatus::Terminating(TERMINATION_TIME),
            },
            Some(e) => {
                let target_pos = e.aircraft.model.transformation.translation;
                if dist2_spec(m.model.transformation.translation, target_pos) < HIT_RADIUS_SQ {
                    Missile {
                        model: m.model,
                        guidance: GuidanceStatus::Terminating(TERMINATION_TIME),
                    }
                } else {
                    let p2 = advanced_progress_spec(d.bezier, d.progress as int, 1000, dt);
                    let npos = eval_spec(d.bezier, p2);
                    Missile {
                        model: crate::model::Model {
                            transformation: crate::model::Transformation {
                                translation: npos,
                                scale: m.model.transformation.scale,
                            },
                            orientation: homing_orientation_spec(target_pos, npos),
                        },
                        guidance: GuidanceStatus::Active(
                            GuidanceData {
                                target_id: d.target_id,
                                bezier: QuadraticBezier { end: target_pos, ..d.bezier },
                                progress: p2 as i64,
                            },
                        ),
                    }
                }
            },
        },
    }
}

/// What the tick reports: a hit on the target's ID the moment the distance
/// falls strictly inside the hit radius, the start of termination when the
/// target vanished, nothing otherwise.
pub open spec fn update_msg_spec(m: Missile, enemy: Option<Enemy>, dt: int) -> Option<
    MissileMessage,
> {
    match m.guidance {
        GuidanceStatus::Terminating(t) => None,
        GuidanceStatus::Active(d) => match enemy {
            None => Some(MissileMessage::BeganTermination),
            Some(e) => {
                let target_pos = e.aircraft.model.transformation.translation;
                if dist2_spec(m.model.transformation.translation, target_pos) < HIT_RADIUS_SQ {
                    Some(MissileMessage::HitEnemy(e.id))
                } else {
                    None
                }
            },
        },
    }
}

impl Missile {
    /// Create a missile at the camera with the camera's orientation; with a
    /// target it starts homing, without one it starts its termination
    /// countdown at once.
    pub fn new(camera: &Camera, target: Option<&Enemy>) -> (r: Missile)
        requires
            cam_wf(*camera),
            target is Some ==> enemy_wf(*target->Some_0),
        ensures
            r.model.orientation == camera.orientation,
            r.model.transformation.translation == missile_spawn_spec(*camera),
            r.model.transformation.scale == 1000,
            target is None ==> r.guidance == GuidanceStatus::Terminating(TERMINATION_TIME),
            target is Some ==> r.guidance == GuidanceStatus::Active(
                GuidanceData {
                    target_id: target->Some_0.id,
                    bezier: launch_bezier_spec(
                        *camera,
                        target->Some_0.aircraft.model.transformation.translation,
                    ),
                    progress: 0i64,
                },
            ),
            missile_wf(r),
    {
        let mut model = Model::default();
        model.apply_quaternion(camera.orientation_quat());
        proof {
            lemma_mul_identity_left(camera.orientation);
        }
        let pos = camera.position().add(camera.up().scale(-500, 1000));
        model.set_translation(pos);
        let guidance = match target {
            Some(enemy) => {
                let start = pos;
                let end = enemy.aircraft.model.position();
                let mid = pos.add(camera.front().scale(50000, 1000));
                GuidanceStatus::new(
                    enemy.id(),
                    QuadraticBezier::from_points(start, mid, end),
                )
            }
            None => GuidanceStatus::none(),
        };
        Missile { model, guidance }
    }

    /// One guidance tick. An active missile first tests for a hit on its
    /// target, then advances along its curve while re-aiming the curve's end
    /// at the target; a missile whose target vanished begins termination; a
    /// terminating missile coasts forward and counts down.
    pub fn update(&mut self, enemy: Option<&Enemy>, dt: i64) -> (r: Option<MissileMessage>)
        requires
            missile_wf(*old(self)),
            enemy is Some ==> enemy_wf(*enemy->Some_0),
            0 <= dt <= 10_000_000,
            old(self).guidance matches GuidanceStatus::Terminating(t) ==> t >= 1,
        ensures
            missile_wf(*final(self)),
            enemy is None ==> *final(self) == updated_missile_spec(*old(self), None, dt as int)
                && r == update_msg_spec(*old(self), None, dt as int),
            (enemy matches Some(e) ==> *final(self) == updated_missile_spec(
                *old(self),
                Some(*e),
                dt as int,
            ) && r == update_msg_spec(*old(self), Some(*e), dt as int)),
    {
        match (enemy, self.guidance) {
            (Some(e), GuidanceStatus::Active(_)) => {
                let hit = self.try_hit_target(e);
                if hit.is_some() {
                    hit
                } else {
                    self.guide_towards(e, dt)
                }
            }
            (None, GuidanceStatus::Active(_)) => self.begin_terminate(),
            (_, GuidanceStatus::Terminating(timer)) => self.termination_countdown(timer, dt),
        }
    }

    /// Register a hit when the target is strictly within the hit radius.
    fn try_hit_target(&mut self, target: &Enemy) -> (r: Option<MissileMessage>)
        requires
            missile_wf(*old(self)),
            enemy_wf(*target),
            old(self).guidance is Active,
        ensures
            missile_wf(*final(self)),
            final(self).model == old(self).model,
            ({
                let target_pos = target.aircraft.model.transformation.translation;
                if dist2_spec(old(self).model.transformation.translation, target_pos)
                    < HIT_RADIUS_SQ {
                    &&& r == Some(MissileMessage::HitEnemy(target.id))
                    &&& final(self).guidance == GuidanceStatus::Terminating(TERMINATION_TIME)
                } else {
                    &&& r is None
                    &&& final(self).guidance == old(self).guidance
                }
            }),
    {
        if self.model.position().dist2(target.aircraft.model.position()) < HIT_RADIUS_SQ as i128 {
            self.guidance = GuidanceStatus::none();
            return Some(MissileMessage::HitEnemy(target.id()));
        }
        None
    }

    /// Advance along the homing curve, re-aim its end at the target, move to
    /// the evaluated point and face the target.
    fn guide_towards(&mut self, target: &Enemy, dt: i64) -> (r: Option<MissileMessage>)
        requires
            missile_wf(*old(self)),
            enemy_wf(*target),
            old(self).guidance is Active,
            0 <= dt <= 10_000_000,
        ensures
            missile_wf(*final(self)),
            r is None,
            ({
                let d = old(self).guidance->Active_0;
                let target_pos = target.aircraft.model.transformation.translation;
                let p2 = advanced_progress_spec(d.bezier, d.progress as int, 1000, dt as int);
                let npos = eval_spec(d.bezier, p2);
                &&& final(self).guidance == GuidanceStatus::Active(
                    GuidanceData {
                        target_id: d.target_id,
                        bezier: QuadraticBezier { end: target_pos, ..d.bezier },
                        progress: p2 as i64,
                    },
                )
                &&& final(self).model.transformation.translation == npos
                &&& final(self).model.transformation.scale == old(self).model.transformation.scale
                &&& final(self).model.orientation == homing_orientation_spec(target_pos, npos)
            }),
    {
        let (data_bezier, data_progress, data_target) = match &self.guidance {
            GuidanceStatus::Active(data) => (data.bezier, data.progress, data.target_id),
            GuidanceStatus::Terminating(_) => vstd::pervasive::unreached(),
        };
        let t = data_bezier.step(1000, dt);
        let sum = data_progress + t;
        let p2: i64 = if sum > PROGRESS_MAX {
            PROGRESS_MAX
        } else {
            sum
        };
        let new_point = data_bezier.evaluate(p2);
        let target_pos = target.aircraft.model.position();
        self.guidance = GuidanceStatus::Active(
            GuidanceData {
                target_id: data_target,
                bezier: QuadraticBezier {
                    start: data_bezier.start,
                    ctrl: data_bezier.ctrl,
                    end: target_pos,
                },
                progress: p2,
            },
        );
        self.model.set_translation(new_point);
        let vec_to_enemy = target_pos.sub(new_point).normalize();
        let quat = Quat::from_arc(crate::model::vec_right(), vec_to_enemy);
        self.model.set_orientation(quat);
        self.model.yaw(-90000);
        None
    }

    /// The missile has no target any more: start the countdown.
    pub fn begin_terminate(&mut self) -> (r: Option<MissileMessage>)
        requires
            missile_wf(*old(self)),
        ensures
            missile_wf(*final(self)),
            final(self).guidance == GuidanceStatus::Terminating(TERMINATION_TIME),
            final(self).model == old(self).model,
            r == Some(MissileMessage::BeganTermination),
    {
        self.guidance = GuidanceStatus::none();
        Some(MissileMessage::BeganTermination)
    }

    /// Coast forward at 100 units per second and count one tick down.
    fn termination_countdown(&mut self, timer: u32, dt: i64) -> (r: Option<MissileMessage>)
        requires
            missile_wf(*old(self)),
            old(self).guidance == GuidanceStatus::Terminating(timer),
            timer >= 1,
            0 <= dt,
        ensures
            missile_wf(*final(self)),
            final(self).guidance == GuidanceStatus::Terminating((timer - 1) as u32),
            final(self).model == forward_spec(old(self).model, dt as int / 10),
            r is None,
    {
        self.model.forward(dt / 10);
        self.guidance = GuidanceStatus::Terminating(timer - 1);
        None
    }

    /// The enemy this missile chases, while it is actively homing.
    pub fn target(&self) -> (r: Option<EnemyID>)
        ensures
            r == missile_target_spec(*self),
            self.guidance matches GuidanceStatus::Active(d) ==> r == Some(d.target_id),
            self.guidance is Terminating ==> r is None,
    {
        match &self.guidance {
            GuidanceStatus::Terminating(_) => None,
            GuidanceStatus::Active(data) => Some(data.target_id),
        }
    }

    pub fn position(&self) -> (r: Vec3)
        ensures
            r == self.model.transformation.translation,
    {
        self.model.position()
    }
}

} // verus!
