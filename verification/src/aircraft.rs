//! An aircraft: a spatial model, a performance blueprint, control surfaces
//! and guns. Steering accumulates clamped control bias; the bias decays back
//! toward neutral on axes without input.

use vstd::prelude::*;
use crate::camera::{cam_wf, Camera, ControlSurfaces};
use crate::control_surfaces::{
    controls_wf, decay_step_spec, lemma_decay_bounded, Controls,
};
use crate::fixed::{clamp_spec, tdiv, tdiv_clamp, COORD_MAX};
use crate::guns::{guns_wf, Guns, TIME_MAX};
use crate::model::{model_wf, Model};

verus! {

/// Largest pitch deflection, milli-scaled.
pub const MAX_PITCH_BIAS: i64 = 35_000;

/// Largest yaw deflection, milli-scaled.
pub const MAX_YAW_BIAS: i64 = 20_000;

/// Largest roll deflection, milli-scaled.
pub const MAX_ROLL_BIAS: i64 = 70_000;

/// Gain applied to every steering input.
pub const STEERING_SENSITIVITY: i64 = 1500;

/// Steering rates never exceed this (one whole unit per input unit).
pub const RATE_MAX: i64 = 1_000_000;

/// Longest frame time the flight model accepts, in microseconds.
pub const DT_MAX: i64 = 400_000;

/// Per-kind steering rates, milli-scaled.
#[derive(Clone, Copy, PartialEq, Eq, Structural, Debug)]
pub struct AircraftSpec {
    pub pitch_rate: i64,
    pub yaw_rate: i64,
    pub roll_rate: i64,
}

impl AircraftSpec {
    /// Rates given as pitch, yaw, roll.
    pub fn new(v: [i64; 3]) -> (r: AircraftSpec)
        ensures
            r.pitch_rate == v[0],
            r.yaw_rate == v[1],
            r.roll_rate == v[2],
    {
        AircraftSpec { pitch_rate: v[0], yaw_rate: v[1], roll_rate: v[2] }
    }

    pub fn pitch_rate(&self) -> (r: i64)
        ensures
            r == self.pitch_rate,
    {
        self.pitch_rate
    }

    pub fn yaw_rate(&self) -> (r: i64)
        ensures
            r == self.yaw_rate,
    {
        self.yaw_rate
    }

    pub fn roll_rate(&self) -> (r: i64)
        ensures
            r == self.roll_rate,
    {
        self.roll_rate
    }
}

/// The aircraft models available.
#[derive(Clone, Copy, PartialEq, Eq, Structural, Hash, Debug)]
pub enum AircraftKind {
    Mig21,
    F16,
}

/// Which kinds have a performance blueprint configured.
pub open spec fn has_blueprint(kind: AircraftKind) -> bool {
    kind == AircraftKind::Mig21
}

/// The blueprint of a configured kind; a kind without a blueprint (refused
/// by `Aircraft::new`) maps to zeroed rates.
pub open spec fn blueprint_of(kind: AircraftKind) -> AircraftSpec {
    match kind {
        AircraftKind::Mig21 => AircraftSpec { pitch_rate: 30i64, yaw_rate: 50i64, roll_rate: 50i64 },
        AircraftKind::F16 => AircraftSpec { pitch_rate: 0i64, yaw_rate: 0i64, roll_rate: 0i64 },
    }
}

#[derive(Clone, PartialEq, Eq, Debug)]
pub struct Aircraft {
    pub model: Model,
    pub blueprint: AircraftSpec,
    pub controls: Controls,
    pub kind: AircraftKind,
    pub guns: Guns,
}

pub open spec fn aircraft_wf(a: Aircraft) -> bool {
    &&& model_wf(a.model)
    &&& 0 <= a.blueprint.pitch_rate <= RATE_MAX
    &&& 0 <= a.blueprint.yaw_rate <= RATE_MAX
    &&& 0 <= a.blueprint.roll_rate <= RATE_MAX
    &&& -MAX_PITCH_BIAS as int <= a.controls.pitch_bias <= MAX_PITCH_BIAS as int
    &&& -MAX_YAW_BIAS as int <= a.controls.yaw_bias <= MAX_YAW_BIAS as int
    &&& -MAX_ROLL_BIAS as int <= a.controls.roll_bias <= MAX_ROLL_BIAS as int
    &&& -COORD_MAX as int <= a.controls.throttle <= COORD_MAX as int
    &&& guns_wf(a.guns)
}

/// The clamped bias increment for a steering input: rate times input times
/// sensitivity, milli-scaled.
pub open spec fn steer_add_spec(rate: int, amount: int) -> int {
    clamp_spec(tdiv(rate * amount * 1500, 1000), -COORD_MAX as int, COORD_MAX as int)
}

/// A bias after a steering input: increment added, then confined to the
/// axis's maximum deflection.
pub open spec fn steered_bias_spec(bias: int, rate: int, amount: int, maxb: int) -> int {
    clamp_spec(bias + steer_add_spec(rate, amount), -maxb, maxb)
}

fn steer_add(rate: i64, amount: i64) -> (r: i64)
    requires
        0 <= rate <= RATE_MAX,
        -COORD_MAX <= amount <= COORD_MAX,
    ensures
        r == steer_add_spec(rate as int, amount as int),
        -COORD_MAX <= r <= COORD_MAX,
{
    proof {
        assert(-1000000000000000000000 <= rate as int * amount as int
            <= 1000000000000000000000) by (nonlinear_arith)
            requires
                0 <= rate <= RATE_MAX as int,
                -COORD_MAX as int <= amount <= COORD_MAX as int,
        ;
        assert(rate as int * amount as int * 1500 == (rate as int * amount as int) * 1500);
    }
    let p: i128 = (rate as i128) * (amount as i128);
    tdiv_clamp(p * 1500, 1000)
}

impl Aircraft {
    /// A fresh aircraft of a kind that has a blueprint: default spatial
    /// state, neutral controls, empty guns.
    pub fn new(kind: AircraftKind) -> (r: Aircraft)
        requires
            has_blueprint(kind),
        ensures
            r.model.transformation.translation == (crate::vec3::Vec3 { x: 0i64, y: 0i64, z: 0i64 }),
            r.model.transformation.scale == 1000,
            r.model.orientation == (crate::quat::Quat { w: 1000i64, x: 0i64, y: 0i64, z: 0i64 }),
            r.blueprint == blueprint_of(kind),
            r.controls.pitch_bias == 0,
            r.controls.yaw_bias == 0,
            r.controls.roll_bias == 0,
            r.controls.throttle == 100,
            r.controls.decay_pitch && r.controls.decay_yaw && r.controls.decay_roll,
            r.kind == kind,
            r.guns.bullets@.len() == 0,
            r.guns.last_fire_time == 0,
            !r.guns.firing,
            aircraft_wf(r),
    {
        Aircraft {
            model: Model::default(),
            blueprint: AircraftSpec::new([30, 50, 50]),
            controls: Controls::default(),
            kind,
            guns: Guns::new(),
        }
    }

    pub fn model(&self) -> (r: &Model)
        ensures
            r == self.model,
    {
        &self.model
    }

    pub fn model_mut(&mut self) -> (r: &mut Model)
        ensures
            *r == old(self).model,
            *final(self) == (Aircraft { model: *final(r), ..*old(self) }),
    {
        &mut self.model
    }

    pub fn controls(&self) -> (r: &Controls)
        ensures
            r == self.controls,
    {
        &self.controls
    }

    pub fn controls_mut(&mut self) -> (r: &mut Controls)
        ensures
            *r == old(self).controls,
            *final(self) == (Aircraft { controls: *final(r), ..*old(self) }),
    {
        &mut self.controls
    }

    pub fn guns(&self) -> (r: &Guns)
        ensures
            r == self.guns,
    {
        &self.guns
    }

    pub fn guns_mut(&mut self) -> (r: &mut Guns)
        ensures
            *r == old(self).guns,
            *final(self) == (Aircraft { guns: *final(r), ..*old(self) }),
    {
        &mut self.guns
    }

    pub fn kind(&self) -> (r: AircraftKind)
        ensures
            r == self.kind,
    {
        self.kind
    }

    pub fn blueprint(&self) -> (r: AircraftSpec)
        ensures
            r == self.blueprint,
    {
        self.blueprint
    }

    pub fn set_decay(&mut self, c: ControlSurfaces, b: bool)
        ensures
            final(self).controls.decay_pitch == if c is Pitch {
                b
            } else {
                old(self).controls.decay_pitch
            },
            final(self).controls.decay_yaw == if c is Yaw {
                b
            } else {
                old(self).controls.decay_yaw
            },
            final(self).controls.decay_roll == if c is Roll {
                b
            } else {
                old(self).controls.decay_roll
            },
            final(self).controls.pitch_bias == old(self).controls.pitch_bias,
            final(self).controls.yaw_bias == old(self).controls.yaw_bias,
            final(self).controls.roll_bias == old(self).controls.roll_bias,
            final(self).controls.throttle == old(self).controls.throttle,
            final(self).model == old(self).model,
            final(self).blueprint == old(self).blueprint,
            final(self).kind == old(self).kind,
            final(self).guns == old(self).guns,
    {
        self.controls.set_decay(c, b);
    }

    /// Fire the guns from the camera pose at clock time `now`.
    pub fn fire_guns(&mut self, camera: &Camera, now: i64)
        requires
            aircraft_wf(*old(self)),
            cam_wf(*camera),
            0 <= now <= TIME_MAX,
        ensures
            final(self).model == old(self).model,
            final(self).blueprint == old(self).blueprint,
            final(self).controls == old(self).controls,
            final(self).kind == old(self).kind,
            old(self).guns.last_fire_time + crate::guns::BULLET_COOLDOWN > now ==> final(self).guns.bullets@ == old(self).guns.bullets@,
            old(self).guns.last_fire_time + crate::guns::BULLET_COOLDOWN <= now ==> final(self).guns.bullets@.len() == old(self).guns.bullets@.len() + 1,
            aircraft_wf(*final(self)),
    {
        self.guns.fire(camera, now);
    }

    /// Decay each axis whose decay flag is set, for an elapsed `dt`.
    pub fn apply_decay(&mut self, dt: i64)
        requires
            aircraft_wf(*old(self)),
            0 <= dt <= DT_MAX,
        ensures
            final(self).controls.pitch_bias == if old(self).controls.decay_pitch {
                decay_step_spec(old(self).controls.pitch_bias as int, dt as int)
            } else {
                old(self).controls.pitch_bias as int
            },
            final(self).controls.yaw_bias == if old(self).controls.decay_yaw {
                decay_step_spec(old(self).controls.yaw_bias as int, dt as int)
            } else {
                old(self).controls.yaw_bias as int
            },
            final(self).controls.roll_bias == if old(self).controls.decay_roll {
                decay_step_spec(old(self).controls.roll_bias as int, dt as int)
            } else {
                old(self).controls.roll_bias as int
            },
            final(self).controls.throttle == old(self).controls.throttle,
            final(self).controls.decay_pitch == old(self).controls.decay_pitch,
            final(self).controls.decay_yaw == old(self).controls.decay_yaw,
            final(self).controls.decay_roll == old(self).controls.decay_roll,
            final(self).model == old(self).model,
            final(self).blueprint == old(self).blueprint,
            final(self).kind == old(self).kind,
            final(self).guns == old(self).guns,
            aircraft_wf(*final(self)),
    {
        proof {
            lemma_decay_bounded(self.controls.pitch_bias as int, dt as int, MAX_PITCH_BIAS as int);
            lemma_decay_bounded(self.controls.yaw_bias as int, dt as int, MAX_YAW_BIAS as int);
            lemma_decay_bounded(self.controls.roll_bias as int, dt as int, MAX_ROLL_BIAS as int);
        }
        if self.controls.decay_pitch {
            self.controls.apply_pitch_decay(dt);
        }
        if self.controls.decay_yaw {
            self.controls.apply_yaw_decay(dt);
        }
        if self.controls.decay_roll {
            self.controls.apply_roll_decay(dt);
        }
    }

    /// Raise the throttle by the elapsed time, confined to its working range.
    pub fn throttle_up(&mut self, dt: i64)
        requires
            aircraft_wf(*old(self)),
            0 <= dt <= 10_000_000,
        ensures
            final(self).controls.throttle == clamp_spec(
                old(self).controls.throttle + dt / 1000,
                10_000,
                1_000_000,
            ),
            *final(self) == (Aircraft {
                controls: Controls { throttle: final(self).controls.throttle, ..old(self).controls },
                ..*old(self)
            }),
            aircraft_wf(*final(self)),
    {
        self.controls.throttle = crate::fixed::clamp_i64(
            self.controls.throttle + dt / 1000,
            10_000,
            1_000_000,
        );
    }

    /// Lower the throttle by the elapsed time, confined to its working range.
    pub fn throttle_down(&mut self, dt: i64)
        requires
            aircraft_wf(*old(self)),
            0 <= dt <= 10_000_000,
        ensures
            final(self).controls.throttle == clamp_spec(
                old(self).controls.throttle - dt / 1000,
                10_000,
                1_000_000,
            ),
            *final(self) == (Aircraft {
                controls: Controls { throttle: final(self).controls.throttle, ..old(self).controls },
                ..*old(self)
            }),
            aircraft_wf(*final(self)),
    {
        self.controls.throttle = crate::fixed::clamp_i64(
            self.controls.throttle - dt / 1000,
            10_000,
            1_000_000,
        );
    }

    /// Accumulate pitch bias for an input of `amount`; the result always lies
    /// within `[-MAX_PITCH_BIAS, MAX_PITCH_BIAS]`.
    pub fn pitch(&mut self, amount: i64)
        requires
            aircraft_wf(*old(self)),
            -COORD_MAX <= amount <= COORD_MAX,
        ensures
            final(self).controls.pitch_bias == steered_bias_spec(
                old(self).controls.pitch_bias as int,
                old(self).blueprint.pitch_rate as int,
                amount as int,
                MAX_PITCH_BIAS as int,
            ),
            -MAX_PITCH_BIAS <= final(self).controls.pitch_bias <= MAX_PITCH_BIAS,
            *final(self) == (Aircraft {
                controls: Controls {
                    pitch_bias: final(self).controls.pitch_bias,
                    ..old(self).controls
                },
                ..*old(self)
            }),
            aircraft_wf(*final(self)),
    {
        let add = steer_add(self.blueprint.pitch_rate, amount);
        self.controls.pitch_bias = crate::fixed::clamp_i64(
            self.controls.pitch_bias + add,
            -MAX_PITCH_BIAS,
            MAX_PITCH_BIAS,
        );
    }

    /// Accumulate yaw bias for an input of `amount`; the result always lies
    /// within `[-MAX_YAW_BIAS, MAX_YAW_BIAS]`.
    pub fn yaw(&mut self, amount: i64)
        requires
            aircraft_wf(*old(self)),
            -COORD_MAX <= amount <= COORD_MAX,
        ensures
            final(self).controls.yaw_bias == steered_bias_spec(
                old(self).controls.yaw_bias as int,
                old(self).blueprint.yaw_rate as int,
                amount as int,
                MAX_YAW_BIAS as int,
            ),
            -MAX_YAW_BIAS <= final(self).controls.yaw_bias <= MAX_YAW_BIAS,
            *final(self) == (Aircraft {
                controls: Controls { yaw_bias: final(self).controls.yaw_bias, ..old(self).controls },
                ..*old(self)
            }),
            aircraft_wf(*final(self)),
    {
        let add = steer_add(self.blueprint.yaw_rate, amount);
        self.controls.yaw_bias = crate::fixed::clamp_i64(
            self.controls.yaw_bias + add,
            -MAX_YAW_BIAS,
            MAX_YAW_BIAS,
        );
    }

    /// Accumulate roll bias for an input of `amount`; the result always lies
    /// within `[-MAX_ROLL_BIAS, MAX_ROLL_BIAS]`.
    pub fn roll(&mut self, amount: i64)
        requires
            aircraft_wf(*old(self)),
            -COORD_MAX <= amount <= COORD_MAX,
        ensures
            final(self).controls.roll_bias == steered_bias_spec(
                old(self).controls.roll_bias as int,
                old(self).blueprint.roll_rate as int,
                amount as int,
                MAX_ROLL_BIAS as int,
            ),
            -MAX_ROLL_BIAS <= final(self).controls.roll_bias <= MAX_ROLL_BIAS,
            *final(self) == (Aircraft {
                controls: Controls {
                    roll_bias: final(self).controls.roll_bias,
                    ..old(self).controls
                },
                ..*old(self)
            }),
            aircraft_wf(*final(self)),
    {
        let add = steer_add(self.blueprint.roll_rate, amount);
        self.controls.roll_bias = crate::fixed::clamp_i64(
            self.controls.roll_bias + add,
            -MAX_ROLL_BIAS,
            MAX_ROLL_BIAS,
        );
    }

    /// Push the throttle directly by a raw steering amount.
    pub fn forward(&mut self, amount: i64)
        requires
            aircraft_wf(*old(self)),
            -COORD_MAX <= amount <= COORD_MAX,
        ensures
            final(self).controls.throttle == clamp_spec(
                old(self).controls.throttle + amount * 750_000,
                -COORD_MAX as int,
                COORD_MAX as int,
            ),
            *final(self) == (Aircraft {
                controls: Controls { throttle: final(self).controls.throttle, ..old(self).controls },
                ..*old(self)
            }),
            aircraft_wf(*final(self)),
    {
        let bump: i128 = (self.controls.throttle as i128) + (amount as i128) * 750_000;
        self.controls.throttle = tdiv_clamp(bump, 1);
        proof {
            assert(tdiv(
                old(self).controls.throttle + amount as int * 750_000,
                1,
            ) == old(self).controls.throttle + amount as int * 750_000);
        }
    }
}

} // verus!
