//! Accumulated control-surface deflection of an aircraft, and its decay back
//! toward neutral when an axis receives no input.

use vstd::prelude::*;
use crate::camera::ControlSurfaces;
use crate::fixed::COORD_MAX;

verus! {

/// Decay rate toward neutral, in units per second.
pub const DECAY: i64 = 50;

/// Mechanical state of the control surfaces. Biases are milli-scaled
/// deflections, throttle is milli-units per second.
#[derive(Clone, Copy, PartialEq, Eq, Structural, Debug)]
pub struct Controls {
    pub pitch_bias: i64,
    pub yaw_bias: i64,
    pub roll_bias: i64,
    pub throttle: i64,
    pub decay_pitch: bool,
    pub decay_yaw: bool,
    pub decay_roll: bool,
}

pub open spec fn controls_wf(c: Controls) -> bool {
    &&& -COORD_MAX as int <= c.pitch_bias <= COORD_MAX as int
    &&& -COORD_MAX as int <= c.yaw_bias <= COORD_MAX as int
    &&& -COORD_MAX as int <= c.roll_bias <= COORD_MAX as int
    &&& -COORD_MAX as int <= c.throttle <= COORD_MAX as int
}

/// One decay step of a bias for an elapsed `dt` microseconds: while the bias
/// exceeds `dt` seconds in magnitude it moves `DECAY * dt` toward zero,
/// stopping exactly at zero rather than crossing it; a smaller bias snaps to
/// zero at once. The bias therefore approaches zero monotonically and never
/// changes sign. On the fixed-point grid a frame below 20 microseconds has a
/// decay step of zero, so convergence (`lemma_decay_converges`) asks for
/// frames of at least 20 microseconds.
pub open spec fn decay_step_spec(bias: int, dt: int) -> int {
    let step = dt / 20;
    if bias * 1000 > dt {
        if bias - step < 0 {
            0
        } else {
            bias - step
        }
    } else if (-bias) * 1000 > dt {
        if bias + step > 0 {
            0
        } else {
            bias + step
        }
    } else {
        0
    }
}

impl Controls {
    /// Whether the given axis decays toward neutral this frame.
    pub open spec fn decay_of(self, surface: ControlSurfaces) -> bool {
        match surface {
            ControlSurfaces::Pitch => self.decay_pitch,
            ControlSurfaces::Yaw => self.decay_yaw,
            ControlSurfaces::Roll => self.decay_roll,
        }
    }

    pub fn pitch_bias_mut(&mut self) -> (r: &mut i64)
        ensures
            *r == old(self).pitch_bias,
            *final(self) == (Controls { pitch_bias: *final(r), ..*old(self) }),
    {
        &mut self.pitch_bias
    }

    pub fn yaw_bias_mut(&mut self) -> (r: &mut i64)
        ensures
            *r == old(self).yaw_bias,
            *final(self) == (Controls { yaw_bias: *final(r), ..*old(self) }),
    {
        &mut self.yaw_bias
    }

    pub fn roll_bias_mut(&mut self) -> (r: &mut i64)
        ensures
            *r == old(self).roll_bias,
            *final(self) == (Controls { roll_bias: *final(r), ..*old(self) }),
    {
        &mut self.roll_bias
    }

    pub fn throttle_mut(&mut self) -> (r: &mut i64)
        ensures
            *r == old(self).throttle,
            *final(self) == (Controls { throttle: *final(r), ..*old(self) }),
    {
        &mut self.throttle
    }

    pub fn pitch_bias(&self) -> (r: i64)
        ensures
            r == self.pitch_bias,
    {
        self.pitch_bias
    }

    pub fn yaw_bias(&self) -> (r: i64)
        ensures
            r == self.yaw_bias,
    {
        self.yaw_bias
    }

    pub fn roll_bias(&self) -> (r: i64)
        ensures
            r == self.roll_bias,
    {
        self.roll_bias
    }

    pub fn throttle(&self) -> (r: i64)
        ensures
            r == self.throttle,
    {
        self.throttle
    }

    /// The decay flags, indexed as pitch, yaw, roll.
    pub fn decay(&self) -> (r: [bool; 3])
        ensures
            r[0] == self.decay_pitch,
            r[1] == self.decay_yaw,
            r[2] == self.decay_roll,
    {
        [self.decay_pitch, self.decay_yaw, self.decay_roll]
    }

    pub fn set_decay(&mut self, surface: ControlSurfaces, b: bool)
        ensures
            final(self).decay_pitch == if surface is Pitch { b } else { old(self).decay_pitch },
            final(self).decay_yaw == if surface is Yaw { b } else { old(self).decay_yaw },
            final(self).decay_roll == if surface is Roll { b } else { old(self).decay_roll },
            final(self).pitch_bias == old(self).pitch_bias,
            final(self).yaw_bias == old(self).yaw_bias,
            final(self).roll_bias == old(self).roll_bias,
            final(self).throttle == old(self).throttle,
    {
        match surface {
            ControlSurfaces::Pitch => self.decay_pitch = b,
            ControlSurfaces::Yaw => self.decay_yaw = b,
            ControlSurfaces::Roll => self.decay_roll = b,
        }
    }

    /// Set every decay flag at once; done at the start of each input pass.
    pub fn set_all_decays(&mut self, b: bool)
        ensures
            final(self).decay_pitch == b,
            final(self).decay_yaw == b,
            final(self).decay_roll == b,
            final(self).pitch_bias == old(self).pitch_bias,
            final(self).yaw_bias == old(self).yaw_bias,
            final(self).roll_bias == old(self).roll_bias,
            final(self).throttle == old(self).throttle,
    {
        self.decay_pitch = b;
        self.decay_yaw = b;
        self.decay_roll = b;
    }

    /// Move the pitch bias one decay step toward zero.
    pub fn apply_pitch_decay(&mut self, dt: i64)
        requires
            controls_wf(*old(self)),
            0 <= dt <= 10_000_000,
        ensures
            final(self).pitch_bias == decay_step_spec(old(self).pitch_bias as int, dt as int),
            *final(self) == (Controls { pitch_bias: final(self).pitch_bias, ..*old(self) }),
            controls_wf(*final(self)),
    {
        self.pitch_bias = decay_step(self.pitch_bias, dt);
    }

    /// Move the yaw bias one decay step toward zero.
    pub fn apply_yaw_decay(&mut self, dt: i64)
        requires
            controls_wf(*old(self)),
            0 <= dt <= 10_000_000,
        ensures
            final(self).yaw_bias == decay_step_spec(old(self).yaw_bias as int, dt as int),
            *final(self) == (Controls { yaw_bias: final(self).yaw_bias, ..*old(self) }),
            controls_wf(*final(self)),
    {
        self.yaw_bias = decay_step(self.yaw_bias, dt);
    }

    /// Move the roll bias one decay step toward zero.
    pub fn apply_roll_decay(&mut self, dt: i64)
        requires
            controls_wf(*old(self)),
            0 <= dt <= 10_000_000,
        ensures
            final(self).roll_bias == decay_step_spec(old(self).roll_bias as int, dt as int),
            *final(self) == (Controls { roll_bias: final(self).roll_bias, ..*old(self) }),
            controls_wf(*final(self)),
    {
        self.roll_bias = decay_step(self.roll_bias, dt);
    }
}

impl Default for Controls {
    fn default() -> (r: Controls)
        ensures
            r.pitch_bias == 0,
            r.yaw_bias == 0,
            r.roll_bias == 0,
            r.throttle == 100,
            r.decay_pitch && r.decay_yaw && r.decay_roll,
            controls_wf(r),
    {
        Controls {
            pitch_bias: 0,
            yaw_bias: 0,
            roll_bias: 0,
            throttle: 100,
            decay_pitch: true,
            decay_yaw: true,
            decay_roll: true,
        }
    }
}

fn decay_step(bias: i64, dt: i64) -> (r: i64)
    requires
        -COORD_MAX <= bias <= COORD_MAX,
        0 <= dt <= 10_000_000,
    ensures
        r == decay_step_spec(bias as int, dt as int),
        -COORD_MAX <= r <= COORD_MAX,
{
    let step: i64 = dt / 20;
    if 1000 * bias > dt {
        if bias - step < 0 {
            0
        } else {
            bias - step
        }
    } else if 1000 * (-bias) > dt {
        if bias + step > 0 {
            0
        } else {
            bias + step
        }
    } else {
        0
    }
}

/// Decay never overshoots past zero and never grows the deflection: the new
/// bias lies between zero and the old bias, whatever the inputs.
pub proof fn lemma_decay_no_overshoot(bias: int, dt: int)
    requires
        0 <= dt <= 10_000_000,
    ensures
        bias >= 0 ==> 0 <= decay_step_spec(bias, dt) <= bias,
        bias <= 0 ==> bias <= decay_step_spec(bias, dt) <= 0,
{
    crate::fixed::lemma_div_bound(dt, 20);
}

/// Decay keeps a bias inside any symmetric bound containing it.
pub proof fn lemma_decay_bounded(bias: int, dt: int, m: int)
    requires
        0 <= dt <= 10_000_000,
        -m <= bias <= m,
    ensures
        -m <= decay_step_spec(bias, dt) <= m,
{
    lemma_decay_no_overshoot(bias, dt);
}

/// A neutral bias stays neutral under decay.
pub proof fn lemma_decay_zero(dt: int, k: int)
    requires
        dt >= 0,
        k >= 0,
    ensures
        decay_iter_spec(0, dt, k) == 0,
    decreases k,
{
    if k > 0 {
        lemma_decay_zero(dt, k - 1);
    }
}

/// With decay active and no input, every bias reaches exactly zero after at
/// most `|bias|` ticks (for any `dt` of at least 20 microseconds, so that a
/// decay step moves the bias at all), and stays there.
pub proof fn lemma_decay_converges(bias: int, dt: int, k: int)
    requires
        20 <= dt <= 10_000_000,
        k >= (if bias >= 0 {
            bias
        } else {
            -bias
        }),
    ensures
        decay_iter_spec(bias, dt, k) == 0,
    decreases k,
{
    let step = dt / 20;
    crate::fixed::lemma_div_bound(dt, 20);
    assert(step >= 1);
    if bias == 0 {
        lemma_decay_zero(dt, k);
    } else {
        let b1 = decay_step_spec(bias, dt);
        lemma_decay_no_overshoot(bias, dt);
        assert(bias > 0 ==> b1 <= bias - 1 || b1 == 0);
        assert(bias < 0 ==> b1 >= bias + 1 || b1 == 0);
        lemma_decay_converges(b1, dt, k - 1);
    }
}

/// `k` decay steps applied to a bias.
pub open spec fn decay_iter_spec(bias: int, dt: int, k: int) -> int
    decreases k,
{
    if k <= 0 {
        bias
    } else {
        decay_iter_spec(decay_step_spec(bias, dt), dt, k - 1)
    }
}

} // verus!
