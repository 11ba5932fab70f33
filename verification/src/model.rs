//! The spatial state of every drawable object: translation, scale and an
//! orientation quaternion. Rotation happens about the object's own local axes
//! (the combined transform is translate-scale-rotate), so the world position
//! is exactly the stored translation.

use vstd::prelude::*;
use crate::quat::{from_axis_angle_spec, mul_spec, quat_in_coord_range, rotate_spec, Quat};
use crate::vec3::{
    add_spec, in_coord_range, in_range, normalize_spec, scale_spec, Vec3,
};
use crate::fixed::{clamp_spec, mul_div_clamp, tdiv, COORD_MAX};

verus! {

/// The model-local forward axis (negative z).
pub open spec fn vec_front_spec() -> Vec3 {
    Vec3 { x: 0i64, y: 0i64, z: -1000i64 }
}

pub open spec fn vec_up_spec() -> Vec3 {
    Vec3 { x: 0i64, y: 1000i64, z: 0i64 }
}

pub open spec fn vec_right_spec() -> Vec3 {
    Vec3 { x: 1000i64, y: 0i64, z: 0i64 }
}

pub fn vec_front() -> (r: Vec3)
    ensures
        r == vec_front_spec(),
{
    Vec3 { x: 0, y: 0, z: -1000 }
}

pub fn vec_up() -> (r: Vec3)
    ensures
        r == vec_up_spec(),
{
    Vec3 { x: 0, y: 1000, z: 0 }
}

pub fn vec_right() -> (r: Vec3)
    ensures
        r == vec_right_spec(),
{
    Vec3 { x: 1000, y: 0, z: 0 }
}

/// Translation and uniform scale (milli-scaled: 1000 is scale 1.0).
#[derive(Clone, Copy, PartialEq, Eq, Structural, Debug)]
pub struct Transformation {
    pub translation: Vec3,
    pub scale: i64,
}

impl Default for Transformation {
    fn default() -> (r: Self)
        ensures
            r.translation == (Vec3 { x: 0i64, y: 0i64, z: 0i64 }),
            r.scale == 1000,
    {
        Transformation { translation: Vec3 { x: 0, y: 0, z: 0 }, scale: 1000 }
    }
}

#[derive(Clone, Copy, PartialEq, Eq, Structural, Debug)]
pub struct Model {
    pub transformation: Transformation,
    pub orientation: Quat,
}

/// The direction a model faces: its orientation applied to the forward axis,
/// normalized.
pub open spec fn front_spec(m: Model) -> Vec3 {
    normalize_spec(rotate_spec(m.orientation, vec_front_spec()))
}

/// The model after moving `amount` milli-units along its facing direction.
pub open spec fn forward_spec(m: Model, amount: int) -> Model {
    Model {
        transformation: Transformation {
            translation: add_spec(
                m.transformation.translation,
                scale_spec(front_spec(m), amount, 1000),
            ),
            scale: m.transformation.scale,
        },
        orientation: m.orientation,
    }
}

pub open spec fn model_wf(m: Model) -> bool {
    &&& in_coord_range(m.transformation.translation)
    &&& quat_in_coord_range(m.orientation)
    &&& -COORD_MAX as int <= m.transformation.scale <= COORD_MAX as int
}

impl Default for Model {
    fn default() -> (r: Self)
        ensures
            r.transformation.translation == (Vec3 { x: 0i64, y: 0i64, z: 0i64 }),
            r.transformation.scale == 1000,
            r.orientation == (Quat { w: 1000i64, x: 0i64, y: 0i64, z: 0i64 }),
            model_wf(r),
    {
        Model {
            transformation: Transformation { translation: Vec3 { x: 0, y: 0, z: 0 }, scale: 1000 },
            orientation: Quat { w: 1000, x: 0, y: 0, z: 0 },
        }
    }
}

impl Model {
    /// The model's world position: rotation and scaling act before
    /// translation, so this is the stored translation itself.
    pub fn position(&self) -> (r: Vec3)
        ensures
            r == self.transformation.translation,
    {
        self.transformation.translation
    }

    /// The direction the model faces, as a unit vector.
    pub fn front(&self) -> (r: Vec3)
        requires
            model_wf(*self),
        ensures
            r == front_spec(*self),
            in_range(r, 1000),
    {
        self.orientation.rotate(vec_front()).normalize()
    }

    pub fn scale_by(&mut self, factor: i64)
        requires
            model_wf(*old(self)),
        ensures
            final(self).transformation.scale == clamp_spec(
                tdiv(old(self).transformation.scale as int * factor as int, 1000),
                -COORD_MAX as int,
                COORD_MAX as int,
            ),
            final(self).transformation.translation == old(self).transformation.translation,
            final(self).orientation == old(self).orientation,
            model_wf(*final(self)),
    {
        self.transformation.scale = mul_div_clamp(self.transformation.scale, factor, 1000);
    }

    pub fn set_scale(&mut self, scale: i64)
        requires
            model_wf(*old(self)),
            -COORD_MAX <= scale <= COORD_MAX,
        ensures
            final(self).transformation.scale == scale,
            final(self).transformation.translation == old(self).transformation.translation,
            final(self).orientation == old(self).orientation,
            model_wf(*final(self)),
    {
        self.transformation.scale = scale;
    }

    pub fn set_translation(&mut self, t: Vec3)
        requires
            model_wf(*old(self)),
            in_coord_range(t),
        ensures
            final(self).transformation.translation == t,
            final(self).transformation.scale == old(self).transformation.scale,
            final(self).orientation == old(self).orientation,
            model_wf(*final(self)),
    {
        self.transformation.translation = t;
    }

    /// Compose a further rotation about a local axis.
    pub fn rotate(&mut self, axis: Vec3, angle: i64)
        requires
            model_wf(*old(self)),
            in_coord_range(axis),
            -720000 <= angle <= 720000,
        ensures
            final(self).orientation == mul_spec(
                old(self).orientation,
                from_axis_angle_spec(axis, angle as int),
            ),
            final(self).transformation == old(self).transformation,
            model_wf(*final(self)),
    {
        let rotation = Quat::from_axis_angle(axis, angle);
        self.orientation = self.orientation.mul(rotation);
    }

    /// Compose an arbitrary further rotation.
    pub fn apply_quaternion(&mut self, quaternion: Quat)
        requires
            model_wf(*old(self)),
            quat_in_coord_range(quaternion),
        ensures
            final(self).orientation == mul_spec(old(self).orientation, quaternion),
            final(self).transformation == old(self).transformation,
            model_wf(*final(self)),
    {
        self.orientation = self.orientation.mul(quaternion);
    }

    /// Replace the orientation outright; intended for guidance.
    pub fn set_orientation(&mut self, quaternion: Quat)
        requires
            model_wf(*old(self)),
            quat_in_coord_range(quaternion),
        ensures
            final(self).orientation == quaternion,
            final(self).transformation == old(self).transformation,
            model_wf(*final(self)),
    {
        self.orientation = quaternion;
    }

    /// Rotate about the model-local right axis by `angle` milli-degrees.
    pub fn pitch(&mut self, angle: i64)
        requires
            model_wf(*old(self)),
            -720000 <= angle <= 720000,
        ensures
            final(self).orientation == mul_spec(
                old(self).orientation,
                from_axis_angle_spec(vec_right_spec(), angle as int),
            ),
            final(self).transformation == old(self).transformation,
            model_wf(*final(self)),
    {
        let rotation = Quat::from_axis_angle(vec_right(), angle);
        self.orientation = self.orientation.mul(rotation);
    }

    /// Rotate about the model-local up axis by `angle` milli-degrees.
    pub fn yaw(&mut self, angle: i64)
        requires
            model_wf(*old(self)),
            -720000 <= angle <= 720000,
        ensures
            final(self).orientation == mul_spec(
                old(self).orientation,
                from_axis_angle_spec(vec_up_spec(), angle as int),
            ),
            final(self).transformation == old(self).transformation,
            model_wf(*final(self)),
    {
        let rotation = Quat::from_axis_angle(vec_up(), angle);
        self.orientation = self.orientation.mul(rotation);
    }

    /// Rotate about the model-local forward axis by `angle` milli-degrees.
    pub fn roll(&mut self, angle: i64)
        requires
            model_wf(*old(self)),
            -720000 <= angle <= 720000,
        ensures
            final(self).orientation == mul_spec(
                old(self).orientation,
                from_axis_angle_spec(vec_front_spec(), angle as int),
            ),
            final(self).transformation == old(self).transformation,
            model_wf(*final(self)),
    {
        let rotation = Quat::from_axis_angle(vec_front(), angle);
        self.orientation = self.orientation.mul(rotation);
    }

    /// Move `amount` milli-units along the facing direction.
    pub fn forward(&mut self, amount: i64)
        requires
            model_wf(*old(self)),
        ensures
            *final(self) == forward_spec(*old(self), amount as int),
            model_wf(*final(self)),
    {
        let f = self.front();
        let delta = f.scale(amount, 1000);
        self.transformation.translation = self.transformation.translation.add(delta);
    }
}

} // verus!
