//! The player camera: a position and an orientation, rotated about its own
//! current axes, plus the projection matrix used by HUD projection.

use vstd::prelude::*;
use crate::fixed::{clamp_spec, mul_div_clamp, tdiv, tdiv_clamp, COORD_MAX};
use crate::matrix::{mat4_in_coord_range, Mat4, Vec4};
use crate::model::{vec_front, vec_front_spec, vec_up, vec_up_spec};
use crate::quat::{
    from_axis_angle_spec, mul_spec, normalize_spec as quat_normalize_spec, quat_in_coord_range,
    rotate_spec, Quat,
};
use crate::vec3::{
    add_spec, cross_spec, dot_spec, in_coord_range, in_range, normalize_spec, scale_spec, Vec3,
};

verus! {

/// A discrete movement command from the input layer.
#[derive(Clone, Copy, PartialEq, Eq, Structural, Debug)]
pub enum Movement {
    PitchUp,
    PitchDown,
    YawLeft,
    YawRight,
    RollRight,
    RollLeft,
    ThrottleUp,
    ThrottleDown,
}

/// The three control-surface axes of an aircraft.
#[derive(Clone, Copy, PartialEq, Eq, Structural, Debug)]
pub enum ControlSurfaces {
    Pitch,
    Yaw,
    Roll,
}

impl ControlSurfaces {
    /// Index into per-axis arrays.
    pub open spec fn index_spec(self) -> int {
        match self {
            ControlSurfaces::Pitch => 0,
            ControlSurfaces::Yaw => 1,
            ControlSurfaces::Roll => 2,
        }
    }

    pub fn index(self) -> (r: usize)
        ensures
            r == self.index_spec(),
            r < 3,
    {
        match self {
            ControlSurfaces::Pitch => 0,
            ControlSurfaces::Yaw => 1,
            ControlSurfaces::Roll => 2,
        }
    }
}

#[derive(Clone, Copy, PartialEq, Eq, Structural, Debug)]
pub struct Camera {
    pub position: Vec3,
    pub orientation: Quat,
    /// Mouse sensitivity, milli-scaled (100 is 0.1).
    pub mouse_sensitivity: i64,
    /// Field-of-view zoom in milli-degrees.
    pub zoom: i64,
}

pub open spec fn cam_wf(c: Camera) -> bool {
    &&& in_coord_range(c.position)
    &&& quat_in_coord_range(c.orientation)
}

/// The direction the camera looks, as a unit vector.
pub open spec fn cam_front_spec(c: Camera) -> Vec3 {
    normalize_spec(rotate_spec(c.orientation, vec_front_spec()))
}

pub open spec fn cam_up_spec(c: Camera) -> Vec3 {
    normalize_spec(rotate_spec(c.orientation, vec_up_spec()))
}

pub open spec fn cam_right_spec(c: Camera) -> Vec3 {
    normalize_spec(rotate_spec(c.orientation, Vec3 { x: 1000i64, y: 0i64, z: 0i64 }))
}

/// Rotation of the whole camera frame about one of its current axes.
pub open spec fn cam_rotated_spec(c: Camera, axis: Vec3, amount: int) -> Camera {
    Camera {
        orientation: quat_normalize_spec(
            mul_spec(from_axis_angle_spec(axis, amount), c.orientation),
        ),
        ..c
    }
}

impl Default for Camera {
    /// A camera five units behind the origin, looking down negative z.
    fn default() -> (r: Camera)
        ensures
            r.position == (Vec3 { x: 0i64, y: 0i64, z: 5000i64 }),
            r.orientation == (Quat { w: 1000i64, x: 0i64, y: 0i64, z: 0i64 }),
            r.mouse_sensitivity == 100,
            r.zoom == 45000,
            cam_wf(r),
    {
        Camera {
            position: Vec3 { x: 0, y: 0, z: 5000 },
            orientation: Quat { w: 1000, x: 0, y: 0, z: 0 },
            mouse_sensitivity: 100,
            zoom: 45000,
        }
    }
}

impl Camera {
    pub fn position(&self) -> (r: Vec3)
        ensures
            r == self.position,
    {
        self.position
    }

    pub fn front(&self) -> (r: Vec3)
        requires
            cam_wf(*self),
        ensures
            r == cam_front_spec(*self),
            in_range(r, 1000),
    {
        self.orientation.rotate(vec_front()).normalize()
    }

    pub fn up(&self) -> (r: Vec3)
        requires
            cam_wf(*self),
        ensures
            r == cam_up_spec(*self),
            in_range(r, 1000),
    {
        self.orientation.rotate(vec_up()).normalize()
    }

    pub fn right(&self) -> (r: Vec3)
        requires
            cam_wf(*self),
        ensures
            r == cam_right_spec(*self),
            in_range(r, 1000),
    {
        self.orientation.rotate(Vec3 { x: 1000, y: 0, z: 0 }).normalize()
    }

    /// The orientation that carries the canonical axes onto the camera frame.
    pub fn orientation_quat(&self) -> (r: Quat)
        ensures
            r == self.orientation,
    {
        self.orientation
    }

    /// Tilt the view about the current right axis by `amount` milli-degrees.
    pub fn pitch(&mut self, amount: i64)
        requires
            cam_wf(*old(self)),
            -720000 <= amount <= 720000,
        ensures
            *final(self) == cam_rotated_spec(*old(self), cam_right_spec(*old(self)), amount as int),
            cam_wf(*final(self)),
    {
        let axis = self.right();
        let rotation = Quat::from_axis_angle(axis, amount);
        self.orientation = rotation.mul(self.orientation).normalize();
    }

    /// Turn the view about the current up axis by `amount` milli-degrees.
    pub fn yaw(&mut self, amount: i64)
        requires
            cam_wf(*old(self)),
            -720000 <= amount <= 720000,
        ensures
            *final(self) == cam_rotated_spec(*old(self), cam_up_spec(*old(self)), amount as int),
            cam_wf(*final(self)),
    {
        let axis = self.up();
        let rotation = Quat::from_axis_angle(axis, amount);
        self.orientation = rotation.mul(self.orientation).normalize();
    }

    /// Bank the view about the current front axis by `amount` milli-degrees.
    pub fn roll(&mut self, amount: i64)
        requires
            cam_wf(*old(self)),
            -720000 <= amount <= 720000,
        ensures
            *final(self) == cam_rotated_spec(*old(self), cam_front_spec(*old(self)), amount as int),
            cam_wf(*final(self)),
    {
        let axis = self.front();
        let rotation = Quat::from_axis_angle(axis, amount);
        self.orientation = rotation.mul(self.orientation).normalize();
    }

    /// Move `amount` milli-units along the viewing direction.
    pub fn forward(&mut self, amount: i64)
        requires
            cam_wf(*old(self)),
        ensures
            final(self).position == add_spec(
                old(self).position,
                scale_spec(cam_front_spec(*old(self)), amount as int, 1000),
            ),
            final(self).orientation == old(self).orientation,
            final(self).mouse_sensitivity == old(self).mouse_sensitivity,
            final(self).zoom == old(self).zoom,
            cam_wf(*final(self)),
    {
        let f = self.front();
        self.position = self.position.add(f.scale(amount, 1000));
    }

    /// Turn and tilt by mouse offsets (milli-pixels), scaled by sensitivity.
    pub fn process_mouse_movement(&mut self, xoffset: i64, yoffset: i64)
        requires
            cam_wf(*old(self)),
            -7000000 <= xoffset <= 7000000,
            -7000000 <= yoffset <= 7000000,
            old(self).mouse_sensitivity == 100,
        ensures
            ({
                let xo = clamp_spec(
                    tdiv(xoffset as int * 100, 1000),
                    -COORD_MAX as int,
                    COORD_MAX as int,
                );
                let yo = clamp_spec(
                    tdiv(yoffset as int * 100, 1000),
                    -COORD_MAX as int,
                    COORD_MAX as int,
                );
                let turned = cam_rotated_spec(*old(self), cam_up_spec(*old(self)), -xo);
                *final(self) == cam_rotated_spec(turned, cam_right_spec(turned), yo)
            }),
            cam_wf(*final(self)),
    {
        let xo = mul_div_clamp(xoffset, self.mouse_sensitivity, 1000);
        let yo = mul_div_clamp(yoffset, self.mouse_sensitivity, 1000);
        proof {
            assert(-700000 <= tdiv(xoffset as int * 100, 1000) <= 700000) by (nonlinear_arith)
                requires
                    -7000000 <= xoffset <= 7000000,
            ;
            assert(-700000 <= tdiv(yoffset as int * 100, 1000) <= 700000) by (nonlinear_arith)
                requires
                    -7000000 <= yoffset <= 7000000,
            ;
        }
        self.yaw(-xo);
        self.pitch(yo);
    }

    /// Zoom in or out, confined to `[1000, 45000]` milli-degrees.
    pub fn process_mouse_scroll(&mut self, yoffset: i64)
        requires
            cam_wf(*old(self)),
            -1000000 <= yoffset <= 1000000,
        ensures
            ({
                let moved = if 1000 <= old(self).zoom <= 45000 {
                    old(self).zoom - yoffset
                } else {
                    old(self).zoom as int
                };
                final(self).zoom == clamp_spec(moved, 1000, 45000)
            }),
            final(self).position == old(self).position,
            final(self).orientation == old(self).orientation,
            cam_wf(*final(self)),
    {
        if self.zoom >= 1000 && self.zoom <= 45000 {
            self.zoom = self.zoom - yoffset;
        }
        self.zoom = crate::fixed::clamp_i64(self.zoom, 1000, 45000);
    }

    /// Height above the world origin plane.
    pub fn altitude(&self) -> (r: i64)
        ensures
            r == self.position.y,
    {
        self.position.y
    }

    /// The position's x and z in whole world units, truncated toward zero.
    pub fn xz_ints(&self) -> (r: (i64, i64))
        requires
            cam_wf(*self),
        ensures
            r.0 == clamp_spec(tdiv(self.position.x as int, 1000), -COORD_MAX as int, COORD_MAX as int),
            r.1 == clamp_spec(tdiv(self.position.z as int, 1000), -COORD_MAX as int, COORD_MAX as int),
    {
        (tdiv_clamp(self.position.x as i128, 1000), tdiv_clamp(self.position.z as i128, 1000))
    }
}

/// The right-handed look-at view matrix built from the camera frame:
/// rows are the side, up and negative-front axes with the eye offsets.
pub open spec fn view_matrix_spec(c: Camera) -> Mat4 {
    let f = cam_front_spec(c);
    let s = normalize_spec(cross_spec(f, cam_up_spec(c)));
    let u = cross_spec(s, f);
    Mat4 {
        r0: Vec4 {
            x: s.x,
            y: s.y,
            z: s.z,
            w: -clamp_spec(tdiv(dot_spec(s, c.position), 1000), -COORD_MAX as int, COORD_MAX as int)
                as i64,
        },
        r1: Vec4 {
            x: u.x,
            y: u.y,
            z: u.z,
            w: -clamp_spec(tdiv(dot_spec(u, c.position), 1000), -COORD_MAX as int, COORD_MAX as int)
                as i64,
        },
        r2: Vec4 {
            x: (-f.x) as i64,
            y: (-f.y) as i64,
            z: (-f.z) as i64,
            w: clamp_spec(tdiv(dot_spec(f, c.position), 1000), -COORD_MAX as int, COORD_MAX as int)
                as i64,
        },
        r3: Vec4 { x: 0i64, y: 0i64, z: 0i64, w: 1000i64 },
    }
}

/// The fixed perspective projection (45 degree field of view, square aspect,
/// near 0.1, far 30000), milli-scaled.
pub open spec fn projection_matrix_spec() -> Mat4 {
    Mat4 {
        r0: Vec4 { x: 2414i64, y: 0i64, z: 0i64, w: 0i64 },
        r1: Vec4 { x: 0i64, y: 2414i64, z: 0i64, w: 0i64 },
        r2: Vec4 { x: 0i64, y: 0i64, z: -1000i64, w: -200i64 },
        r3: Vec4 { x: 0i64, y: 0i64, z: -1000i64, w: 0i64 },
    }
}

impl Camera {
    pub fn view_matrix(&self) -> (r: Mat4)
        requires
            cam_wf(*self),
        ensures
            r == view_matrix_spec(*self),
            mat4_in_coord_range(r),
    {
        let f = self.front();
        let s = f.cross(self.up()).normalize();
        let u = s.cross(f);
        let tx: i64 = -tdiv_clamp(s.dot(self.position), 1000);
        let ty: i64 = -tdiv_clamp(u.dot(self.position), 1000);
        let tz: i64 = tdiv_clamp(f.dot(self.position), 1000);
        Mat4 {
            r0: Vec4 { x: s.x, y: s.y, z: s.z, w: tx },
            r1: Vec4 { x: u.x, y: u.y, z: u.z, w: ty },
            r2: Vec4 { x: -f.x, y: -f.y, z: -f.z, w: tz },
            r3: Vec4 { x: 0, y: 0, z: 0, w: 1000 },
        }
    }

    pub fn projection_matrix(&self) -> (r: Mat4)
        ensures
            r == projection_matrix_spec(),
            mat4_in_coord_range(r),
    {
        Mat4 {
            r0: Vec4 { x: 2414, y: 0, z: 0, w: 0 },
            r1: Vec4 { x: 0, y: 2414, z: 0, w: 0 },
            r2: Vec4 { x: 0, y: 0, z: -1000, w: -200 },
            r3: Vec4 { x: 0, y: 0, z: -1000, w: 0 },
        }
    }
}

} // verus!
