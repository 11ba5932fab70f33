//! An AI-driven enemy aircraft that travels along re-planned quadratic
//! Bezier curves toward randomly chosen destinations, staying inside the
//! terrain bounds.

use vstd::prelude::*;
use crate::aircraft::{aircraft_wf, Aircraft, AircraftKind};
use crate::bezier::{
    advanced_progress_spec, bezier_in_range, eval_spec, QuadraticBezier, PROGRESS_MAX,
};
use crate::fixed::{clamp_spec, tdiv, tdiv_clamp, COORD_MAX};
use crate::missile::EnemyID;
use crate::model::{front_spec, model_wf, vec_right_spec, vec_up_spec};
use crate::quat::{from_arc_spec, from_axis_angle_spec, mul_spec, Quat};
use crate::terrain::{raw_height_spec, terrain_wf, Terrain};
use crate::vec3::{add_spec, in_coord_range, normalize_spec, scale_spec, sub_spec, Vec3};

verus! {

/// Base progress step per tick for enemy flight, in millionths.
pub const ENEMY_STEP: i64 = 500;

pub struct Enemy {
    pub id: EnemyID,
    pub aircraft: Aircraft,
    pub start_point: Vec3,
    pub end_point: Vec3,
    pub bezier: QuadraticBezier,
    pub progress: i64,
}

pub open spec fn enemy_wf(e: Enemy) -> bool {
    &&& aircraft_wf(e.aircraft)
    &&& in_coord_range(e.start_point)
    &&& in_coord_range(e.end_point)
    &&& bezier_in_range(e.bezier)
    &&& 0 <= e.progress <= PROGRESS_MAX
}

/// Arrival test: within 0.2 units of the destination on every axis.
pub open spec fn at_destination_spec(pos: Vec3, end: Vec3) -> bool {
    &&& -200 < end.x - pos.x < 200
    &&& -200 < end.y - pos.y < 200
    &&& -200 < end.z - pos.z < 200
}

pub fn at_destination(pos: Vec3, end: Vec3) -> (r: bool)
    requires
        in_coord_range(pos),
        in_coord_range(end),
    ensures
        r == at_destination_spec(pos, end),
{
    let dx = end.x - pos.x;
    let dy = end.y - pos.y;
    let dz = end.z - pos.z;
    -200 < dx && dx < 200 && -200 < dy && dy < 200 && -200 < dz && dz < 200
}

/// Whether a position's truncated whole-unit x and z lie inside the terrain
/// bounds.
pub open spec fn in_world_bounds_spec(pos: Vec3, t: Terrain) -> bool {
    t.bounds.contains_spec(
        clamp_spec(tdiv(pos.x as int, 1000), -COORD_MAX as int, COORD_MAX as int),
        clamp_spec(tdiv(pos.z as int, 1000), -COORD_MAX as int, COORD_MAX as int),
    )
}

pub fn in_world_bounds(pos: Vec3, t: &Terrain) -> (r: bool)
    requires
        in_coord_range(pos),
    ensures
        r == in_world_bounds_spec(pos, *t),
{
    let ux = tdiv_clamp(pos.x as i128, 1000);
    let uz = tdiv_clamp(pos.z as i128, 1000);
    t.bounds.contains(ux, uz)
}

/// The randomly drawn initial flight path of a fresh enemy: a lead point
/// `rm` milli-units ahead and a destination `rl` ahead, offset sideways by
/// `rl` on x and z.
pub open spec fn spawn_path_spec(e: Enemy, rm: int, rl: int) -> bool {
    let pos = e.aircraft.model.transformation.translation;
    let f = front_spec(e.aircraft.model);
    &&& e.start_point == pos
    &&& e.bezier.ctrl == add_spec(pos, scale_spec(f, rm, 1000))
    &&& e.end_point == add_spec(
        add_spec(pos, scale_spec(f, rl, 1000)),
        (Vec3 { x: rl as i64, y: 0i64, z: rl as i64 }),
    )
}

/// The orientation an enemy takes after a step: the right axis carried onto
/// the direction toward its destination, corrected by a quarter yaw for the
/// mesh's forward axis.
pub open spec fn enemy_orientation_spec(end: Vec3, pos: Vec3) -> Quat {
    mul_spec(
        from_arc_spec(vec_right_spec(), normalize_spec(sub_spec(end, pos))),
        from_axis_angle_spec(vec_up_spec(), -90000),
    )
}

/// The re-planned path after arriving at a destination, for the drawn lead
/// distance `rm` and destination column `(rx, rz)` with altitude offset
/// `rh`: the curve restarts at the current position, its control point sits
/// `rm` ahead of the current heading, and its end lies inside the terrain
/// bounds at the terrain height under it plus the offset.
pub open spec fn arrival_plan_spec(
    pre: Enemy,
    post: Enemy,
    t: Terrain,
    rm: int,
    rx: int,
    rz: int,
    rh: int,
) -> bool {
    let pos0 = pre.aircraft.model.transformation.translation;
    &&& 100000 <= rm < 200000
    &&& t.bounds.x_min <= rx < t.bounds.x_max
    &&& t.bounds.z_min <= rz < t.bounds.z_max
    &&& 40000 <= rh < 250000
    &&& post.start_point == pos0
    &&& post.bezier.start == pos0
    &&& post.bezier.ctrl == add_spec(pos0, scale_spec(front_spec(pre.aircraft.model), rm, 1000))
    &&& post.end_point == (Vec3 {
        x: (rx * 1000) as i64,
        y: clamp_spec(
            crate::terrain::height_at_spec(t, rx, rz) + rh,
            -COORD_MAX as int,
            COORD_MAX as int,
        ) as i64,
        z: (rz * 1000) as i64,
    })
    &&& post.bezier.end == post.end_point
}

/// The recovery path after straying outside the terrain bounds, for the
/// drawn lead distance `rmd` and destination `(nx, ny, nz)` near the origin.
pub open spec fn recovery_plan_spec(
    pre: Enemy,
    post: Enemy,
    rmd: int,
    nx: int,
    ny: int,
    nz: int,
) -> bool {
    let pos0 = pre.aircraft.model.transformation.translation;
    &&& 30000 <= rmd < 200000
    &&& -40000 <= nx < 40000
    &&& 10000 <= ny < 20000
    &&& -40000 <= nz < 40000
    &&& post.start_point == pos0
    &&& post.bezier.start == pos0
    &&& post.bezier.ctrl == add_spec(pos0, scale_spec(front_spec(pre.aircraft.model), rmd, 1000))
    &&& post.end_point == (Vec3 { x: nx as i64, y: ny as i64, z: nz as i64 })
    &&& post.bezier.end == post.end_point
}

/// What one flight tick does to an enemy: re-plan when it arrived (toward a
/// random in-bounds point in an altitude band over the terrain) or strayed
/// out of bounds (toward a random recovery point), then advance along the
/// current curve and face the destination.
pub open spec fn fly_rel(pre: Enemy, post: Enemy, t: Terrain, dt: int) -> bool {
    let pos0 = pre.aircraft.model.transformation.translation;
    let arrived = at_destination_spec(pos0, pre.end_point);
    let strayed = !in_world_bounds_spec(pos0, t);
    let p2 = advanced_progress_spec(
        post.bezier,
        if arrived || strayed {
            0
        } else {
            pre.progress as int
        },
        ENEMY_STEP as int,
        dt,
    );
    &&& post.id == pre.id
    &&& post.aircraft.kind == pre.aircraft.kind
    &&& post.aircraft.controls == pre.aircraft.controls
    &&& post.aircraft.guns == pre.aircraft.guns
    &&& post.aircraft.blueprint == pre.aircraft.blueprint
    &&& post.progress == p2
    &&& post.aircraft.model.transformation.translation == eval_spec(post.bezier, p2)
    &&& post.aircraft.model.orientation == enemy_orientation_spec(
        post.end_point,
        post.aircraft.model.transformation.translation,
    )
    &&& (arrived ==> exists|rm: int, rx: int, rz: int, rh: int|
        #[trigger] arrival_plan_spec(pre, post, t, rm, rx, rz, rh))
    &&& (!arrived && strayed ==> exists|rmd: int, nx: int, ny: int, nz: int|
        #[trigger] recovery_plan_spec(pre, post, rmd, nx, ny, nz))
    &&& (!arrived && !strayed ==> post.bezier == pre.bezier && post.start_point == pre.start_point
        && post.end_point == pre.end_point)
}

impl Enemy {
    /// A new enemy flying from its spawn point toward a point some 30 to 40
    /// units ahead and to the side, through a lead point 10 to 20 units
    /// ahead.
    pub fn new(id: EnemyID, kind: AircraftKind) -> (r: Enemy)
        requires
            crate::aircraft::has_blueprint(kind),
        ensures
            r.id == id,
            r.aircraft.kind == kind,
            r.progress == 0,
            r.bezier.start == r.start_point,
            r.bezier.end == r.end_point,
            enemy_wf(r),
            exists|rm: int, rl: int|
                10000 <= rm < 20000 && 30000 <= rl < 40000 && #[trigger] spawn_path_spec(
                    r,
                    rm,
                    rl,
                ),
    {
        let aircraft = Aircraft::new(kind);
        let random_mid = crate::rng::random_in_range(10000, 20000);
        let random_length = crate::rng::random_in_range(30000, 40000);
        let pos = aircraft.model().position();
        let f = aircraft.model().front();
        let mid = pos.add(f.scale(random_mid, 1000));
        let start_point = pos;
        let end_point = pos.add(f.scale(random_length, 1000)).add(
            Vec3 { x: random_length, y: 0, z: random_length },
        );
        let r = Enemy {
            id,
            aircraft,
            start_point,
            end_point,
            bezier: QuadraticBezier::from_points(start_point, mid, end_point),
            progress: 0,
        };
        proof {
            assert(spawn_path_spec(r, random_mid as int, random_length as int));
        }
        r
    }

    pub fn aircraft(&self) -> (r: &Aircraft)
        ensures
            r == self.aircraft,
    {
        &self.aircraft
    }

    pub fn aircraft_mut(&mut self) -> (r: &mut Aircraft)
        ensures
            *r == old(self).aircraft,
            *final(self) == (Enemy { aircraft: *final(r), ..*old(self) }),
    {
        &mut self.aircraft
    }

    pub fn position(&self) -> (r: Vec3)
        ensures
            r == self.aircraft.model.transformation.translation,
    {
        self.aircraft.model.position()
    }

    pub fn id(&self) -> (r: EnemyID)
        ensures
            r == self.id,
    {
        self.id
    }

    /// Install a fresh flight path from `start` through `mid` to `end` and
    /// restart progress.
    pub fn set_path(&mut self, start: Vec3, mid: Vec3, end: Vec3)
        requires
            enemy_wf(*old(self)),
            in_coord_range(start),
            in_coord_range(mid),
            in_coord_range(end),
        ensures
            final(self).start_point == start,
            final(self).end_point == end,
            final(self).bezier == (QuadraticBezier { start, ctrl: mid, end }),
            final(self).progress == 0,
            final(self).aircraft == old(self).aircraft,
            final(self).id == old(self).id,
            enemy_wf(*final(self)),
    {
        self.start_point = start;
        self.end_point = end;
        self.bezier = QuadraticBezier::from_points(start, mid, end);
        self.progress = 0;
    }

    /// One travel step: advance progress by the speed-compensated step, move
    /// to the evaluated curve point and face the destination.
    pub fn advance(&mut self, dt: i64)
        requires
            enemy_wf(*old(self)),
            0 <= dt <= 10_000_000,
        ensures
            ({
                let p2 = advanced_progress_spec(
                    old(self).bezier,
                    old(self).progress as int,
                    ENEMY_STEP as int,
                    dt as int,
                );
                let npos = eval_spec(old(self).bezier, p2);
                &&& final(self).progress == p2
                &&& final(self).aircraft.model.transformation.translation == npos
                &&& final(self).aircraft.model.orientation == enemy_orientation_spec(
                    old(self).end_point,
                    npos,
                )
            }),
            final(self).bezier == old(self).bezier,
            final(self).start_point == old(self).start_point,
            final(self).end_point == old(self).end_point,
            final(self).id == old(self).id,
            final(self).aircraft.kind == old(self).aircraft.kind,
            final(self).aircraft.controls == old(self).aircraft.controls,
            final(self).aircraft.guns == old(self).aircraft.guns,
            final(self).aircraft.blueprint == old(self).aircraft.blueprint,
            enemy_wf(*final(self)),
    {
        let t = self.bezier.step(ENEMY_STEP, dt);
        let sum = self.progress + t;
        let p2: i64 = if sum > PROGRESS_MAX {
            PROGRESS_MAX
        } else {
            sum
        };
        self.progress = p2;
        let new_point = self.bezier.evaluate(p2);
        self.aircraft.model.set_translation(new_point);
        let vec_to_point = self.end_point.sub(new_point).normalize();
        let quat = Quat::from_arc(crate::model::vec_right(), vec_to_point);
        self.aircraft.model.set_orientation(quat);
        self.aircraft.model.yaw(-90000);
    }

    /// One flight tick. An enemy that reached its destination re-plans
    /// toward a random point inside the terrain bounds at a random altitude
    /// band above the ground; one that strayed outside the bounds re-plans
    /// toward a recovery point near the origin; then it advances along its
    /// (possibly new) curve.
    #[verifier::rlimit(100)]
    pub fn fly(&mut self, terrain: &Terrain, dt: i64)
        requires
            enemy_wf(*old(self)),
            terrain_wf(*terrain),
            0 <= dt <= 10_000_000,
        ensures
            fly_rel(*old(self), *final(self), *terrain, dt as int),
            enemy_wf(*final(self)),
    {
        let pos = self.aircraft.model.position();
        if at_destination(pos, self.end_point) {
            let random_mid = crate::rng::random_in_range(100_000, 200_000);
            let random_x = crate::rng::random_in_range(
                terrain.bounds.x_min,
                terrain.bounds.x_max,
            );
            let random_z = crate::rng::random_in_range(
                terrain.bounds.z_min,
                terrain.bounds.z_max,
            );
            let rand_height_offset = crate::rng::random_in_range(40_000, 250_000);
            let ground = terrain.height_at(random_x, random_z);
            let rand_coord = Vec3 {
                x: random_x * 1000,
                y: crate::fixed::clamp_i64(
                    ground + rand_height_offset,
                    -COORD_MAX,
                    COORD_MAX,
                ),
                z: random_z * 1000,
            };
            let f = self.aircraft.model.front();
            let mid = pos.add(f.scale(random_mid, 1000));
            self.set_path(pos, mid, rand_coord);
            self.advance(dt);
            proof {
                assert(arrival_plan_spec(
                    *old(self),
                    *self,
                    *terrain,
                    random_mid as int,
                    random_x as int,
                    random_z as int,
                    rand_height_offset as int,
                ));
            }
        } else if !in_world_bounds(pos, terrain) {
            let random_mid_distance = crate::rng::random_in_range(30_000, 200_000);
            let new_x = crate::rng::random_in_range(-40_000, 40_000);
            let new_y = crate::rng::random_in_range(10_000, 20_000);
            let new_z = crate::rng::random_in_range(-40_000, 40_000);
            let f = self.aircraft.model.front();
            let mid = pos.add(f.scale(random_mid_distance, 1000));
            self.set_path(pos, mid, Vec3 { x: new_x, y: new_y, z: new_z });
            self.advance(dt);
            proof {
                assert(recovery_plan_spec(
                    *old(self),
                    *self,
                    random_mid_distance as int,
                    new_x as int,
                    new_y as int,
                    new_z as int,
                ));
            }
        } else {
            self.advance(dt);
        }
    }
}

} // verus!
