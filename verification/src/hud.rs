//! The heads-up display projector: for every enemy in front of the player,
//! the position of its target marker in normalized device coordinates and a
//! distance-driven marker scale, plus the lock and locking markers for the
//! currently targeted enemy. Drawing happens outside; this module only
//! computes placements.

use vstd::prelude::*;
use crate::camera::{cam_front_spec, cam_wf, projection_matrix_spec, view_matrix_spec, Camera};
use crate::enemies::{enemies_wf, enemy_by_id_spec, Enemies};
use crate::fixed::{clamp_spec, tdiv, tdiv_clamp, COORD_MAX};
use crate::guns::TIME_MAX;
use crate::matrix::{mul_vec_spec, Vec4};
use crate::player::{in_arena, ARENA_MAX};
use crate::targeting_data::TargetingData;
use crate::vec3::{dot_spec, norm_spec, norm2_spec, sub_spec, Vec3};

verus! {

/// The HUD recomputes its markers at most this often (0.1 s), in
/// microseconds.
pub const UPDATE_INTERVAL: i64 = 100_000;

/// The squared cosine of the 100-degree rejection angle, in millionths:
/// markers are dropped for enemies more than about 100 degrees off the
/// viewing direction.
pub const COS_REJECT_SQ_PPM: i64 = 30_154;

/// One on-screen marker: a position in milli-scaled normalized device
/// coordinates (1000 is the edge of the view volume) and a milli-scaled
/// size.
#[derive(Clone, Copy, PartialEq, Eq, Structural, Debug)]
pub struct HudMarker {
    pub ndc: Vec3,
    pub scale: i64,
}

pub struct Hud {
    pub enabled: bool,
    pub target_markers: Vec<Option<HudMarker>>,
    pub target_circle: Option<HudMarker>,
    pub lock_marker: Option<HudMarker>,
    pub last_update_time: i64,
}

pub open spec fn hud_wf(h: Hud) -> bool {
    0 <= h.last_update_time <= TIME_MAX
}

/// Whether `pos` lies within the player's forward hemisphere of regard
/// (about 100 degrees off the viewing direction): the cosine of the angle
/// between `pos - camera` and the front vector is not below the rejection
/// threshold. Positions beyond the arena bound are rejected.
pub open spec fn in_forward_hemisphere_spec(cam: Camera, pos: Vec3) -> bool {
    let d = sub_spec(pos, cam.position);
    let f = cam_front_spec(cam);
    &&& in_arena(pos)
    &&& in_arena(cam.position)
    &&& !(dot_spec(d, f) < 0 && 1000000 * (dot_spec(d, f) * dot_spec(d, f)) > COS_REJECT_SQ_PPM
        * (norm2_spec(d) * norm2_spec(f)))
}

/// The clip-space image of a world position: projection times view times the
/// homogeneous position.
pub open spec fn clip_spec(cam: Camera, pos: Vec3) -> Vec4 {
    mul_vec_spec(
        projection_matrix_spec(),
        mul_vec_spec(view_matrix_spec(cam), Vec4 { x: pos.x, y: pos.y, z: pos.z, w: 1000i64 }),
    )
}

/// The marker scale for a target at `pos`: the reciprocal of the distance in
/// world units, confined to `[0.06, 0.3]` (milli-scaled `[60, 300]`).
pub open spec fn marker_scale_spec(cam: Camera, pos: Vec3) -> int {
    let dist = norm_spec(sub_spec(pos, cam.position));
    clamp_spec(
        tdiv(1000000, if dist < 1 {
            1
        } else {
            dist
        }),
        60,
        300,
    )
}

/// The target marker for an enemy at `pos`: present exactly when the enemy
/// sits in the forward hemisphere and strictly in front of the projection
/// plane (positive clip-space w); its position is the homogeneous divide of
/// the clip-space image.
pub open spec fn marker_spec(cam: Camera, pos: Vec3) -> Option<HudMarker> {
    let clip = clip_spec(cam, pos);
    if in_forward_hemisphere_spec(cam, pos) && clip.w > 0 {
        Some(
            HudMarker {
                ndc: Vec3 {
                    x: clamp_spec(
                        tdiv(clip.x * 1000, clip.w as int),
                        -COORD_MAX as int,
                        COORD_MAX as int,
                    ) as i64,
                    y: clamp_spec(
                        tdiv(clip.y * 1000, clip.w as int),
                        -COORD_MAX as int,
                        COORD_MAX as int,
                    ) as i64,
                    z: clamp_spec(
                        tdiv(clip.z * 1000, clip.w as int),
                        -COORD_MAX as int,
                        COORD_MAX as int,
                    ) as i64,
                },
                scale: marker_scale_spec(cam, pos) as i64,
            },
        )
    } else {
        None
    }
}

/// The lock marker: present once the lock on the targeted enemy is complete
/// (time left below zero) and that enemy is alive with a visible target
/// marker; it sits on the target marker at one and a half times its scale.
pub open spec fn lock_marker_spec(
    cam: Camera,
    es: Seq<crate::enemy::Enemy>,
    t: Option<TargetingData>,
) -> Option<HudMarker> {
    match t {
        None => None,
        Some(d) => match enemy_by_id_spec(es, d.target_id) {
            None => None,
            Some(e) => if d.left_until_lock < 0 {
                match marker_spec(cam, e.aircraft.model.transformation.translation) {
                    None => None,
                    Some(m) => Some(
                        HudMarker {
                            ndc: m.ndc,
                            scale: clamp_spec(
                                tdiv(m.scale * 1500, 1000),
                                -COORD_MAX as int,
                                COORD_MAX as int,
                            ) as i64,
                        },
                    ),
                }
            } else {
                None
            },
        },
    }
}

/// The locking circle: present while the lock is still being acquired (time
/// left at least zero), on the target marker, scaled by the remaining lock
/// time in seconds.
pub open spec fn circle_marker_spec(
    cam: Camera,
    es: Seq<crate::enemy::Enemy>,
    t: Option<TargetingData>,
) -> Option<HudMarker> {
    match t {
        None => None,
        Some(d) => match enemy_by_id_spec(es, d.target_id) {
            None => None,
            Some(e) => if d.left_until_lock >= 0 {
                match marker_spec(cam, e.aircraft.model.transformation.translation) {
                    None => None,
                    Some(m) => Some(
                        HudMarker {
                            ndc: m.ndc,
                            scale: clamp_spec(
                                tdiv(m.scale * d.left_until_lock, 1000000),
                                0,
                                COORD_MAX as int,
                            ) as i64,
                        },
                    ),
                }
            } else {
                None
            },
        },
    }
}

/// Two HUD states with the same content, field by field.
pub open spec fn hud_unchanged(a: Hud, b: Hud) -> bool {
    &&& a.enabled == b.enabled
    &&& a.target_markers@ == b.target_markers@
    &&& a.target_circle == b.target_circle
    &&& a.lock_marker == b.lock_marker
    &&& a.last_update_time == b.last_update_time
}

/// What one HUD tick does: nothing while disabled or inside the update
/// interval; otherwise one target marker per enemy, in enemy order, plus the
/// lock or locking marker of the targeted enemy, with the update time
/// stamped.
pub open spec fn hud_update_rel(
    pre: Hud,
    post: Hud,
    cam: Camera,
    es: Seq<crate::enemy::Enemy>,
    t: Option<TargetingData>,
    now: int,
) -> bool {
    &&& (pre.last_update_time + UPDATE_INTERVAL > now || !pre.enabled ==> hud_unchanged(post, pre))
    &&& (pre.last_update_time + UPDATE_INTERVAL <= now && pre.enabled ==> {
        &&& post.enabled == pre.enabled
        &&& post.last_update_time == now
        &&& post.target_markers@.len() == es.len()
        &&& (forall|i: int|
            0 <= i < es.len() ==> post.target_markers@[i] == marker_spec(
                cam,
                (#[trigger] es[i]).aircraft.model.transformation.translation,
            ))
        &&& post.lock_marker == lock_marker_spec(cam, es, t)
        &&& post.target_circle == circle_marker_spec(cam, es, t)
    })
}

/// One enemy's target marker.
fn project_marker(cam: &Camera, pos: Vec3) -> (r: Option<HudMarker>)
    requires
        cam_wf(*cam),
    ensures
        r == marker_spec(*cam, pos),
{
    if !(-ARENA_MAX <= pos.x && pos.x <= ARENA_MAX && -ARENA_MAX <= pos.y && pos.y <= ARENA_MAX
        && -ARENA_MAX <= pos.z && pos.z <= ARENA_MAX) {
        return None;
    }
    if !(-ARENA_MAX <= cam.position.x && cam.position.x <= ARENA_MAX && -ARENA_MAX
        <= cam.position.y && cam.position.y <= ARENA_MAX && -ARENA_MAX <= cam.position.z
        && cam.position.z <= ARENA_MAX) {
        return None;
    }
    let d = pos.sub(cam.position);
    let f = cam.front();
    let dot: i128 = d.dot(f);
    let n2d: i128 = d.norm2();
    let n2f: i128 = f.norm2();
    proof {
        crate::player::lemma_cone_products(d, f, dot as int, n2d as int, n2f as int);
    }
    if dot < 0 && 1000000 * (dot * dot) > (COS_REJECT_SQ_PPM as i128) * (n2d * n2f) {
        return None;
    }
    let view = cam.view_matrix();
    let clip = cam.projection_matrix().mul_vec(
        view.mul_vec(Vec4 { x: pos.x, y: pos.y, z: pos.z, w: 1000 }),
    );
    if clip.w <= 0 {
        return None;
    }
    let dist = d.norm();
    let dist1: i64 = if dist < 1 {
        1
    } else {
        dist
    };
    proof {
        crate::fixed::lemma_div_bound(1000000, dist1 as int);
    }
    let scale = crate::fixed::clamp_i64((1000000 as i64) / dist1, 60, 300);
    Some(
        HudMarker {
            ndc: Vec3 {
                x: tdiv_clamp((clip.x as i128) * 1000, clip.w),
                y: tdiv_clamp((clip.y as i128) * 1000, clip.w),
                z: tdiv_clamp((clip.z as i128) * 1000, clip.w),
            },
            scale,
        },
    )
}

impl Hud {
    pub fn new() -> (r: Hud)
        ensures
            r.enabled,
            r.target_markers@.len() == 0,
            r.target_circle is None,
            r.lock_marker is None,
            r.last_update_time == 0,
            hud_wf(r),
    {
        Hud {
            enabled: true,
            target_markers: Vec::new(),
            target_circle: None,
            lock_marker: None,
            last_update_time: 0,
        }
    }

    /// Recompute all markers, at most once per `UPDATE_INTERVAL` and only
    /// while the HUD is enabled: one optional target marker per enemy, in
    /// enemy order, and the lock or locking marker for the targeted enemy.
    pub fn update(
        &mut self,
        camera: &Camera,
        enemies: &Enemies,
        targeting_data: &Option<TargetingData>,
        now: i64,
    )
        requires
            hud_wf(*old(self)),
            cam_wf(*camera),
            enemies_wf(*enemies),
            0 <= now <= TIME_MAX,
        ensures
            hud_wf(*final(self)),
            hud_update_rel(
                *old(self),
                *final(self),
                *camera,
                enemies.list@,
                *targeting_data,
                now as int,
            ),
    {
        if self.last_update_time + UPDATE_INTERVAL > now || !self.enabled {
            return ;
        }
        let mut markers: Vec<Option<HudMarker>> = Vec::new();
        let n = enemies.list.len();
        let mut i: usize = 0;
        while i < n
            invariant
                i <= n,
                n == enemies.list@.len(),
                cam_wf(*camera),
                enemies_wf(*enemies),
                markers@.len() == i,
                forall|k: int|
                    0 <= k < i ==> markers@[k] == marker_spec(
                        *camera,
                        (#[trigger] enemies.list@[k]).aircraft.model.transformation.translation,
                    ),
            decreases n - i,
        {
            let pos = enemies.list[i].aircraft.model.position();
            markers.push(project_marker(camera, pos));
            i = i + 1;
        }
        self.target_markers = markers;
        self.lock_marker = None;
        self.target_circle = None;
        match targeting_data {
            Some(data) => {
                match enemies.get_by_id(data.target_id) {
                    Some(enemy) => {
                        let target_pos = enemy.aircraft.model.position();
                        match project_marker(camera, target_pos) {
                            Some(m) => {
                                if data.left_until_lock < 0 {
                                    self.lock_marker = Some(
                                        HudMarker {
                                            ndc: m.ndc,
                                            scale: crate::fixed::mul_div_clamp(m.scale, 1500, 1000),
                                        },
                                    );
                                } else {
                                    self.target_circle = Some(
                                        HudMarker {
                                            ndc: m.ndc,
                                            scale: crate::fixed::clamp_i64(
                                                crate::fixed::mul_div_clamp(
                                                    m.scale,
                                                    data.left_until_lock,
                                                    1000000,
                                                ),
                                                0,
                                                COORD_MAX,
                                            ),
                                        },
                                    );
                                }
                            }
                            None => {},
                        }
                    }
                    None => {},
                }
            }
            None => {},
        }
        self.last_update_time = now;
    }
}

} // verus!
