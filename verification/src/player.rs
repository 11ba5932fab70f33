//! The player: their aircraft, camera and cockpit, the control application
//! pass, and the targeting cone that decides which enemies can be locked.

use vstd::prelude::*;
use crate::aircraft::{aircraft_wf, steered_bias_spec, Aircraft, AircraftKind};
use crate::audio::SoundID;
use crate::camera::{cam_front_spec, cam_rotated_spec, cam_right_spec, cam_up_spec, cam_wf, Camera, ControlSurfaces, Movement};
use crate::control_surfaces::Controls;
use crate::enemies::{enemies_wf, Enemies};
use crate::fixed::{clamp_spec, tdiv, tdiv_clamp, COORD_MAX};
use crate::missile::EnemyID;
use crate::model::{forward_spec, model_wf, Model};
use crate::vec3::{dot_spec, in_range, norm2_spec, norm_spec, sub_spec, Vec3};

verus! {

/// Positions taking part in targeting geometry stay within this bound
/// (a billion world units), so the cone test's products fit in an `i128`.
pub const ARENA_MAX: i64 = 1_000_000_000_000;

pub open spec fn in_arena(v: Vec3) -> bool {
    in_range(v, ARENA_MAX as int)
}

/// The squared cosine of the 20-degree targeting cone, in millionths.
pub const COS_CONE_SQ_PPM: i64 = 883_022;

/// Whether `pos` lies within 20 degrees of the camera's viewing direction:
/// the angle between `pos - camera` and the front vector has a positive
/// cosine whose square exceeds `COS_CONE_SQ_PPM` millionths.
pub open spec fn in_cone_spec(cam: Camera, pos: Vec3) -> bool {
    let d = sub_spec(pos, cam.position);
    let f = cam_front_spec(cam);
    &&& in_arena(pos)
    &&& in_arena(cam.position)
    &&& dot_spec(d, f) > 0
    &&& 1000000 * (dot_spec(d, f) * dot_spec(d, f)) > COS_CONE_SQ_PPM * (norm2_spec(d)
        * norm2_spec(f))
}

/// How close to the center of view a target sits: the cosine of its angle
/// off boresight in millionths (larger is closer to the center).
pub open spec fn cone_key_spec(cam: Camera, pos: Vec3) -> int {
    let d = sub_spec(pos, cam.position);
    let f = cam_front_spec(cam);
    let den = norm_spec(d) * norm_spec(f);
    clamp_spec(
        tdiv(dot_spec(d, f) * 1000000, if den < 1 { 1 } else { den }),
        -COORD_MAX as int,
        COORD_MAX as int,
    )
}

/// The position of the enemy holding `id` (meaningful when IDs are unique
/// and the ID is present).
pub open spec fn pos_of_id(e: Enemies, id: EnemyID) -> Vec3 {
    let i = choose|i: int| 0 <= i < e.list@.len() && e.list@[i].id == id;
    e.list@[i].aircraft.model.transformation.translation
}

/// With unique IDs, `pos_of_id` of an enemy's ID is that enemy's position.
pub proof fn lemma_pos_of_id(e: Enemies, l: int)
    requires
        enemies_wf(e),
        0 <= l < e.list@.len(),
    ensures
        pos_of_id(e, e.list@[l].id) == e.list@[l].aircraft.model.transformation.translation,
{
    let id = e.list@[l].id;
    assert(0 <= l < e.list@.len() && e.list@[l].id == id);
    let i = choose|i: int| 0 <= i < e.list@.len() && e.list@[i].id == id;
    if i != l {
        assert(e.list@[i].id != e.list@[l].id);
    }
}

/// The cone key of the enemy holding `id`.
pub open spec fn key_of_id(cam: Camera, e: Enemies, id: EnemyID) -> int {
    cone_key_spec(cam, pos_of_id(e, id))
}

/// A collected candidate pair (cone key, enemy ID) belongs to the cone enemy
/// at index `l`.
pub open spec fn pair_owned(p: (i64, EnemyID), l: int, e: Enemies, cam: Camera) -> bool {
    &&& 0 <= l < e.list@.len()
    &&& p.1 == e.list@[l].id
    &&& in_cone_spec(cam, e.list@[l].aircraft.model.transformation.translation)
    &&& p.0 == cone_key_spec(cam, e.list@[l].aircraft.model.transformation.translation)
}

/// Whether an owner index appears in a list of owner indices.
pub open spec fn owner_present(os: Seq<int>, l: int) -> bool {
    exists|q: int| 0 <= q < os.len() && os[q] == l
}

/// The shape of a lock-candidate list: non-empty, holding exactly the IDs of
/// the enemies inside the targeting cone, without duplicates, sorted with
/// the smallest angle off boresight (largest cone key) first.
pub open spec fn targetable_list_spec(cam: Camera, e: Enemies, v: Seq<EnemyID>) -> bool {
    &&& v.len() >= 1
    &&& (forall|id: EnemyID|
        #[trigger] v.contains(id) <==> exists|i: int|
            0 <= i < e.list@.len() && #[trigger] e.list@[i].id == id && in_cone_spec(
                cam,
                e.list@[i].aircraft.model.transformation.translation,
            ))
    &&& (forall|a: int, b: int| #![trigger v[a], v[b]] 0 <= a < b < v.len() ==> v[a] != v[b])
    &&& (forall|a: int, b: int|
        #![trigger v[a], v[b]]
        0 <= a < b < v.len() ==> key_of_id(cam, e, v[a]) >= key_of_id(cam, e, v[b]))
}

/// Sort candidate pairs by descending cone key (selection of the largest
/// remaining key), carrying each pair's owning enemy index as a ghost
/// witness.
#[verifier::rlimit(100)]
fn sort_pairs(
    pairs: Vec<(i64, EnemyID)>,
    Ghost(owners): Ghost<Seq<int>>,
    enemies: &Enemies,
    cam: &Camera,
) -> (res: (Vec<(i64, EnemyID)>, Ghost<Seq<int>>))
    requires
        owners.len() == pairs@.len(),
        forall|q: int|
            #![trigger pairs@[q]]
            0 <= q < pairs@.len() ==> pair_owned(pairs@[q], owners[q], *enemies, *cam),
        forall|q1: int, q2: int|
            #![trigger owners[q1], owners[q2]]
            0 <= q1 < q2 < owners.len() ==> owners[q1] != owners[q2],
    ensures
        res.1@.len() == res.0@.len(),
        res.0@.len() == pairs@.len(),
        forall|q: int|
            #![trigger res.0@[q]]
            0 <= q < res.0@.len() ==> pair_owned(res.0@[q], res.1@[q], *enemies, *cam),
        forall|q1: int, q2: int|
            #![trigger res.1@[q1], res.1@[q2]]
            0 <= q1 < q2 < res.1@.len() ==> res.1@[q1] != res.1@[q2],
        forall|q1: int, q2: int|
            #![trigger res.0@[q1], res.0@[q2]]
            0 <= q1 < q2 < res.0@.len() ==> res.0@[q1].0 >= res.0@[q2].0,
        forall|l: int| #[trigger] owner_present(owners, l) ==> owner_present(res.1@, l),
{
    let mut rem = pairs;
    let ghost mut rem_owners: Seq<int> = owners;
    let mut out: Vec<(i64, EnemyID)> = Vec::new();
    let ghost mut out_owners: Seq<int> = Seq::empty();
    while rem.len() > 0
        invariant
            rem@.len() == rem_owners.len(),
            out@.len() == out_owners.len(),
            out@.len() + rem@.len() == pairs@.len(),
            forall|q: int|
                #![trigger rem@[q]]
                0 <= q < rem@.len() ==> pair_owned(rem@[q], rem_owners[q], *enemies, *cam),
            forall|q: int|
                #![trigger out@[q]]
                0 <= q < out@.len() ==> pair_owned(out@[q], out_owners[q], *enemies, *cam),
            forall|q1: int, q2: int|
                #![trigger rem_owners[q1], rem_owners[q2]]
                0 <= q1 < q2 < rem_owners.len() ==> rem_owners[q1] != rem_owners[q2],
            forall|q1: int, q2: int|
                #![trigger out_owners[q1], out_owners[q2]]
                0 <= q1 < q2 < out_owners.len() ==> out_owners[q1] != out_owners[q2],
            forall|a: int, b: int|
                #![trigger out_owners[a], rem_owners[b]]
                0 <= a < out_owners.len() && 0 <= b < rem_owners.len() ==> out_owners[a]
                    != rem_owners[b],
            forall|q1: int, q2: int|
                #![trigger out@[q1], out@[q2]]
                0 <= q1 < q2 < out@.len() ==> out@[q1].0 >= out@[q2].0,
            forall|a: int, b: int|
                #![trigger out@[a], rem@[b]]
                0 <= a < out@.len() && 0 <= b < rem@.len() ==> out@[a].0 >= rem@[b].0,
            forall|l: int|
                #[trigger] owner_present(owners, l) ==> owner_present(out_owners, l)
                    || owner_present(rem_owners, l),
        decreases rem@.len(),
    {
        let m = rem.len();
        let mut j: usize = 1;
        let mut jb: usize = 0;
        while j < m
            invariant
                1 <= j <= m,
                jb < j,
                m == rem@.len(),
                forall|q: int| 0 <= q < j ==> (#[trigger] rem@[q]).0 <= rem@[jb as int].0,
            decreases m - j,
        {
            if rem[j].0 > rem[jb].0 {
                jb = j;
            }
            j = j + 1;
        }
        let ghost rem0 = rem@;
        let ghost rem_owners0 = rem_owners;
        let ghost out_owners0 = out_owners;
        let ghost lown = rem_owners[jb as int];
        let p = rem.remove(jb);
        proof {
            rem_owners = rem_owners.remove(jb as int);
            assert(rem@ =~= rem0.subrange(0, jb as int) + rem0.subrange(
                jb as int + 1,
                rem0.len() as int,
            ));
            assert(rem_owners =~= rem_owners0.subrange(0, jb as int) + rem_owners0.subrange(
                jb as int + 1,
                rem_owners0.len() as int,
            ));
            assert forall|q: int| 0 <= q < rem@.len() implies (#[trigger] rem@[q]) == (if q
                < jb as int {
                rem0[q]
            } else {
                rem0[q + 1]
            }) && rem_owners[q] == (if q < jb as int {
                rem_owners0[q]
            } else {
                rem_owners0[q + 1]
            }) by {}
        }
        let ghost out0 = out@;
        out.push(p);
        proof {
            out_owners = out_owners.push(lown);
            assert(p == rem0[jb as int]);
            assert forall|l: int|
                #[trigger] owner_present(owners, l) implies owner_present(out_owners, l)
                || owner_present(rem_owners, l) by {
                if owner_present(out_owners0, l) {
                    let q = choose|q: int|
                        0 <= q < out_owners0.len() && out_owners0[q] == l;
                    assert(out_owners[q] == l);
                } else if owner_present(rem_owners0, l) {
                    let q = choose|q: int|
                        0 <= q < rem_owners0.len() && rem_owners0[q] == l;
                    if q == jb as int {
                        assert(out_owners[out_owners.len() - 1] == l);
                    } else if q < jb as int {
                        assert(rem_owners[q] == l);
                    } else {
                        assert(rem_owners[q - 1] == l);
                    }
                }
            }
        }
    }
    (out, Ghost(out_owners))
}

fn in_cone(cam: &Camera, pos: Vec3) -> (r: bool)
    requires
        cam_wf(*cam),
    ensures
        r == in_cone_spec(*cam, pos),
{
    if !(-ARENA_MAX <= pos.x && pos.x <= ARENA_MAX && -ARENA_MAX <= pos.y && pos.y <= ARENA_MAX
        && -ARENA_MAX <= pos.z && pos.z <= ARENA_MAX) {
        return false;
    }
    if !(-ARENA_MAX <= cam.position.x && cam.position.x <= ARENA_MAX && -ARENA_MAX
        <= cam.position.y && cam.position.y <= ARENA_MAX && -ARENA_MAX <= cam.position.z
        && cam.position.z <= ARENA_MAX) {
        return false;
    }
    let d = pos.sub(cam.position);
    let f = cam.front();
    let dot: i128 = d.dot(f);
    let n2d: i128 = d.norm2();
    let n2f: i128 = f.norm2();
    proof {
        lemma_cone_products(d, f, dot as int, n2d as int, n2f as int);
    }
    dot > 0 && 1000000 * (dot * dot) > (COS_CONE_SQ_PPM as i128) * (n2d * n2f)
}

/// In the arena, the cone test's products fit in an `i128`.
pub proof fn lemma_cone_products(d: Vec3, f: Vec3, dot: int, n2d: int, n2f: int)
    requires
        in_range(d, 2 * ARENA_MAX as int),
        in_range(f, 1000),
        dot == dot_spec(d, f),
        n2d == norm2_spec(d),
        n2f == norm2_spec(f),
    ensures
        -7000000000000000 <= dot <= 7000000000000000,
        0 <= n2d <= 12000000000000000000000000,
        0 <= n2f <= 3000000,
        -49000000000000000000000000000000 <= dot * dot <= 49000000000000000000000000000000,
        0 <= n2d * n2f <= 36000000000000000000000000000000,
{
    assert(-7000000000000000 <= dot_spec(d, f) <= 7000000000000000) by (nonlinear_arith)
        requires
            in_range(d, 2 * ARENA_MAX as int),
            in_range(f, 1000),
    ;
    assert(0 <= norm2_spec(d) <= 12000000000000000000000000) by (nonlinear_arith)
        requires
            in_range(d, 2 * ARENA_MAX as int),
    ;
    assert(0 <= norm2_spec(f) <= 3000000) by (nonlinear_arith)
        requires
            in_range(f, 1000),
    ;
    assert(-49000000000000000000000000000000 <= dot * dot <= 49000000000000000000000000000000)
        by (nonlinear_arith)
        requires
            -7000000000000000 <= dot <= 7000000000000000,
    ;
    assert(0 <= n2d * n2f <= 36000000000000000000000000000000) by (nonlinear_arith)
        requires
            0 <= n2d <= 12000000000000000000000000,
            0 <= n2f <= 3000000,
    ;
}

fn cone_key(cam: &Camera, pos: Vec3) -> (r: i64)
    requires
        cam_wf(*cam),
        in_arena(pos),
        in_arena(cam.position),
    ensures
        r == cone_key_spec(*cam, pos),
{
    let d = pos.sub(cam.position);
    let f = cam.front();
    let dot: i128 = d.dot(f);
    let nd = d.norm();
    let nf = f.norm();
    proof {
        crate::vec3::lemma_norm2_nonneg(d);
        crate::vec3::lemma_norm2_nonneg(f);
        crate::fixed::lemma_sqrt_floor_bounds(norm2_spec(d));
        crate::fixed::lemma_sqrt_floor_bounds(norm2_spec(f));
        lemma_cone_norms(d, f, nd as int, nf as int);
    }
    let den: i64 = nd * nf;
    let den1: i64 = if den < 1 {
        1
    } else {
        den
    };
    tdiv_clamp(dot * 1000000, den1)
}

/// Norm bounds for the cone key: in the arena, the denominator product fits
/// in an `i64` and the numerator in an `i128`.
proof fn lemma_cone_norms(d: Vec3, f: Vec3, nd: int, nf: int)
    requires
        in_range(d, 2 * ARENA_MAX as int),
        in_range(f, 1000),
        nd >= 0,
        nf >= 0,
        nd * nd <= norm2_spec(d),
        nf * nf <= norm2_spec(f),
    ensures
        nd <= 4000000000000,
        nf <= 1800,
        0 <= nd * nf <= 7200000000000000,
        -7000000000000000 <= dot_spec(d, f) <= 7000000000000000,
{
    assert(0 <= norm2_spec(d) <= 12000000000000000000000000) by (nonlinear_arith)
        requires
            in_range(d, 2 * ARENA_MAX as int),
    ;
    assert(0 <= norm2_spec(f) <= 3000000) by (nonlinear_arith)
        requires
            in_range(f, 1000),
    ;
    assert(nd <= 4000000000000) by (nonlinear_arith)
        requires
            nd >= 0,
            nd * nd <= 12000000000000000000000000,
    ;
    assert(nf <= 1800) by (nonlinear_arith)
        requires
            nf >= 0,
            nf * nf <= 3000000,
    ;
    assert(0 <= nd * nf <= 7200000000000000) by (nonlinear_arith)
        requires
            0 <= nd <= 4000000000000,
            0 <= nf <= 1800,
    ;
    assert(-7000000000000000 <= dot_spec(d, f) <= 7000000000000000) by (nonlinear_arith)
        requires
            in_range(d, 2 * ARENA_MAX as int),
            in_range(f, 1000),
    ;
}

/// The player's full state.
pub struct Player {
    pub aircraft: Aircraft,
    pub camera: Camera,
    pub cockpit: Model,
    pub kills: u32,
    pub guns_sound: SoundID,
}

pub open spec fn player_wf(p: Player) -> bool {
    &&& aircraft_wf(p.aircraft)
    &&& cam_wf(p.camera)
    &&& model_wf(p.cockpit)
}

/// The camera after one control-application pass: pitched, yawed and rolled
/// by the bias-scaled amounts, then moved forward by the throttle.
pub open spec fn controlled_camera_spec(cam: Camera, c: Controls, dt: int) -> Camera {
    let ap = clamp_spec(tdiv(c.pitch_bias * dt, 1000000), -COORD_MAX as int, COORD_MAX as int);
    let ay = clamp_spec(tdiv(c.yaw_bias * dt, 1000000), -COORD_MAX as int, COORD_MAX as int);
    let ar = clamp_spec(tdiv(c.roll_bias * dt, 1000000), -COORD_MAX as int, COORD_MAX as int);
    let af = clamp_spec(tdiv(c.throttle * dt, 1000000), -COORD_MAX as int, COORD_MAX as int);
    let c1 = cam_rotated_spec(cam, cam_right_spec(cam), ap);
    let c2 = cam_rotated_spec(c1, cam_up_spec(c1), ay);
    let c3 = cam_rotated_spec(c2, cam_front_spec(c2), ar);
    Camera {
        position: crate::vec3::add_spec(
            c3.position,
            crate::vec3::scale_spec(cam_front_spec(c3), af, 1000),
        ),
        ..c3
    }
}

/// The aircraft model after the same pass, about its own local axes.
pub open spec fn controlled_model_spec(m: Model, c: Controls, dt: int) -> Model {
    let ap = clamp_spec(tdiv(c.pitch_bias * dt, 1000000), -COORD_MAX as int, COORD_MAX as int);
    let ay = clamp_spec(tdiv(c.yaw_bias * dt, 1000000), -COORD_MAX as int, COORD_MAX as int);
    let ar = clamp_spec(tdiv(c.roll_bias * dt, 1000000), -COORD_MAX as int, COORD_MAX as int);
    let af = clamp_spec(tdiv(c.throttle * dt, 1000000), -COORD_MAX as int, COORD_MAX as int);
    let m1 = Model {
        orientation: crate::quat::mul_spec(
            m.orientation,
            crate::quat::from_axis_angle_spec(crate::model::vec_right_spec(), ap),
        ),
        ..m
    };
    let m2 = Model {
        orientation: crate::quat::mul_spec(
            m1.orientation,
            crate::quat::from_axis_angle_spec(crate::model::vec_up_spec(), ay),
        ),
        ..m1
    };
    let m3 = Model {
        orientation: crate::quat::mul_spec(
            m2.orientation,
            crate::quat::from_axis_angle_spec(crate::model::vec_front_spec(), ar),
        ),
        ..m2
    };
    forward_spec(m3, af)
}

impl Player {
    pub fn new(aircraft_kind: AircraftKind) -> (r: Player)
        requires
            crate::aircraft::has_blueprint(aircraft_kind),
        ensures
            r.aircraft.kind == aircraft_kind,
            r.kills == 0,
            r.guns_sound == SoundID::MAX,
            player_wf(r),
    {
        Player {
            aircraft: Aircraft::new(aircraft_kind),
            camera: Camera::default(),
            cockpit: Model::default(),
            kills: 0,
            guns_sound: SoundID::MAX,
        }
    }

    pub fn aircraft(&self) -> (r: &Aircraft)
        ensures
            r == self.aircraft,
    {
        &self.aircraft
    }

    pub fn camera(&self) -> (r: &Camera)
        ensures
            r == self.camera,
    {
        &self.camera
    }

    pub fn kills(&self) -> (r: u32)
        ensures
            r == self.kills,
    {
        self.kills
    }

    pub fn aircraft_mut(&mut self) -> (r: &mut Aircraft)
        ensures
            *r == old(self).aircraft,
            *final(self) == (Player { aircraft: *final(r), ..*old(self) }),
    {
        &mut self.aircraft
    }

    pub fn cockpit_mut(&mut self) -> (r: &mut Model)
        ensures
            *r == old(self).cockpit,
            *final(self) == (Player { cockpit: *final(r), ..*old(self) }),
    {
        &mut self.cockpit
    }

    pub fn camera_mut(&mut self) -> (r: &mut Camera)
        ensures
            *r == old(self).camera,
            *final(self) == (Player { camera: *final(r), ..*old(self) }),
    {
        &mut self.camera
    }

    /// Apply the accumulated control biases to the camera and the aircraft
    /// model for an elapsed `dt` microseconds.
    #[verifier::rlimit(80)]
    pub fn apply_controls(&mut self, dt: i64)
        requires
            player_wf(*old(self)),
            0 <= dt <= crate::aircraft::DT_MAX,
        ensures
            final(self).camera == controlled_camera_spec(
                old(self).camera,
                old(self).aircraft.controls,
                dt as int,
            ),
            final(self).aircraft.model == controlled_model_spec(
                old(self).aircraft.model,
                old(self).aircraft.controls,
                dt as int,
            ),
            final(self).aircraft.controls == old(self).aircraft.controls,
            final(self).aircraft.kind == old(self).aircraft.kind,
            final(self).aircraft.blueprint == old(self).aircraft.blueprint,
            final(self).aircraft.guns == old(self).aircraft.guns,
            final(self).cockpit == old(self).cockpit,
            final(self).kills == old(self).kills,
            final(self).guns_sound == old(self).guns_sound,
            player_wf(*final(self)),
    {
        let c = self.aircraft.controls;
        let ap = crate::fixed::mul_div_clamp(c.pitch_bias, dt, 1_000_000);
        let ay = crate::fixed::mul_div_clamp(c.yaw_bias, dt, 1_000_000);
        let ar = crate::fixed::mul_div_clamp(c.roll_bias, dt, 1_000_000);
        let af = crate::fixed::mul_div_clamp(c.throttle, dt, 1_000_000);
        proof {
            lemma_control_amount(c.pitch_bias as int, dt as int);
            lemma_control_amount(c.yaw_bias as int, dt as int);
            lemma_control_amount(c.roll_bias as int, dt as int);
        }
        self.camera.pitch(ap);
        self.camera.yaw(ay);
        self.camera.roll(ar);
        self.camera.forward(af);
        self.aircraft.model.pitch(ap);
        self.aircraft.model.yaw(ay);
        self.aircraft.model.roll(ar);
        self.aircraft.model.forward(af);
    }

    /// The lockable enemies: those inside the targeting cone, led by the
    /// one nearest the center of view; `None` when the cone is empty.
    #[verifier::rlimit(80)]
    /// The lockable enemies: those inside the targeting cone, sorted with
    /// the one nearest the center of view first (descending cone key);
    /// `None` when the cone is empty.
    #[verifier::rlimit(100)]
    pub fn targetable_enemies(&self, enemies: &Enemies) -> (r: Option<Vec<EnemyID>>)
        requires
            player_wf(*self),
            enemies_wf(*enemies),
        ensures
            r is None <==> !exists|i: int|
                0 <= i < enemies.list@.len() && in_cone_spec(
                    self.camera,
                    (#[trigger] enemies.list@[i]).aircraft.model.transformation.translation,
                ),
            r matches Some(v) ==> targetable_list_spec(self.camera, *enemies, v@),
    {
        let cam = &self.camera;
        let n = enemies.list.len();
        let mut pairs: Vec<(i64, EnemyID)> = Vec::new();
        let ghost mut owners: Seq<int> = Seq::empty();
        let mut i: usize = 0;
        while i < n
            invariant
                i <= n,
                n == enemies.list@.len(),
                player_wf(*self),
                enemies_wf(*enemies),
                cam == self.camera,
                owners.len() == pairs@.len(),
                forall|q: int|
                    #![trigger pairs@[q]]
                    0 <= q < pairs@.len() ==> pair_owned(
                        pairs@[q],
                        owners[q],
                        *enemies,
                        self.camera,
                    ),
                forall|q: int| #![trigger owners[q]] 0 <= q < owners.len() ==> 0 <= owners[q] < i,
                forall|q1: int, q2: int|
                    #![trigger owners[q1], owners[q2]]
                    0 <= q1 < q2 < owners.len() ==> owners[q1] != owners[q2],
                forall|l: int|
                    0 <= l < i && in_cone_spec(
                        self.camera,
                        (#[trigger] enemies.list@[l]).aircraft.model.transformation.translation,
                    ) ==> owner_present(owners, l),
            decreases n - i,
        {
            let pos = enemies.list[i].aircraft.model.position();
            let eid = enemies.list[i].id;
            if in_cone(cam, pos) {
                proof {
                    assert(in_arena(pos) && in_arena(cam.position));
                }
                let key = cone_key(cam, pos);
                let ghost owners0 = owners;
                let ghost pairs0 = pairs@;
                pairs.push((key, eid));
                proof {
                    owners = owners.push(i as int);
                    assert(pair_owned((key, eid), i as int, *enemies, self.camera));
                    assert forall|q: int|
                        #![trigger pairs@[q]]
                        0 <= q < pairs@.len() implies pair_owned(
                        pairs@[q],
                        owners[q],
                        *enemies,
                        self.camera,
                    ) by {
                        if q < pairs0.len() {
                            assert(pairs@[q] == pairs0[q]);
                            assert(owners[q] == owners0[q]);
                            assert(pair_owned(pairs0[q], owners0[q], *enemies, self.camera));
                        } else {
                            assert(pairs@[q] == (key, eid));
                            assert(owners[q] == i as int);
                        }
                    }
                    assert forall|q: int|
                        #![trigger owners[q]]
                        0 <= q < owners.len() implies 0 <= owners[q] < i + 1 by {
                        if q < owners0.len() {
                            assert(owners[q] == owners0[q]);
                            assert(0 <= owners0[q] < i);
                        } else {
                            assert(owners[q] == i as int);
                        }
                    }
                    assert forall|q1: int, q2: int|
                        #![trigger owners[q1], owners[q2]]
                        0 <= q1 < q2 < owners.len() implies owners[q1] != owners[q2] by {
                        if q2 < owners0.len() {
                            assert(owners[q1] == owners0[q1] && owners[q2] == owners0[q2]);
                        } else {
                            assert(owners[q2] == i as int);
                            assert(owners[q1] == owners0[q1]);
                            assert(0 <= owners0[q1] < i);
                        }
                    }
                    assert forall|l: int|
                        0 <= l < i + 1 && in_cone_spec(
                            self.camera,
                            (
                            #[trigger] enemies.list@[l]).aircraft.model.transformation.translation,
                        ) implies owner_present(owners, l) by {
                        if l == i as int {
                            assert(owners[owners.len() - 1] == l);
                        } else {
                            let q = choose|q: int| 0 <= q < owners0.len() && owners0[q] == l;
                            assert(owners[q] == l);
                        }
                    }
                }
            }
            i = i + 1;
        }
        if pairs.len() == 0 {
            proof {
                assert forall|l: int| 0 <= l < n implies !in_cone_spec(
                    self.camera,
                    (#[trigger] enemies.list@[l]).aircraft.model.transformation.translation,
                ) by {
                    if in_cone_spec(
                        self.camera,
                        enemies.list@[l].aircraft.model.transformation.translation,
                    ) {
                        let q = choose|q: int| 0 <= q < owners.len() && owners[q] == l;
                    }
                }
            }
            return None;
        }
        let (sorted, sorted_owners) = sort_pairs(pairs, Ghost(owners), enemies, cam);
        let ghost sowners = sorted_owners@;
        let mut ids: Vec<EnemyID> = Vec::new();
        let m = sorted.len();
        let mut j: usize = 0;
        while j < m
            invariant
                j <= m,
                m == sorted@.len(),
                ids@.len() == j,
                forall|q: int| 0 <= q < j ==> (#[trigger] ids@[q]) == sorted@[q].1,
            decreases m - j,
        {
            let id = sorted[j].1;
            ids.push(id);
            j = j + 1;
        }
        proof {
            assert forall|id: EnemyID| #[trigger] ids@.contains(id) implies exists|l: int|
                0 <= l < n && #[trigger] enemies.list@[l].id == id && in_cone_spec(
                    self.camera,
                    enemies.list@[l].aircraft.model.transformation.translation,
                ) by {
                let q = choose|q: int| 0 <= q < ids@.len() && ids@[q] == id;
                assert(pair_owned(sorted@[q], sowners[q], *enemies, self.camera));
                assert(enemies.list@[sowners[q]].id == id);
            }
            assert forall|id: EnemyID|
                (exists|l: int|
                    0 <= l < n && #[trigger] enemies.list@[l].id == id && in_cone_spec(
                        self.camera,
                        enemies.list@[l].aircraft.model.transformation.translation,
                    )) implies #[trigger] ids@.contains(id) by {
                let l = choose|l: int|
                    0 <= l < n && enemies.list@[l].id == id && in_cone_spec(
                        self.camera,
                        enemies.list@[l].aircraft.model.transformation.translation,
                    );
                assert(owner_present(owners, l));
                assert(owner_present(sowners, l));
                let q = choose|q: int| 0 <= q < sowners.len() && sowners[q] == l;
                assert(pair_owned(sorted@[q], l, *enemies, self.camera));
                assert(ids@[q] == enemies.list@[l].id);
            }
            assert forall|a: int, b: int|
                #![trigger ids@[a], ids@[b]]
                0 <= a < b < ids@.len() implies ids@[a] != ids@[b] by {
                assert(pair_owned(sorted@[a], sowners[a], *enemies, self.camera));
                assert(pair_owned(sorted@[b], sowners[b], *enemies, self.camera));
                assert(sowners[a] != sowners[b]);
                if sowners[a] < sowners[b] {
                    assert(enemies.list@[sowners[a]].id != enemies.list@[sowners[b]].id);
                } else {
                    assert(enemies.list@[sowners[b]].id != enemies.list@[sowners[a]].id);
                }
            }
            assert forall|a: int, b: int|
                #![trigger ids@[a], ids@[b]]
                0 <= a < b < ids@.len() implies key_of_id(self.camera, *enemies, ids@[a])
                >= key_of_id(self.camera, *enemies, ids@[b]) by {
                assert(pair_owned(sorted@[a], sowners[a], *enemies, self.camera));
                assert(pair_owned(sorted@[b], sowners[b], *enemies, self.camera));
                lemma_pos_of_id(*enemies, sowners[a]);
                lemma_pos_of_id(*enemies, sowners[b]);
                assert(sorted@[a].0 >= sorted@[b].0);
            }
            assert(ids@.contains(ids@[0]));
        }
        Some(ids)
    }

    /// The `n`-th best lock candidate of the angle-sorted list (or the last
    /// one when fewer exist); `None` when no enemy is in the cone. With
    /// `n == 0` the returned enemy sits closest to the center of view.
    pub fn targeted_enemy_id_nth(&self, enemies: &Enemies, n: usize) -> (r: Option<EnemyID>)
        requires
            player_wf(*self),
            enemies_wf(*enemies),
        ensures
            r is None <==> !exists|i: int|
                0 <= i < enemies.list@.len() && in_cone_spec(
                    self.camera,
                    (#[trigger] enemies.list@[i]).aircraft.model.transformation.translation,
                ),
            r matches Some(id) ==> exists|v: Seq<EnemyID>|
                #[trigger] targetable_list_spec(self.camera, *enemies, v) && id == v[if n < v.len() {
                    n as int
                } else {
                    v.len() - 1
                }],
            r matches Some(id) ==> exists|i: int|
                0 <= i < enemies.list@.len() && #[trigger] enemies.list@[i].id == id
                    && in_cone_spec(
                    self.camera,
                    enemies.list@[i].aircraft.model.transformation.translation,
                ),
            n == 0 ==> (r matches Some(id) ==> forall|i: int|
                0 <= i < enemies.list@.len() && in_cone_spec(
                    self.camera,
                    (#[trigger] enemies.list@[i]).aircraft.model.transformation.translation,
                ) ==> key_of_id(self.camera, *enemies, id) >= key_of_id(
                    self.camera,
                    *enemies,
                    enemies.list@[i].id,
                )),
    {
        let candidates = self.targetable_enemies(enemies);
        match candidates {
            Some(v) => {
                let idx = if n < v.len() {
                    n
                } else {
                    v.len() - 1
                };
                let id = v[idx];
                proof {
                    assert(targetable_list_spec(self.camera, *enemies, v@) && id == v@[if n
                        < v@.len() {
                        n as int
                    } else {
                        v@.len() - 1
                    }]);
                    assert(v@.contains(v@[idx as int]));
                    if n == 0 {
                        assert forall|i: int|
                            0 <= i < enemies.list@.len() && in_cone_spec(
                                self.camera,
                                (
                                #[trigger] enemies.list@[i]).aircraft.model.transformation.translation,
                            ) implies key_of_id(self.camera, *enemies, id) >= key_of_id(
                            self.camera,
                            *enemies,
                            enemies.list@[i].id,
                        ) by {
                            assert(v@.contains(enemies.list@[i].id));
                            let q = choose|q: int|
                                0 <= q < v@.len() && v@[q] == enemies.list@[i].id;
                            if q > 0 {
                                assert(v@[0] == id);
                            }
                        }
                    }
                }
                Some(id)
            }
            None => None,
        }
    }

    /// Turn one movement command into its control mutation: steering inputs
    /// accumulate bias (and mark their axis active), throttle commands move
    /// the throttle.
    #[verifier::rlimit(80)]
    pub fn process_key(&mut self, direction: Movement, dt: i64)
        requires
            player_wf(*old(self)),
            0 <= dt <= 10_000_000,
        ensures
            player_wf(*final(self)),
            final(self).camera == old(self).camera,
            final(self).cockpit == old(self).cockpit,
            final(self).kills == old(self).kills,
            final(self).guns_sound == old(self).guns_sound,
            final(self).aircraft.model == old(self).aircraft.model,
            final(self).aircraft.kind == old(self).aircraft.kind,
            final(self).aircraft.blueprint == old(self).aircraft.blueprint,
            final(self).aircraft.guns == old(self).aircraft.guns,
            ({
                let c0 = old(self).aircraft.controls;
                let c1 = final(self).aircraft.controls;
                let bp = old(self).aircraft.blueprint;
                let v = dt as int / 1000;
                match direction {
                    Movement::PitchUp => c1 == (Controls {
                        pitch_bias: steered_bias_spec(
                            c0.pitch_bias as int,
                            bp.pitch_rate as int,
                            v,
                            crate::aircraft::MAX_PITCH_BIAS as int,
                        ) as i64,
                        decay_pitch: false,
                        ..c0
                    }),
                    Movement::PitchDown => c1 == (Controls {
                        pitch_bias: steered_bias_spec(
                            c0.pitch_bias as int,
                            bp.pitch_rate as int,
                            -v,
                            crate::aircraft::MAX_PITCH_BIAS as int,
                        ) as i64,
                        decay_pitch: false,
                        ..c0
                    }),
                    Movement::YawLeft => c1 == (Controls {
                        yaw_bias: steered_bias_spec(
                            c0.yaw_bias as int,
                            bp.yaw_rate as int,
                            v,
                            crate::aircraft::MAX_YAW_BIAS as int,
                        ) as i64,
                        decay_yaw: false,
                        ..c0
                    }),
                    Movement::YawRight => c1 == (Controls {
                        yaw_bias: steered_bias_spec(
                            c0.yaw_bias as int,
                            bp.yaw_rate as int,
                            -v,
                            crate::aircraft::MAX_YAW_BIAS as int,
                        ) as i64,
                        decay_yaw: false,
                        ..c0
                    }),
                    Movement::RollLeft => c1 == (Controls {
                        roll_bias: steered_bias_spec(
                            c0.roll_bias as int,
                            bp.roll_rate as int,
                            -v,
                            crate::aircraft::MAX_ROLL_BIAS as int,
                        ) as i64,
                        decay_roll: false,
                        ..c0
                    }),
                    Movement::RollRight => c1 == (Controls {
                        roll_bias: steered_bias_spec(
                            c0.roll_bias as int,
                            bp.roll_rate as int,
                            v,
                            crate::aircraft::MAX_ROLL_BIAS as int,
                        ) as i64,
                        decay_roll: false,
                        ..c0
                    }),
                    Movement::ThrottleUp => c1 == (Controls {
                        throttle: clamp_spec(c0.throttle + dt as int / 1000, 10_000, 1_000_000)
                            as i64,
                        ..c0
                    }),
                    Movement::ThrottleDown => c1 == (Controls {
                        throttle: clamp_spec(c0.throttle - dt as int / 1000, 10_000, 1_000_000)
                            as i64,
                        ..c0
                    }),
                }
            }),
    {
        let velocity: i64 = dt / 1000;
        match direction {
            Movement::PitchUp => {
                self.aircraft.pitch(velocity);
                self.aircraft.set_decay(ControlSurfaces::Pitch, false);
            }
            Movement::PitchDown => {
                self.aircraft.pitch(-velocity);
                self.aircraft.set_decay(ControlSurfaces::Pitch, false);
            }
            Movement::YawLeft => {
                self.aircraft.yaw(velocity);
                self.aircraft.set_decay(ControlSurfaces::Yaw, false);
            }
            Movement::YawRight => {
                self.aircraft.yaw(-velocity);
                self.aircraft.set_decay(ControlSurfaces::Yaw, false);
            }
            Movement::RollLeft => {
                self.aircraft.roll(-velocity);
                self.aircraft.set_decay(ControlSurfaces::Roll, false);
            }
            Movement::RollRight => {
                self.aircraft.roll(velocity);
                self.aircraft.set_decay(ControlSurfaces::Roll, false);
            }
            Movement::ThrottleUp => {
                self.aircraft.throttle_up(dt);
            }
            Movement::ThrottleDown => {
                self.aircraft.throttle_down(dt);
            }
        }
    }
}

impl Default for Player {
    fn default() -> (r: Player)
        ensures
            r.aircraft.kind == AircraftKind::Mig21,
            r.kills == 0,
            r.guns_sound == SoundID::MAX,
            player_wf(r),
    {
        Player::new(AircraftKind::Mig21)
    }
}

/// A bias-scaled rotation amount stays within the angle range the camera
/// accepts.
proof fn lemma_control_amount(bias: int, dt: int)
    by (nonlinear_arith)
    requires
        -70000 <= bias <= 70000,
        0 <= dt <= 400000,
    ensures
        -720000 <= clamp_spec(
            tdiv(bias * dt, 1000000),
            -COORD_MAX as int,
            COORD_MAX as int,
        ) <= 720000,
{
}

} // verus!
