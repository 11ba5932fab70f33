//! The terrain as the simulation sees it: a height sample per whole-unit
//! grid point, and the rectangular bounds enemies must stay inside. Mesh
//! loading and rendering happen outside; this module receives plain vertex
//! positions.

use vstd::prelude::*;
use crate::fixed::{clamp_spec, tdiv, tdiv_clamp, COORD_MAX};
use crate::vec3::{in_coord_range, Vec3};

verus! {

#[derive(Clone, Copy, PartialEq, Eq, Structural, Hash, Debug)]
pub enum TerrainType {
    Desert,
}

/// Rectangular terrain extent in whole world units; a coordinate is inside
/// when `min <= c < max`, as a half-open range.
#[derive(Clone, Copy, PartialEq, Eq, Structural, Debug)]
pub struct Bounds {
    pub x_min: i64,
    pub x_max: i64,
    pub z_min: i64,
    pub z_max: i64,
}

/// Bounds fit within a billion whole units, so scaling them to milli-units
/// and drawing random coordinates inside them stays in range.
pub open spec fn bounds_wf(b: Bounds) -> bool {
    &&& -1_000_000_000 <= b.x_min < b.x_max <= 1_000_000_000
    &&& -1_000_000_000 <= b.z_min < b.z_max <= 1_000_000_000
}

impl Bounds {
    /// Whether a whole-unit grid coordinate lies inside.
    pub open spec fn contains_spec(self, x: int, z: int) -> bool {
        self.x_min <= x < self.x_max && self.z_min <= z < self.z_max
    }

    pub fn contains(&self, x: i64, z: i64) -> (r: bool)
        ensures
            r == self.contains_spec(x as int, z as int),
    {
        self.x_min <= x && x < self.x_max && self.z_min <= z && z < self.z_max
    }
}

/// One height sample: whole-unit grid x and z, and a milli-unit height.
#[derive(Clone, Copy, PartialEq, Eq, Structural, Debug)]
pub struct HeightSample {
    pub x: i64,
    pub z: i64,
    pub h: i64,
}

#[derive(Clone, PartialEq, Eq, Debug)]
pub struct Terrain {
    pub heights: Vec<HeightSample>,
    pub bounds: Bounds,
    /// Vertical offset of the terrain model, milli-units.
    pub translation_y: i64,
}

pub open spec fn terrain_wf(t: Terrain) -> bool {
    &&& bounds_wf(t.bounds)
    &&& -COORD_MAX as int <= t.translation_y <= COORD_MAX as int
    &&& forall|i: int|
        0 <= i < t.heights@.len() ==> -COORD_MAX as int <= (#[trigger] t.heights@[i]).h
            <= COORD_MAX as int
}

/// The terrain height under a grid point as `height_at` reports it: the
/// stored sample (or zero) raised by the model offset plus the 0.8 unit
/// safety margin, saturated.
pub open spec fn height_at_spec(t: Terrain, x: int, z: int) -> int {
    clamp_spec(
        raw_height_spec(t.heights@, x, z) + t.translation_y + 800,
        -COORD_MAX as int,
        COORD_MAX as int,
    )
}

/// The last stored sample for a grid point wins (samples written later
/// override earlier ones); an unsampled point has height zero.
pub open spec fn raw_height_spec(s: Seq<HeightSample>, x: int, z: int) -> int
    decreases s.len(),
{
    if s.len() == 0 {
        0
    } else if s.last().x == x && s.last().z == z {
        s.last().h as int
    } else {
        raw_height_spec(s.drop_last(), x, z)
    }
}

/// Height samples of a mesh: each vertex position (milli-units) becomes a
/// sample at its truncated whole-unit x and z with its raw y.
pub open spec fn sample_of_spec(v: Vec3) -> HeightSample {
    HeightSample {
        x: clamp_spec(tdiv(v.x as int, 1000), -COORD_MAX as int, COORD_MAX as int) as i64,
        z: clamp_spec(tdiv(v.z as int, 1000), -COORD_MAX as int, COORD_MAX as int) as i64,
        h: v.y,
    }
}

impl Terrain {
    /// Assemble a terrain from its height samples, bounds and vertical
    /// offset.
    pub fn new(heights: Vec<HeightSample>, bounds: Bounds, translation_y: i64) -> (r: Terrain)
        requires
            bounds_wf(bounds),
            -COORD_MAX <= translation_y <= COORD_MAX,
            forall|i: int|
                0 <= i < heights@.len() ==> -COORD_MAX as int <= (#[trigger] heights@[i]).h
                    <= COORD_MAX as int,
        ensures
            r.heights@ == heights@,
            r.bounds == bounds,
            r.translation_y == translation_y,
            terrain_wf(r),
    {
        Terrain { heights, bounds, translation_y }
    }

    /// The grid samples of a list of vertex positions, in order.
    pub fn heights_of(positions: &Vec<Vec3>) -> (r: Vec<HeightSample>)
        requires
            forall|i: int| 0 <= i < positions@.len() ==> in_coord_range(#[trigger] positions@[i]),
        ensures
            r@.len() == positions@.len(),
            forall|i: int| 0 <= i < r@.len() ==> r@[i] == sample_of_spec(#[trigger] positions@[i]),
    {
        let mut out: Vec<HeightSample> = Vec::new();
        let n = positions.len();
        let mut i: usize = 0;
        while i < n
            invariant
                n == positions@.len(),
                i <= n,
                forall|k: int|
                    0 <= k < positions@.len() ==> in_coord_range(#[trigger] positions@[k]),
                out@.len() == i,
                forall|k: int|
                    0 <= k < i ==> out@[k] == sample_of_spec(#[trigger] positions@[k]),
            decreases n - i,
        {
            let v = positions[i];
            out.push(
                HeightSample {
                    x: tdiv_clamp(v.x as i128, 1000),
                    z: tdiv_clamp(v.z as i128, 1000),
                    h: v.y,
                },
            );
            i = i + 1;
        }
        out
    }

    /// The terrain height under a whole-unit grid point: the stored sample
    /// (or zero), raised by the model offset plus a safety margin of 0.8
    /// units.
    pub fn height_at(&self, x: i64, z: i64) -> (r: i64)
        requires
            terrain_wf(*self),
        ensures
            r == height_at_spec(*self, x as int, z as int),
    {
        let n = self.heights.len();
        let mut i: usize = n;
        let mut found: i64 = 0;
        let mut done: bool = false;
        proof {
            assert(self.heights@.subrange(0, n as int) =~= self.heights@);
        }
        while i > 0 && !done
            invariant
                i <= n,
                n == self.heights@.len(),
                terrain_wf(*self),
                !done ==> found == 0 && raw_height_spec(self.heights@, x as int, z as int)
                    == raw_height_spec(self.heights@.subrange(0, i as int), x as int, z as int),
                done ==> found == raw_height_spec(self.heights@, x as int, z as int),
                -COORD_MAX <= found <= COORD_MAX,
            decreases i + (if done { 0int } else { 1int }),
        {
            let s = self.heights[i - 1];
            proof {
                assert(self.heights@.subrange(0, i as int).last() == self.heights@[i - 1]);
                assert(self.heights@.subrange(0, i as int).drop_last() =~= self.heights@.subrange(
                    0,
                    i - 1,
                ));
            }
            if s.x == x && s.z == z {
                found = s.h;
                done = true;
            }
            i = i - 1;
        }
        proof {
            if !done {
                assert(self.heights@.subrange(0, 0) =~= Seq::<HeightSample>::empty());
            }
        }
        proof {
            crate::fixed::lemma_tdiv_one(
                raw_height_spec(self.heights@, x as int, z as int) + self.translation_y + 800,
            );
        }
        tdiv_clamp((found as i128) + (self.translation_y as i128) + 800, 1)
    }

    /// The smallest axis-aligned whole-unit rectangle containing every
    /// vertex's truncated x and z. With a single distinct sample the range
    /// is empty under the half-open reading.
    pub fn bounds_of(positions: &Vec<Vec3>) -> (r: Bounds)
        requires
            positions@.len() >= 1,
            forall|i: int| 0 <= i < positions@.len() ==> in_coord_range(#[trigger] positions@[i]),
        ensures
            forall|i: int|
                0 <= i < positions@.len() ==> r.x_min <= sample_of_spec(
                    #[trigger] positions@[i],
                ).x <= r.x_max && r.z_min <= sample_of_spec(positions@[i]).z <= r.z_max,
            exists|i: int| 0 <= i < positions@.len() && r.x_min == sample_of_spec(#[trigger] positions@[i]).x,
            exists|i: int| 0 <= i < positions@.len() && r.x_max == sample_of_spec(#[trigger] positions@[i]).x,
            exists|i: int| 0 <= i < positions@.len() && r.z_min == sample_of_spec(#[trigger] positions@[i]).z,
            exists|i: int| 0 <= i < positions@.len() && r.z_max == sample_of_spec(#[trigger] positions@[i]).z,
            -COORD_MAX <= r.x_min <= r.x_max <= COORD_MAX,
            -COORD_MAX <= r.z_min <= r.z_max <= COORD_MAX,
    {
        let first = positions[0];
        let fx = tdiv_clamp(first.x as i128, 1000);
        let fz = tdiv_clamp(first.z as i128, 1000);
        let mut b = Bounds { x_min: fx, x_max: fx, z_min: fz, z_max: fz };
        let n = positions.len();
        let mut i: usize = 1;
        while i < n
            invariant
                1 <= i <= n,
                n == positions@.len(),
                forall|k: int|
                    0 <= k < positions@.len() ==> in_coord_range(#[trigger] positions@[k]),
                forall|k: int|
                    0 <= k < i ==> b.x_min <= sample_of_spec(#[trigger] positions@[k]).x
                        <= b.x_max && b.z_min <= sample_of_spec(positions@[k]).z <= b.z_max,
                exists|k: int| 0 <= k < i && b.x_min == sample_of_spec(#[trigger] positions@[k]).x,
                exists|k: int| 0 <= k < i && b.x_max == sample_of_spec(#[trigger] positions@[k]).x,
                exists|k: int| 0 <= k < i && b.z_min == sample_of_spec(#[trigger] positions@[k]).z,
                exists|k: int| 0 <= k < i && b.z_max == sample_of_spec(#[trigger] positions@[k]).z,
                -COORD_MAX <= b.x_min <= b.x_max <= COORD_MAX,
                -COORD_MAX <= b.z_min <= b.z_max <= COORD_MAX,
            decreases n - i,
        {
            let v = positions[i];
            let ux = tdiv_clamp(v.x as i128, 1000);
            let uz = tdiv_clamp(v.z as i128, 1000);
            if ux < b.x_min {
                b.x_min = ux;
            }
            if ux > b.x_max {
                b.x_max = ux;
            }
            if uz < b.z_min {
                b.z_min = uz;
            }
            if uz > b.z_max {
                b.z_max = uz;
            }
            i = i + 1;
        }
        b
    }
}

} // verus!
