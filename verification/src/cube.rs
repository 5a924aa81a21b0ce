//! Axis-aligned cubes.

use crate::bounding_box::Box;
use crate::hit::Hit;
use crate::path::{spec_flatten, Path, Paths};
use crate::ray::Ray;
use crate::scalar::Scalar;
use crate::shape::Shape;
use crate::vector::Vector;
use vstd::prelude::*;

verus! {

/// The bits of `1e-3`: a hit nearer than this to the ray's origin does not
/// count.
pub const CUBE_EPSILON_BITS: u64 = 0x3F50_624D_D2F1_A9FC;

/// The curves drawn on a cube.
#[derive(Clone, Copy, Debug)]
pub enum CubeTexture {
    /// The twelve edges.
    Vanilla,
    /// Lines across the faces, this many to a face.
    Striped(u64),
}

/// The box between the corners `min` and `max`, as a solid.
#[derive(Clone, Copy, Debug)]
pub struct Cube {
    pub min: Vector,
    pub max: Vector,
    pub bx: Box,
    pub texture: CubeTexture,
}

impl Cube {
    /// The twelve edges of the cube.
    pub open spec fn spec_paths_vanilla(&self) -> Seq<Seq<Vector>> {
        let x1 = self.min.x;
        let y1 = self.min.y;
        let z1 = self.min.z;
        let x2 = self.max.x;
        let y2 = self.max.y;
        let z2 = self.max.z;
        seq![
            seq![Vector { x: x1, y: y1, z: z1 }, Vector { x: x1, y: y1, z: z2 }],
            seq![Vector { x: x1, y: y1, z: z1 }, Vector { x: x1, y: y2, z: z1 }],
            seq![Vector { x: x1, y: y1, z: z1 }, Vector { x: x2, y: y1, z: z1 }],
            seq![Vector { x: x1, y: y1, z: z2 }, Vector { x: x1, y: y2, z: z2 }],
            seq![Vector { x: x1, y: y1, z: z2 }, Vector { x: x2, y: y1, z: z2 }],
            seq![Vector { x: x1, y: y2, z: z1 }, Vector { x: x1, y: y2, z: z2 }],
            seq![Vector { x: x1, y: y2, z: z1 }, Vector { x: x2, y: y2, z: z1 }],
            seq![Vector { x: x1, y: y2, z: z2 }, Vector { x: x2, y: y2, z: z2 }],
            seq![Vector { x: x2, y: y1, z: z1 }, Vector { x: x2, y: y1, z: z2 }],
            seq![Vector { x: x2, y: y1, z: z1 }, Vector { x: x2, y: y2, z: z1 }],
            seq![Vector { x: x2, y: y1, z: z2 }, Vector { x: x2, y: y2, z: z2 }],
            seq![Vector { x: x2, y: y2, z: z1 }, Vector { x: x2, y: y2, z: z2 }],
        ]
    }

    /// The lines of stripe `i` of `stripes`: one line up each side face, at
    /// the fraction `i / stripes` of its width, unless the stripe is the
    /// last; and on the bottom and on the top face, a line along each of
    /// the two directions.
    pub open spec fn spec_stripe(&self, i: u64, stripes: u64) -> Seq<Seq<Vector>> {
        let x1 = self.min.x;
        let y1 = self.min.y;
        let z1 = self.min.z;
        let x2 = self.max.x;
        let y2 = self.max.y;
        let z2 = self.max.z;
        let fi = Scalar::spec_from_u64(i);
        let fs = Scalar::spec_from_u64(stripes);
        let p = fi.spec_div(fs);
        let x = x1.spec_add(x2.spec_sub(x1).spec_mul(p));
        let y = y1.spec_add(y2.spec_sub(y1).spec_mul(p));
        let xr = x2.spec_sub(x2.spec_sub(x1).spec_mul(p));
        let yr = y2.spec_sub(y2.spec_sub(y1).spec_mul(p));
        let up = if i != stripes {
            seq![
                seq![Vector { x: x, y: y1, z: z1 }, Vector { x: x, y: y1, z: z2 }],
                seq![Vector { x: xr, y: y2, z: z1 }, Vector { x: xr, y: y2, z: z2 }],
                seq![Vector { x: x1, y: yr, z: z1 }, Vector { x: x1, y: yr, z: z2 }],
                seq![Vector { x: x2, y: y, z: z1 }, Vector { x: x2, y: y, z: z2 }],
            ]
        } else {
            Seq::empty()
        };
        up + seq![
            seq![Vector { x: x, y: y, z: z1 }, Vector { x: xr, y: y, z: z1 }],
            seq![Vector { x: x, y: y, z: z1 }, Vector { x: x, y: yr, z: z1 }],
            seq![Vector { x: x, y: y, z: z2 }, Vector { x: xr, y: y, z: z2 }],
            seq![Vector { x: x, y: y, z: z2 }, Vector { x: x, y: yr, z: z2 }],
        ]
    }

    /// The lines of all stripes, from stripe 0 to stripe `stripes`.
    pub open spec fn spec_paths_striped(&self, stripes: u64) -> Seq<Seq<Vector>> {
        spec_flatten(Seq::new((stripes + 1) as nat, |i: int| self.spec_stripe(i as u64, stripes)))
    }

    /// The cube between two corners, with its edges as curves.
    pub fn new(min: Vector, max: Vector) -> (c: Cube)
        ensures
            c == (Cube { min, max, bx: Box { min, max }, texture: CubeTexture::Vanilla }),
    {
        Cube { min, max, bx: Box::new(min, max), texture: CubeTexture::Vanilla }
    }

    /// The same cube with other curves.
    pub fn with_texture(self, texture: CubeTexture) -> (c: Cube)
        ensures
            c == (Cube { min: self.min, max: self.max, bx: self.bx, texture }),
    {
        Cube { min: self.min, max: self.max, bx: self.bx, texture }
    }

    /// The twelve edges of the cube.
    fn paths_vanilla(&self) -> (p: Paths)
        ensures
            p@ == self.spec_paths_vanilla(),
    {
        let x1 = self.min.x;
        let y1 = self.min.y;
        let z1 = self.min.z;
        let x2 = self.max.x;
        let y2 = self.max.y;
        let z2 = self.max.z;
        let mut paths: Vec<Path> = Vec::new();
        paths.push(vec![Vector { x: x1, y: y1, z: z1 }, Vector { x: x1, y: y1, z: z2 }]);
        paths.push(vec![Vector { x: x1, y: y1, z: z1 }, Vector { x: x1, y: y2, z: z1 }]);
        paths.push(vec![Vector { x: x1, y: y1, z: z1 }, Vector { x: x2, y: y1, z: z1 }]);
        paths.push(vec![Vector { x: x1, y: y1, z: z2 }, Vector { x: x1, y: y2, z: z2 }]);
        paths.push(vec![Vector { x: x1, y: y1, z: z2 }, Vector { x: x2, y: y1, z: z2 }]);
        paths.push(vec![Vector { x: x1, y: y2, z: z1 }, Vector { x: x1, y: y2, z: z2 }]);
        paths.push(vec![Vector { x: x1, y: y2, z: z1 }, Vector { x: x2, y: y2, z: z1 }]);
        paths.push(vec![Vector { x: x1, y: y2, z: z2 }, Vector { x: x2, y: y2, z: z2 }]);
        paths.push(vec![Vector { x: x2, y: y1, z: z1 }, Vector { x: x2, y: y1, z: z2 }]);
        paths.push(vec![Vector { x: x2, y: y1, z: z1 }, Vector { x: x2, y: y2, z: z1 }]);
        paths.push(vec![Vector { x: x2, y: y1, z: z2 }, Vector { x: x2, y: y2, z: z2 }]);
        paths.push(vec![Vector { x: x2, y: y2, z: z1 }, Vector { x: x2, y: y2, z: z2 }]);
        let p = Paths::from_vec(paths);
        assert(p@ =~= self.spec_paths_vanilla()) by {
            let want = self.spec_paths_vanilla();
            assert(p@.len() == want.len());
            assert forall|i: int| 0 <= i < want.len() implies p@[i] =~= want[i] by {}
        }
        p
    }

    /// The lines of stripe `i` of `stripes`.
    fn stripe(&self, i: u64, stripes: u64) -> (p: Paths)
        ensures
            p@ == self.spec_stripe(i, stripes),
    {
        let x1 = self.min.x;
        let y1 = self.min.y;
        let z1 = self.min.z;
        let x2 = self.max.x;
        let y2 = self.max.y;
        let z2 = self.max.z;
        let fi = Scalar::from_u64(i);
        let fs = Scalar::from_u64(stripes);
        let p = fi.div(fs);
        let x = x1.add(x2.sub(x1).mul(p));
        let y = y1.add(y2.sub(y1).mul(p));
        let xr = x2.sub(x2.sub(x1).mul(p));
        let yr = y2.sub(y2.sub(y1).mul(p));
        let mut paths: Vec<Path> = Vec::new();
        if i != stripes {
            paths.push(vec![Vector { x: x, y: y1, z: z1 }, Vector { x: x, y: y1, z: z2 }]);
            paths.push(vec![Vector { x: xr, y: y2, z: z1 }, Vector { x: xr, y: y2, z: z2 }]);
            paths.push(vec![Vector { x: x1, y: yr, z: z1 }, Vector { x: x1, y: yr, z: z2 }]);
            paths.push(vec![Vector { x: x2, y: y, z: z1 }, Vector { x: x2, y: y, z: z2 }]);
        }
        paths.push(vec![Vector { x: x, y: y, z: z1 }, Vector { x: xr, y: y, z: z1 }]);
        paths.push(vec![Vector { x: x, y: y, z: z1 }, Vector { x: x, y: yr, z: z1 }]);
        paths.push(vec![Vector { x: x, y: y, z: z2 }, Vector { x: xr, y: y, z: z2 }]);
        paths.push(vec![Vector { x: x, y: y, z: z2 }, Vector { x: x, y: yr, z: z2 }]);
        let p = Paths::from_vec(paths);
        assert(p@ =~= self.spec_stripe(i, stripes)) by {
            let want = self.spec_stripe(i, stripes);
            assert(p@.len() == want.len());
            assert forall|k: int| 0 <= k < want.len() implies p@[k] =~= want[k] by {}
        }
        p
    }

    /// The lines of all stripes.
    fn paths_striped(&self, stripes: u64) -> (p: Paths)
        ensures
            p@ == self.spec_paths_striped(stripes),
    {
        let ghost parts = Seq::new((stripes + 1) as nat, |i: int| self.spec_stripe(i as u64, stripes));
        let mut result = Paths::new();
        let mut i: u64 = 0;
        loop
            invariant_except_break
                i <= stripes,
                parts == Seq::new((stripes + 1) as nat, |i: int| self.spec_stripe(i as u64, stripes)),
                result@ == spec_flatten(parts.subrange(0, i as int)),
            ensures
                result@ == spec_flatten(parts),
            decreases stripes - i,
        {
            proof {
                assert(parts.subrange(0, i + 1).drop_last() =~= parts.subrange(0, i as int));
            }
            result.extend(self.stripe(i, stripes));
            if i == stripes {
                assert(parts.subrange(0, i + 1) =~= parts);
                break ;
            }
            i += 1;
        }
        result
    }
}

impl Shape for Cube {
    open spec fn spec_bounding_box(&self) -> Box {
        self.bx
    }

    /// Whether the point lies in the cube grown by `f` on every side.
    open spec fn spec_contains(&self, v: Vector, f: Scalar) -> bool {
        if v.x.spec_lt(self.min.x.spec_sub(f)) || v.x.spec_gt(self.max.x.spec_add(f)) {
            false
        } else if v.y.spec_lt(self.min.y.spec_sub(f)) || v.y.spec_gt(self.max.y.spec_add(f)) {
            false
        } else if v.z.spec_lt(self.min.z.spec_sub(f)) || v.z.spec_gt(self.max.z.spec_add(f)) {
            false
        } else {
            true
        }
    }

    /// The hit of the ray on the cube: where the ray enters it or, for a ray that
    /// starts inside, where it leaves.
    open spec fn spec_intersect(&self, r: Ray) -> Hit {
        let n = self.min.spec_sub(r.origin).spec_div(r.direction);
        let f = self.max.spec_sub(r.origin).spec_div(r.direction);
        let near = n.spec_min(f);
        let far = n.spec_max(f);
        let t0 = near.x.spec_max(near.y).spec_max(near.z);
        let t1 = far.x.spec_min(far.y).spec_min(far.z);
        let eps = (Scalar { bits: CUBE_EPSILON_BITS });
        if t0.spec_lt(eps) && t1.spec_gt(eps) {
            (Hit { t: t1, ok: true })
        } else if t0.spec_ge(eps) && t0.spec_lt(t1) {
            (Hit { t: t0, ok: true })
        } else {
            Hit::spec_no_hit()
        }
    }

    open spec fn spec_paths(&self) -> Seq<Seq<Vector>> {
        match self.texture {
            CubeTexture::Vanilla => self.spec_paths_vanilla(),
            CubeTexture::Striped(stripes) => self.spec_paths_striped(stripes),
        }
    }

    fn bounding_box(&self) -> (b: Box) {
        self.bx
    }

    /// Whether the point lies in the cube grown by `f` on every side.
    fn contains(&self, v: Vector, f: Scalar) -> (b: bool)
    {
        if v.x.lt(self.min.x.sub(f)) || v.x.gt(self.max.x.add(f)) {
            false
        } else if v.y.lt(self.min.y.sub(f)) || v.y.gt(self.max.y.add(f)) {
            false
        } else if v.z.lt(self.min.z.sub(f)) || v.z.gt(self.max.z.add(f)) {
            false
        } else {
            true
        }
    }

    /// The hit of the ray on the cube: where the ray enters it or, for a ray that
    /// starts inside, where it leaves.
    fn intersect(&self, r: Ray) -> (h: Hit)
    {
        let n = self.min.sub(r.origin).div(r.direction);
        let f = self.max.sub(r.origin).div(r.direction);
        let near = n.min(f);
        let far = n.max(f);
        let t0 = near.x.max(near.y).max(near.z);
        let t1 = far.x.min(far.y).min(far.z);
        let eps = Scalar::from_bits(CUBE_EPSILON_BITS);
        if t0.lt(eps) && t1.gt(eps) {
            Hit::new(t1)
        } else if t0.ge(eps) && t0.lt(t1) {
            Hit::new(t0)
        } else {
            Hit::no_hit()
        }
    }

    fn paths(&self) -> (p: Paths) {
        match self.texture {
            CubeTexture::Vanilla => self.paths_vanilla(),
            CubeTexture::Striped(stripes) => self.paths_striped(stripes),
        }
    }
}

} // verus!
