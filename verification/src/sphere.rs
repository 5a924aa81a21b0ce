//! Spheres.

use crate::bounding_box::Box;
use crate::hit::Hit;
use crate::path::{Path, Paths};
use crate::ray::Ray;
use crate::scalar::Scalar;
use crate::shape::Shape;
use crate::util::{radians, spec_radians};
use crate::vector::Vector;
use vstd::prelude::*;

verus! {

/// The bits of `0.01`: a hit nearer than this to the ray's origin does not
/// count.
pub const SPHERE_EPSILON_BITS: u64 = 0x3F84_7AE1_47AE_147B;

/// The curves that can be drawn on a sphere. The random ones are laid out
/// from the seed they carry.
#[derive(Clone, Copy, Debug, PartialEq, Eq, Structural)]
pub enum SphereTexture {
    /// Parallels and meridians, ten degrees apart.
    LatLng,
    /// Great circles in random planes.
    RandomEquators(u64),
    /// Random dots.
    RandomDots(u64),
    /// Random groups of concentric circles.
    RandomCircles(u64),
}

impl Default for SphereTexture {
    fn default() -> (t: SphereTexture)
        ensures
            t == SphereTexture::LatLng,
    {
        SphereTexture::LatLng
    }
}

/// A sphere, with parallels and meridians as its curves.
#[derive(Clone, Copy, Debug)]
pub struct Sphere {
    pub center: Vector,
    pub radius: Scalar,
    pub bx: Box,
}

/// The point at the latitude `lat` and the longitude `lng`, in degrees, on the
/// sphere of the given radius about the origin.
pub open spec fn spec_lat_lng_to_xyz(lat: Scalar, lng: Scalar, radius: Scalar) -> Vector {
    let lat = spec_radians(lat);
    let lng = spec_radians(lng);
    let x = radius.spec_mul(lat.spec_cos()).spec_mul(lng.spec_cos());
    let y = radius.spec_mul(lat.spec_cos()).spec_mul(lng.spec_sin());
    let z = radius.spec_mul(lat.spec_sin());
    Vector::spec_new(x, y, z)
}

/// The point at the latitude `lat` and the longitude `lng`, in degrees, on the
/// sphere of the given radius about the origin.
pub fn lat_lng_to_xyz(lat: Scalar, lng: Scalar, radius: Scalar) -> (v: Vector)
    ensures
        v == spec_lat_lng_to_xyz(lat, lng, radius),
{
    let lat = radians(lat);
    let lng = radians(lng);
    let x = radius.mul(lat.cos()).mul(lng.cos());
    let y = radius.mul(lat.cos()).mul(lng.sin());
    let z = radius.mul(lat.sin());
    Vector::new(x, y, z)
}

impl Sphere {
    /// The sphere about `center` with the given radius.
    pub open spec fn spec_new(center: Vector, radius: Scalar) -> Sphere {
        let min = Vector::spec_new(center.x.spec_sub(radius), center.y.spec_sub(radius), center.z.spec_sub(radius));
        let max = Vector::spec_new(center.x.spec_add(radius), center.y.spec_add(radius), center.z.spec_add(radius));
        Sphere { center, radius, bx: Box::spec_new(min, max) }
    }

    /// The point of the sphere at the latitude `lat` and the longitude
    /// `lng`, in whole degrees.
    pub open spec fn spec_point(&self, lat: int, lng: int) -> Vector {
        spec_lat_lng_to_xyz(
            Scalar::spec_from_i32(lat as i32),
            Scalar::spec_from_i32(lng as i32),
            self.radius,
        ).spec_add(self.center)
    }

    /// The parallel at the latitude `lat`: its points at every degree of
    /// longitude from 0 to 360.
    pub open spec fn spec_parallel(&self, lat: int) -> Seq<Vector> {
        Seq::new(361, |lng: int| self.spec_point(lat, lng))
    }

    /// The meridian at the longitude `lng`: its points at every degree of
    /// latitude from -80 to 80.
    pub open spec fn spec_meridian(&self, lng: int) -> Seq<Vector> {
        Seq::new(161, |k: int| self.spec_point(k - 80, lng))
    }

    /// The parallels from -80 to 80 degrees and then the meridians from 0
    /// to 350 degrees, each ten degrees apart.
    pub open spec fn spec_paths_lat_lng(&self) -> Seq<Seq<Vector>> {
        Seq::new(17, |k: int| self.spec_parallel(10 * k - 80)) + Seq::new(
            36,
            |k: int| self.spec_meridian(10 * k),
        )
    }

    /// The sphere about `center` with the given radius.
    pub fn new(center: Vector, radius: Scalar) -> (s: Sphere)
        ensures
            s == Self::spec_new(center, radius),
    {
        let min = Vector::new(center.x.sub(radius), center.y.sub(radius), center.z.sub(radius));
        let max = Vector::new(center.x.add(radius), center.y.add(radius), center.z.add(radius));
        Sphere { center, radius, bx: Box::new(min, max) }
    }

    fn point(&self, lat: i32, lng: i32) -> (v: Vector)
        ensures
            v == self.spec_point(lat as int, lng as int),
    {
        lat_lng_to_xyz(Scalar::from_i32(lat), Scalar::from_i32(lng), self.radius).add(self.center)
    }

    fn parallel(&self, lat: i32) -> (path: Path)
        ensures
            path@ == self.spec_parallel(lat as int),
    {
        let mut path: Vec<Vector> = Vec::new();
        let mut lng: i32 = 0;
        while lng <= 360
            invariant
                0 <= lng <= 361,
                path@.len() == lng,
                forall|j: int| 0 <= j < lng ==> path@[j] == self.spec_point(lat as int, j),
            decreases 361 - lng,
        {
            path.push(self.point(lat, lng));
            lng += 1;
        }
        assert(path@ =~= self.spec_parallel(lat as int));
        path
    }

    fn meridian(&self, lng: i32) -> (path: Path)
        ensures
            path@ == self.spec_meridian(lng as int),
    {
        let mut path: Vec<Vector> = Vec::new();
        let mut lat: i32 = -80;
        while lat <= 80
            invariant
                -80 <= lat <= 81,
                path@.len() == lat + 80,
                forall|k: int| 0 <= k < lat + 80 ==> path@[k] == self.spec_point(k - 80, lng as int),
            decreases 81 - lat,
        {
            path.push(self.point(lat, lng));
            lat += 1;
        }
        assert(path@ =~= self.spec_meridian(lng as int));
        path
    }

    fn paths_lat_lng(&self) -> (p: Paths)
        ensures
            p@ == self.spec_paths_lat_lng(),
    {
        let mut paths: Vec<Path> = Vec::new();
        let mut k: i32 = 0;
        while k < 17
            invariant
                0 <= k <= 17,
                paths@.len() == k,
                forall|j: int| 0 <= j < k ==> (#[trigger] paths@[j])@ == self.spec_parallel(10 * j - 80),
            decreases 17 - k,
        {
            paths.push(self.parallel(10 * k - 80));
            k += 1;
        }
        let mut k: i32 = 0;
        while k < 36
            invariant
                0 <= k <= 36,
                paths@.len() == 17 + k,
                forall|j: int| 0 <= j < 17 ==> (#[trigger] paths@[j])@ == self.spec_parallel(10 * j - 80),
                forall|j: int|
                    0 <= j < k ==> (#[trigger] paths@[17 + j])@ == self.spec_meridian(10 * j),
            decreases 36 - k,
        {
            paths.push(self.meridian(10 * k));
            k += 1;
        }
        let p = Paths::from_vec(paths);
        assert(p@ =~= self.spec_paths_lat_lng()) by {
            let want = self.spec_paths_lat_lng();
            assert(p@.len() == want.len());
            assert forall|j: int| 0 <= j < want.len() implies p@[j] == want[j] by {
                if j >= 17 {
                    assert(p@[j] == paths@[17 + (j - 17)]@);
                }
            }
        }
        p
    }
}

impl Shape for Sphere {
    open spec fn spec_bounding_box(&self) -> Box {
        self.bx
    }

    /// Whether the point lies within the radius plus `f` of the center.
    open spec fn spec_contains(&self, v: Vector, f: Scalar) -> bool {
        v.spec_sub(self.center).spec_length().spec_le(self.radius.spec_add(f))
    }

    /// The hit of the ray on the sphere: the nearer crossing that lies more than
    /// 0.01 along the ray. The direction of the ray is taken to have unit length.
    open spec fn spec_intersect(&self, r: Ray) -> Hit {
        let radius = self.radius;
        let to = r.origin.spec_sub(self.center);
        let b = to.spec_dot(r.direction);
        let c = to.spec_dot(to).spec_sub(radius.spec_mul(radius));
        let d = b.spec_mul(b).spec_sub(c);
        let eps = (Scalar { bits: SPHERE_EPSILON_BITS });
        if d.spec_gt(Scalar::spec_zero()) {
            let root = d.spec_sqrt();
            let t1 = b.spec_neg().spec_sub(root);
            let t2 = b.spec_neg().spec_add(root);
            if t1.spec_gt(eps) {
                (Hit { t: t1, ok: true })
            } else if t2.spec_gt(eps) {
                (Hit { t: t2, ok: true })
            } else {
                Hit::spec_no_hit()
            }
        } else {
            Hit::spec_no_hit()
        }
    }

    open spec fn spec_paths(&self) -> Seq<Seq<Vector>> {
        self.spec_paths_lat_lng()
    }

    fn bounding_box(&self) -> (b: Box) {
        self.bx
    }

    /// Whether the point lies within the radius plus `f` of the center.
    fn contains(&self, v: Vector, f: Scalar) -> (b: bool) {
        v.sub(self.center).length().le(self.radius.add(f))
    }

    /// The hit of the ray on the sphere: the nearer crossing that lies more than
    /// 0.01 along the ray. The direction of the ray is taken to have unit length.
    fn intersect(&self, r: Ray) -> (h: Hit) {
        let radius = self.radius;
        let to = r.origin.sub(self.center);
        let b = to.dot(r.direction);
        let c = to.dot(to).sub(radius.mul(radius));
        let d = b.mul(b).sub(c);
        let eps = Scalar::from_bits(SPHERE_EPSILON_BITS);
        if d.gt(Scalar::zero()) {
            let root = d.sqrt();
            let t1 = b.neg().sub(root);
            let t2 = b.neg().add(root);
            if t1.gt(eps) {
                Hit::new(t1)
            } else if t2.gt(eps) {
                Hit::new(t2)
            } else {
                Hit::no_hit()
            }
        } else {
            Hit::no_hit()
        }
    }

    fn paths(&self) -> (p: Paths) {
        self.paths_lat_lng()
    }
}

} // verus!
