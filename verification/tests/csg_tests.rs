use ln::{
    new_boolean_shape, new_difference, new_intersection, BooleanShape, Csg, Cube, EmptyShape, Filter, Hit, Op,
    Paths, Ray, Scalar, Shape, Sphere, TransformedShape, Box, Matrix, Vector,
};
use std::sync::Arc;

fn s(x: f64) -> Scalar {
    Scalar::from_bits(x.to_bits())
}

fn f(x: Scalar) -> f64 {
    f64::from_bits(x.to_bits())
}

fn v(x: f64, y: f64, z: f64) -> Vector {
    Vector::new(s(x), s(y), s(z))
}

fn xyz(p: Vector) -> (f64, f64, f64) {
    (f(p.x), f(p.y), f(p.z))
}

/// A cube or a sphere.
enum Solid {
    Cube(Cube),
    Sphere(Sphere),
}

impl Shape for Solid {
    fn bounding_box(&self) -> Box {
        match self {
            Solid::Cube(c) => c.bounding_box(),
            Solid::Sphere(c) => c.bounding_box(),
        }
    }

    fn contains(&self, p: Vector, fuzz: Scalar) -> bool {
        match self {
            Solid::Cube(c) => c.contains(p, fuzz),
            Solid::Sphere(c) => c.contains(p, fuzz),
        }
    }

    fn intersect(&self, r: Ray) -> Hit {
        match self {
            Solid::Cube(c) => c.intersect(r),
            Solid::Sphere(c) => c.intersect(r),
        }
    }

    fn paths(&self) -> Paths {
        match self {
            Solid::Cube(c) => c.paths(),
            Solid::Sphere(c) => c.paths(),
        }
    }
}

fn sphere(x: f64, y: f64, z: f64, r: f64) -> Arc<Solid> {
    Arc::new(Solid::Sphere(Sphere::new(v(x, y, z), s(r))))
}

fn cube(lo: f64, hi: f64) -> Arc<Solid> {
    Arc::new(Solid::Cube(Cube::new(v(lo, lo, lo), v(hi, hi, hi))))
}

fn grid() -> Vec<Vector> {
    let mut out = Vec::new();
    for i in -6..=6 {
        for j in -6..=6 {
            for k in -6..=6 {
                out.push(v(i as f64 * 0.25, j as f64 * 0.25, k as f64 * 0.25));
            }
        }
    }
    out
}

#[test]
fn a_difference_of_a_solid_and_itself_contains_no_interior_point() {
    let a = sphere(0.0, 0.0, 0.0, 1.0);
    let shape = BooleanShape::new(Op::Difference, Csg::Leaf(a.clone()), Csg::Leaf(a.clone()));
    let mut inside = 0;
    for p in grid() {
        if a.contains(p, s(-1e-3)) {
            inside += 1;
            assert!(!shape.contains(p, s(0.0)));
            assert!(!shape.contains(p, s(0.5)));
        }
    }
    assert!(inside > 100);
    let folded = new_difference(vec![a.clone(), a.clone()]);
    assert!(!folded.contains(v(0.1, 0.2, 0.3), s(0.0)));
}

#[test]
fn an_intersection_with_an_enclosing_cube_contains_what_the_sphere_contains() {
    let ball = sphere(0.0, 0.0, 0.0, 1.0);
    let room = cube(-1.25, 1.25);
    let shape = BooleanShape::new(Op::Intersection, Csg::Leaf(ball.clone()), Csg::Leaf(room));
    let mut inside = 0;
    for p in grid() {
        let want = ball.contains(p, s(1e-3));
        assert_eq!(shape.contains(p, s(0.0)), want);
        if want {
            inside += 1;
        }
    }
    assert!(inside > 100 && inside < grid().len());
}

#[test]
fn contains_uses_its_own_tolerance() {
    let a = cube(-1.0, 1.0);
    let b = cube(0.0, 2.0);
    let both = BooleanShape::new(Op::Intersection, Csg::Leaf(a.clone()), Csg::Leaf(b.clone()));
    assert!(both.contains(v(0.5, 0.5, 0.5), s(0.0)));
    assert!(both.contains(v(1.0005, 0.5, 0.5), s(0.0)));
    assert!(both.contains(v(-0.0005, 0.5, 0.5), s(0.0)));
    assert!(!both.contains(v(1.002, 0.5, 0.5), s(100.0)));
    assert!(!both.contains(v(-0.5, 0.5, 0.5), s(100.0)));
    let less = BooleanShape::new(Op::Difference, Csg::Leaf(a), Csg::Leaf(b));
    assert!(less.contains(v(-0.5, 0.5, 0.5), s(0.0)));
    assert!(!less.contains(v(0.5, 0.5, 0.5), s(0.0)));
    // On the face of `b` the point is not inside `b` shrunk by the tolerance.
    assert!(less.contains(v(0.0005, 0.5, 0.5), s(0.0)));
    assert!(!less.contains(v(0.002, 0.5, 0.5), s(0.0)));
    assert!(!less.contains(v(-1.002, 0.5, 0.5), s(0.0)));
}

#[test]
fn the_bounding_box_is_the_union_of_the_operands() {
    let shape = BooleanShape::new(Op::Difference, Csg::Leaf(cube(-1.0, 1.0)), Csg::Leaf(sphere(2.0, 0.0, 0.0, 1.0)));
    let b = shape.bounding_box();
    assert_eq!(xyz(b.min), (-1.0, -1.0, -1.0));
    assert_eq!(xyz(b.max), (3.0, 1.0, 1.0));
}

#[test]
fn a_ray_skips_the_part_that_was_taken_away() {
    // A cube from which the ball around its front face is taken.
    let shape = BooleanShape::new(
        Op::Difference,
        Csg::Leaf(cube(-1.0, 1.0)),
        Csg::Leaf(sphere(-1.0, 0.0, 0.0, 0.5)),
    );
    let r = Ray::new(v(-5.0, 0.0, 0.0), v(1.0, 0.0, 0.0));
    let h = shape.intersect(r);
    assert!(h.ok);
    // The answer is measured from where the last restart began.
    assert!(f(h.t) > 0.0 && f(h.t) < 1.0);
    let beside = shape.intersect(Ray::new(v(-5.0, 0.9, 0.0), v(1.0, 0.0, 0.0)));
    assert!(beside.ok);
    assert_eq!(f(beside.t), 4.0);
    let miss = shape.intersect(Ray::new(v(-5.0, 3.0, 0.0), v(1.0, 0.0, 0.0)));
    assert!(!miss.ok);
}

#[test]
fn a_ray_meets_an_intersection_where_both_solids_are() {
    let shape = BooleanShape::new(Op::Intersection, Csg::Leaf(cube(-1.0, 1.0)), Csg::Leaf(cube(0.0, 2.0)));
    let h = shape.intersect(Ray::new(v(-5.0, 0.5, 0.5), v(1.0, 0.0, 0.0)));
    assert!(h.ok);
    assert!(f(h.t) > 0.0);
    let miss = shape.intersect(Ray::new(v(-5.0, -0.5, 0.5), v(1.0, 0.0, 0.0)));
    assert!(!miss.ok);
    assert_eq!(f(miss.t), f64::INFINITY);
}

#[test]
fn the_restart_limit_ends_the_march() {
    let shape = BooleanShape::new(
        Op::Difference,
        Csg::Leaf(cube(-1.0, 1.0)),
        Csg::Leaf(sphere(-1.0, 0.0, 0.0, 0.5)),
    );
    assert_eq!(shape.limit, usize::MAX);
    let capped = shape.with_limit(0);
    assert_eq!(capped.limit, 0);
    assert!(capped.op == Op::Difference);
    let h = capped.intersect(Ray::new(v(-5.0, 0.0, 0.0), v(1.0, 0.0, 0.0)));
    assert!(!h.ok);
    assert_eq!(f(h.t), f64::INFINITY);
    let beside = capped.intersect(Ray::new(v(-5.0, 0.9, 0.0), v(1.0, 0.0, 0.0)));
    assert_eq!(f(beside.t), 4.0);
    let enough = capped.with_limit(5).intersect(Ray::new(v(-5.0, 0.0, 0.0), v(1.0, 0.0, 0.0)));
    assert!(enough.ok);
}

#[test]
fn paths_keep_only_what_lies_on_the_combination() {
    let shape = BooleanShape::new(Op::Intersection, Csg::Leaf(cube(-1.0, 1.0)), Csg::Leaf(cube(0.0, 3.0)));
    let paths = shape.paths();
    assert!(!paths.paths.is_empty());
    for path in paths.paths.iter() {
        assert!(path.len() >= 2);
        for p in path.iter() {
            assert!(shape.contains(*p, s(0.0)));
            assert!(f(p.x) >= -0.0011 && f(p.x) <= 1.0011);
        }
        for pair in path.windows(2) {
            assert!(f(pair[0].distance(pair[1])) <= 0.01 + 1e-9);
        }
    }
    let nothing = BooleanShape::new(Op::Intersection, Csg::Leaf(cube(-1.0, 1.0)), Csg::Leaf(cube(5.0, 6.0)));
    assert!(nothing.paths().paths.is_empty());
}

#[test]
fn the_filter_of_a_combination_keeps_its_points() {
    let shape = BooleanShape::new(Op::Intersection, Csg::Leaf(cube(-1.0, 1.0)), Csg::Leaf(cube(0.0, 3.0)));
    let kept = shape.filter(v(0.5, 0.5, 0.5));
    assert_eq!(kept.map(xyz), Some((0.5, 0.5, 0.5)));
    assert!(shape.filter(v(-0.5, 0.5, 0.5)).is_none());
}

#[test]
fn no_solids_combine_to_nothing() {
    let none: Vec<Arc<Solid>> = Vec::new();
    for shape in [new_intersection(none.clone()), new_difference(none.clone()), new_boolean_shape(Op::Difference, none)] {
        assert!(matches!(shape, Csg::Empty));
        assert!(!shape.contains(v(0.0, 0.0, 0.0), s(1.0)));
        let b = shape.bounding_box();
        assert_eq!(xyz(b.min), (0.0, 0.0, 0.0));
        assert_eq!(xyz(b.max), (0.0, 0.0, 0.0));
        let h = shape.intersect(Ray::new(v(-1.0, 0.0, 0.0), v(1.0, 0.0, 0.0)));
        assert!(!h.ok);
        assert_eq!(f(h.t), f64::INFINITY);
        assert!(shape.paths().paths.is_empty());
    }
}

#[test]
fn one_solid_combines_to_itself() {
    let shape = new_intersection(vec![cube(-1.0, 1.0)]);
    assert!(matches!(shape, Csg::Leaf(_)));
    assert!(shape.contains(v(1.05, 0.0, 0.0), s(0.1)));
    assert!(!shape.contains(v(1.05, 0.0, 0.0), s(0.0)));
    assert_eq!(shape.paths().paths.len(), 12);
    assert_eq!(f(shape.intersect(Ray::new(v(-5.0, 0.0, 0.0), v(1.0, 0.0, 0.0))).t), 4.0);
}

#[test]
fn many_solids_combine_from_the_left() {
    let a = cube(-2.0, 2.0);
    let b = sphere(0.0, 0.0, 0.0, 2.5);
    let c = cube(0.0, 3.0);
    let all = new_intersection(vec![a.clone(), b.clone(), c.clone()]);
    match &all {
        Csg::Combined(outer) => {
            assert!(outer.op == Op::Intersection);
            assert!(matches!(outer.b, Csg::Leaf(_)));
            match &outer.a {
                Csg::Combined(inner) => {
                    assert!(matches!(inner.a, Csg::Leaf(_)));
                    assert!(matches!(inner.b, Csg::Leaf(_)));
                }
                _ => panic!("the first operand is not the fold of the first two solids"),
            }
        }
        _ => panic!("three solids did not combine"),
    }
    for p in grid() {
        let want = a.contains(p, s(1e-3)) && b.contains(p, s(1e-3)) && c.contains(p, s(1e-3));
        assert_eq!(all.contains(p, s(0.0)), want);
    }
    let less = new_difference(vec![a.clone(), b.clone(), c.clone()]);
    for p in grid() {
        let want = a.contains(p, s(1e-3)) && !b.contains(p, s(-1e-3)) && !c.contains(p, s(-1e-3));
        assert_eq!(less.contains(p, s(0.0)), want);
    }
    let shared = all.share();
    assert!(matches!(shared, Csg::Combined(_)));
    assert_eq!(shared.contains(v(1.0, 1.0, 1.0), s(0.0)), all.contains(v(1.0, 1.0, 1.0), s(0.0)));
}

#[test]
fn the_empty_shape_answers_nothing() {
    let e = EmptyShape::default();
    assert!(!e.contains(v(0.0, 0.0, 0.0), s(10.0)));
    assert!(!e.intersect(Ray::new(v(-1.0, 0.0, 0.0), v(1.0, 0.0, 0.0))).ok);
    assert!(e.paths().paths.is_empty());
    assert_eq!(xyz(e.bounding_box().min), (0.0, 0.0, 0.0));
    assert_eq!(xyz(e.bounding_box().max), (0.0, 0.0, 0.0));
}

#[test]
fn a_transformed_shape_answers_in_its_own_frame() {
    let moved = TransformedShape::new(
        Arc::new(Cube::new(v(-1.0, -1.0, -1.0), v(1.0, 1.0, 1.0))),
        Matrix::translate(v(10.0, 0.0, 0.0)),
    );
    assert!(moved.contains(v(10.5, 0.0, 0.0), s(0.0)));
    assert!(!moved.contains(v(0.5, 0.0, 0.0), s(0.0)));
    assert_eq!(xyz(moved.bounding_box().min), (9.0, -1.0, -1.0));
    assert_eq!(xyz(moved.bounding_box().max), (11.0, 1.0, 1.0));
    let h = moved.intersect(Ray::new(v(0.0, 0.0, 0.0), v(1.0, 0.0, 0.0)));
    assert!(h.ok);
    assert_eq!(f(h.t), 9.0);
    let paths = moved.paths();
    assert_eq!(paths.paths.len(), 12);
    assert_eq!(xyz(paths.paths[0][0]), (9.0, -1.0, -1.0));
    assert_eq!(f(moved.inverse.x03), -10.0);
}
