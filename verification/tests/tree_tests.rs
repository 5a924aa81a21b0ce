use ln::tree::box_for_arc_shapes;
use ln::{Axis, Box, Cube, Hit, Node, Paths, Ray, Scalar, Shape, Sphere, Tree, Vector};
use std::sync::Arc;

fn s(x: f64) -> Scalar {
    Scalar::from_bits(x.to_bits())
}

fn f(x: Scalar) -> f64 {
    f64::from_bits(x.to_bits())
}

fn v(x: f64, y: f64, z: f64) -> Vector {
    Vector::new(s(x), s(y), s(z))
}

fn xyz(p: Vector) -> (f64, f64, f64) {
    (f(p.x), f(p.y), f(p.z))
}

fn unit_cube_at(x: f64, y: f64, z: f64) -> Cube {
    Cube::new(v(x - 0.5, y - 0.5, z - 0.5), v(x + 0.5, y + 0.5, z + 0.5))
}

/// A cube or a sphere.
enum Solid {
    Cube(Cube),
    Sphere(Sphere),
}

impl Shape for Solid {
    fn bounding_box(&self) -> Box {
        match self {
            Solid::Cube(c) => c.bounding_box(),
            Solid::Sphere(c) => c.bounding_box(),
        }
    }

    fn contains(&self, p: Vector, fuzz: Scalar) -> bool {
        match self {
            Solid::Cube(c) => c.contains(p, fuzz),
            Solid::Sphere(c) => c.contains(p, fuzz),
        }
    }

    fn intersect(&self, r: Ray) -> Hit {
        match self {
            Solid::Cube(c) => c.intersect(r),
            Solid::Sphere(c) => c.intersect(r),
        }
    }

    fn paths(&self) -> Paths {
        Paths::new()
    }
}

struct Lcg(u64);

impl Lcg {
    fn next(&mut self) -> f64 {
        self.0 = self.0.wrapping_mul(6364136223846793005).wrapping_add(1442695040888963407);
        ((self.0 >> 11) as f64) / ((1u64 << 53) as f64)
    }

    fn between(&mut self, lo: f64, hi: f64) -> f64 {
        lo + (hi - lo) * self.next()
    }
}

fn brute_force(shapes: &Vec<Arc<Solid>>, r: Ray) -> Hit {
    let mut best = Hit::no_hit();
    for shape in shapes.iter() {
        let h = shape.intersect(r);
        if f(h.t) < f(best.t) {
            best = h;
        }
    }
    best
}

fn count_leaves_and_shapes<S: Shape>(node: &Node<S>) -> (usize, usize) {
    match (&node.left, &node.right) {
        (Some(l), Some(r)) => {
            assert!(node.axis != Axis::NoAxis);
            assert!(node.shapes.is_empty());
            let a = count_leaves_and_shapes(l);
            let b = count_leaves_and_shapes(r);
            (a.0 + b.0, a.1 + b.1)
        }
        (None, None) => {
            assert!(node.axis == Axis::NoAxis);
            (1, node.shapes.len())
        }
        _ => panic!("a node with one child"),
    }
}

#[test]
fn nine_cubes_along_x_are_split_across_x() {
    let shapes: Vec<Arc<Cube>> = (0..9).map(|i| Arc::new(unit_cube_at(2.0 * i as f64, 0.0, 0.0))).collect();
    let tree = Tree::new(shapes);
    assert!(tree.root.axis == Axis::X);
    assert_eq!(f(tree.root.point), 8.0);
    assert!(tree.root.shapes.is_empty());
    let left = tree.root.left.as_ref().unwrap();
    let right = tree.root.right.as_ref().unwrap();
    // The cube around the split plane goes to both sides.
    assert_eq!(left.shapes.len(), 5);
    assert_eq!(right.shapes.len(), 5);
    assert!(left.axis == Axis::NoAxis && right.axis == Axis::NoAxis);
    assert_eq!(xyz(tree.bx.min), (-0.5, -0.5, -0.5));
    assert_eq!(xyz(tree.bx.max), (16.5, 0.5, 0.5));
}

#[test]
fn a_ray_along_x_meets_nine_cubes_in_order() {
    let shapes: Vec<Arc<Cube>> = (0..9).map(|i| Arc::new(unit_cube_at(2.0 * i as f64, 0.0, 0.0))).collect();
    let tree = Tree::new(shapes);
    let direction = v(1.0, 0.0, 0.0);
    let mut origin = -5.0;
    let mut last = f64::NEG_INFINITY;
    let mut met = Vec::new();
    loop {
        let h = tree.intersect(Ray::new(v(origin, 0.0, 0.0), direction));
        if !h.ok {
            break;
        }
        let at = origin + f(h.t);
        assert!(at > last, "hits out of order: {} after {}", at, last);
        last = at;
        met.push(at);
        // Past the far side of the cube that was entered.
        origin = at + 1.25;
    }
    assert_eq!(met, vec![-0.5, 1.5, 3.5, 5.5, 7.5, 9.5, 11.5, 13.5, 15.5]);
}

#[test]
fn a_ray_along_minus_x_meets_the_cubes_from_the_far_end() {
    let shapes: Vec<Arc<Cube>> = (0..9).map(|i| Arc::new(unit_cube_at(2.0 * i as f64, 0.0, 0.0))).collect();
    let tree = Tree::new(shapes);
    let h = tree.intersect(Ray::new(v(30.0, 0.0, 0.0), v(-1.0, 0.0, 0.0)));
    assert!(h.ok);
    assert_eq!(f(h.t), 13.5);
    let miss = tree.intersect(Ray::new(v(30.0, 5.0, 0.0), v(-1.0, 0.0, 0.0)));
    assert!(!miss.ok);
    assert_eq!(f(miss.t), f64::INFINITY);
    let away = tree.intersect(Ray::new(v(30.0, 0.0, 0.0), v(1.0, 0.0, 0.0)));
    assert!(!away.ok);
}

fn slab(x0: f64, x1: f64) -> Arc<Cube> {
    Arc::new(Cube::new(v(x0, 0.0, 0.0), v(x1, 1.0, 1.0)))
}

#[test]
fn a_split_is_taken_whenever_its_score_is_below_the_baseline() {
    // Nine solids, and along x a score of seven: seven is below 0.85 * 9 = 7.65.
    let mut shapes = vec![slab(0.0, 1.0), slab(0.0, 1.0)];
    for _ in 0..5 {
        shapes.push(slab(0.0, 10.0));
    }
    shapes.push(slab(9.0, 10.0));
    shapes.push(slab(9.0, 10.0));
    let tree = Tree::new(shapes);
    assert!(tree.root.axis == Axis::X);
    assert_eq!(f(tree.root.point), 5.0);
    assert!(tree.root.shapes.is_empty());
    assert_eq!(tree.root.left.as_ref().unwrap().shapes.len(), 7);
    assert_eq!(tree.root.right.as_ref().unwrap().shapes.len(), 7);
}

#[test]
fn a_split_is_not_taken_where_its_score_is_not_below_the_baseline() {
    // Twenty solids, and along x a score of seventeen: 0.85 * 20 is seventeen.
    let mut shapes = Vec::new();
    for _ in 0..3 {
        shapes.push(slab(0.0, 1.0));
    }
    for _ in 0..14 {
        shapes.push(slab(0.0, 10.0));
    }
    for _ in 0..3 {
        shapes.push(slab(9.0, 10.0));
    }
    let tree = Tree::new(shapes.clone());
    assert!(tree.root.axis == Axis::NoAxis);
    assert_eq!(tree.root.shapes.len(), 20);
    // With two of the wide solids made narrow the score is sixteen, and the node is split.
    shapes[3] = slab(0.0, 1.0);
    shapes[16] = slab(9.0, 10.0);
    let less = Tree::new(shapes);
    assert!(less.root.axis == Axis::X);
    assert_eq!(less.root.left.as_ref().unwrap().shapes.len(), 16);
    assert_eq!(less.root.right.as_ref().unwrap().shapes.len(), 16);
}

#[test]
fn fewer_than_eight_solids_stay_in_one_leaf() {
    let shapes: Vec<Arc<Cube>> = (0..7).map(|i| Arc::new(unit_cube_at(2.0 * i as f64, 0.0, 0.0))).collect();
    let tree = Tree::new(shapes);
    assert!(tree.root.axis == Axis::NoAxis);
    assert_eq!(tree.root.shapes.len(), 7);
    assert!(tree.root.left.is_none() && tree.root.right.is_none());
    assert_eq!(f(tree.root.point), 0.0);
}

#[test]
fn solids_on_one_spot_are_not_split() {
    let shapes: Vec<Arc<Cube>> = (0..20).map(|_| Arc::new(unit_cube_at(0.0, 0.0, 0.0))).collect();
    let tree = Tree::new(shapes);
    assert!(tree.root.axis == Axis::NoAxis);
    assert_eq!(tree.root.shapes.len(), 20);
}

#[test]
fn the_split_axis_is_the_one_with_the_best_score() {
    let along_y: Vec<Arc<Cube>> = (0..9).map(|i| Arc::new(unit_cube_at(0.0, 2.0 * i as f64, 0.0))).collect();
    assert!(Tree::new(along_y).root.axis == Axis::Y);
    let along_z: Vec<Arc<Cube>> = (0..9).map(|i| Arc::new(unit_cube_at(0.0, 0.0, 2.0 * i as f64))).collect();
    assert!(Tree::new(along_z).root.axis == Axis::Z);
    let diagonal: Vec<Arc<Cube>> =
        (0..9).map(|i| Arc::new(unit_cube_at(2.0 * i as f64, 2.0 * i as f64, 2.0 * i as f64))).collect();
    assert!(Tree::new(diagonal).root.axis == Axis::X);
}

#[test]
fn an_empty_index_never_hits() {
    let tree: Tree<Cube> = Tree::new(Vec::new());
    assert!(tree.root.axis == Axis::NoAxis);
    assert_eq!(xyz(tree.bx.min), (0.0, 0.0, 0.0));
    assert!(!tree.intersect(Ray::new(v(-1.0, 0.0, 0.0), v(1.0, 0.0, 0.0))).ok);
}

#[test]
fn split_leaves_a_small_leaf_and_an_inner_node_alone() {
    let mut leaf = Node::new((0..3).map(|i| Arc::new(unit_cube_at(i as f64, 0.0, 0.0))).collect());
    leaf.split(0);
    assert!(leaf.axis == Axis::NoAxis);
    assert_eq!(leaf.shapes.len(), 3);
    let mut node = Node::new((0..9).map(|i| Arc::new(unit_cube_at(2.0 * i as f64, 0.0, 0.0))).collect());
    node.split(0);
    assert!(node.axis == Axis::X);
    node.split(0);
    assert!(node.axis == Axis::X);
    assert_eq!(f(node.point), 8.0);
    assert_eq!(count_leaves_and_shapes(&node), (2, 10));
}

#[test]
fn every_node_is_a_leaf_or_has_two_children() {
    let mut rng = Lcg(5);
    let shapes: Vec<Arc<Cube>> = (0..200)
        .map(|_| Arc::new(unit_cube_at(rng.between(-20.0, 20.0), rng.between(-20.0, 20.0), rng.between(-5.0, 5.0))))
        .collect();
    let tree = Tree::new(shapes);
    let (leaves, held) = count_leaves_and_shapes(&tree.root);
    assert!(leaves > 1);
    assert!(held >= 200);
}

#[test]
fn box_for_shapes_is_the_union() {
    let shapes = vec![Arc::new(unit_cube_at(0.0, 0.0, 0.0)), Arc::new(unit_cube_at(3.0, -1.0, 2.0))];
    let b = box_for_arc_shapes(&shapes);
    assert_eq!(xyz(b.min), (-0.5, -1.5, -0.5));
    assert_eq!(xyz(b.max), (3.5, 0.5, 2.5));
    let none: Vec<Arc<Cube>> = Vec::new();
    assert_eq!(xyz(box_for_arc_shapes(&none).max), (0.0, 0.0, 0.0));
}

#[test]
fn the_index_agrees_with_asking_every_solid() {
    let mut rng = Lcg(1);
    let mut shapes: Vec<Arc<Solid>> = Vec::new();
    for i in 0..60 {
        let c = (rng.between(-10.0, 10.0), rng.between(-10.0, 10.0), rng.between(-10.0, 10.0));
        if i % 2 == 0 {
            let h = rng.between(0.2, 1.5);
            shapes.push(Arc::new(Solid::Cube(Cube::new(
                v(c.0 - h, c.1 - h, c.2 - h),
                v(c.0 + h, c.1 + h, c.2 + h),
            ))));
        } else {
            shapes.push(Arc::new(Solid::Sphere(Sphere::new(v(c.0, c.1, c.2), s(rng.between(0.2, 1.5))))));
        }
    }
    let tree = Tree::new(shapes.clone());
    assert!(tree.root.axis != Axis::NoAxis);
    let mut hits = 0;
    for _ in 0..400 {
        let origin = v(rng.between(-15.0, 15.0), rng.between(-15.0, 15.0), rng.between(-15.0, 15.0));
        let target = v(rng.between(-8.0, 8.0), rng.between(-8.0, 8.0), rng.between(-8.0, 8.0));
        let r = Ray::new(origin, target.sub(origin).normalize());
        let got = tree.intersect(r);
        let want = brute_force(&shapes, r);
        assert_eq!(got.ok, want.ok);
        if want.ok {
            hits += 1;
            assert!((f(got.t) - f(want.t)).abs() <= 1e-9, "{} against {}", f(got.t), f(want.t));
        } else {
            assert_eq!(f(got.t), f64::INFINITY);
        }
    }
    assert!(hits > 50);
}

#[test]
fn the_index_agrees_with_asking_every_solid_along_the_axes() {
    let mut rng = Lcg(2);
    let shapes: Vec<Arc<Solid>> = (0..40)
        .map(|_| {
            Arc::new(Solid::Cube(unit_cube_at(
                (rng.between(-8.0, 8.0)).round(),
                (rng.between(-8.0, 8.0)).round(),
                (rng.between(-8.0, 8.0)).round(),
            )))
        })
        .collect();
    let tree = Tree::new(shapes.clone());
    let directions =
        [(1.0, 0.0, 0.0), (-1.0, 0.0, 0.0), (0.0, 1.0, 0.0), (0.0, -1.0, 0.0), (0.0, 0.0, 1.0), (0.0, 0.0, -1.0)];
    for _ in 0..100 {
        let origin = v(rng.between(-12.0, 12.0), rng.between(-12.0, 12.0), rng.between(-12.0, 12.0));
        for d in directions.iter() {
            let r = Ray::new(origin, v(d.0, d.1, d.2));
            let got = tree.intersect(r);
            let want = brute_force(&shapes, r);
            assert_eq!(got.ok, want.ok);
            if want.ok {
                assert_eq!(f(got.t), f(want.t));
            }
        }
    }
}
