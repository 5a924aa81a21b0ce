use ln::{Box, ClipFilter, Cube, Filter, Hit, Matrix, Paths, Ray, Scalar, Scene, Shape, Sphere, Vector};
use std::sync::Arc;

fn s(x: f64) -> Scalar {
    Scalar::from_bits(x.to_bits())
}

fn f(x: Scalar) -> f64 {
    f64::from_bits(x.to_bits())
}

fn v(x: f64, y: f64, z: f64) -> Vector {
    Vector::new(s(x), s(y), s(z))
}

fn xyz(p: Vector) -> (f64, f64, f64) {
    (f(p.x), f(p.y), f(p.z))
}

/// A sphere whose only curve is its outline as seen from `eye`; without
/// `drawn` it has no curve and only hides what lies behind it.
struct Outline {
    sphere: Sphere,
    center: (f64, f64, f64),
    radius: f64,
    eye: (f64, f64, f64),
    up: (f64, f64, f64),
    drawn: bool,
}

fn outline(center: (f64, f64, f64), radius: f64, eye: (f64, f64, f64), drawn: bool) -> Outline {
    Outline {
        sphere: Sphere::new(v(center.0, center.1, center.2), s(radius)),
        center,
        radius,
        eye,
        up: (0.0, 0.0, 1.0),
        drawn,
    }
}

fn sub(a: (f64, f64, f64), b: (f64, f64, f64)) -> (f64, f64, f64) {
    (a.0 - b.0, a.1 - b.1, a.2 - b.2)
}

fn cross(a: (f64, f64, f64), b: (f64, f64, f64)) -> (f64, f64, f64) {
    (a.1 * b.2 - a.2 * b.1, a.2 * b.0 - a.0 * b.2, a.0 * b.1 - a.1 * b.0)
}

fn unit(a: (f64, f64, f64)) -> (f64, f64, f64) {
    let l = (a.0 * a.0 + a.1 * a.1 + a.2 * a.2).sqrt();
    (a.0 / l, a.1 / l, a.2 / l)
}

impl Shape for Outline {
    fn bounding_box(&self) -> Box {
        self.sphere.bounding_box()
    }

    fn contains(&self, p: Vector, fuzz: Scalar) -> bool {
        self.sphere.contains(p, fuzz)
    }

    fn intersect(&self, r: Ray) -> Hit {
        self.sphere.intersect(r)
    }

    fn paths(&self) -> Paths {
        if !self.drawn {
            return Paths::new();
        }
        let to = sub(self.center, self.eye);
        let hyp = (to.0 * to.0 + to.1 * to.1 + to.2 * to.2).sqrt();
        let theta = (self.radius / hyp).asin();
        let adj = self.radius / theta.tan();
        let d = theta.cos() * adj;
        let r = theta.sin() * adj;
        let w = unit(to);
        let u = unit(cross(w, self.up));
        let n = unit(cross(w, u));
        let c = (self.eye.0 + w.0 * d, self.eye.1 + w.1 * d, self.eye.2 + w.2 * d);
        let mut path = Vec::new();
        for i in 0..=360 {
            let a = (i as f64).to_radians();
            path.push(v(
                c.0 + u.0 * a.cos() * r + n.0 * a.sin() * r,
                c.1 + u.1 * a.cos() * r + n.1 * a.sin() * r,
                c.2 + u.2 * a.cos() * r + n.2 * a.sin() * r,
            ));
        }
        Paths::from_vec(vec![path])
    }
}

fn count_points(paths: &Paths) -> usize {
    paths.paths.iter().map(|p| p.len()).sum()
}

const EYE: (f64, f64, f64) = (0.0, -20.0, 0.0);

fn render(scene: &mut Scene<Outline>, step: f64) -> Paths {
    scene.render(
        v(EYE.0, EYE.1, EYE.2),
        v(0.0, 0.0, 0.0),
        v(0.0, 0.0, 1.0),
        s(800.0),
        s(800.0),
        s(35.0),
        s(0.1),
        s(100.0),
        s(step),
    )
}

#[test]
fn disjoint_spheres_give_disjoint_loops() {
    let mut scene = Scene::new();
    scene.add(outline((-2.5, 0.0, 0.0), 1.0, EYE, true));
    scene.add(outline((2.5, 0.0, 0.0), 1.0, EYE, true));
    let paths = render(&mut scene, 0.01);
    assert!(!paths.paths.is_empty());
    let mut left = (f64::INFINITY, f64::NEG_INFINITY, 0usize);
    let mut right = (f64::INFINITY, f64::NEG_INFINITY, 0usize);
    for path in paths.paths.iter() {
        assert!(path.len() >= 2);
        let on_left = f(path[0].x) < 400.0;
        for p in path.iter() {
            let x = f(p.x);
            assert_eq!(x < 400.0, on_left, "a path crosses from one sphere to the other");
            assert!(x >= 0.0 && x <= 800.0 && f(p.y) >= 0.0 && f(p.y) <= 800.0);
            let side = if on_left { &mut left } else { &mut right };
            side.0 = side.0.min(x);
            side.1 = side.1.max(x);
            side.2 += 1;
        }
    }
    assert!(left.2 > 10 && right.2 > 10);
    assert!(left.1 < right.0, "the loops overlap");
    // Each loop is as wide as a unit sphere at that distance, and the two mirror each other.
    assert!((left.1 - left.0) > 100.0 && (left.1 - left.0) < 140.0);
    assert!(((left.1 - left.0) - (right.1 - right.0)).abs() < 1e-6);
    assert!(((400.0 - left.1) - (right.0 - 400.0)).abs() < 1e-6);
}

#[test]
fn a_sphere_behind_another_loses_points() {
    let far = (0.0, 1.5, 0.0);
    let mut both = Scene::new();
    both.add(outline(far, 1.0, EYE, true));
    both.add(outline((0.0, 0.0, 0.0), 1.0, EYE, false));
    let hidden = count_points(&render(&mut both, 0.0));

    let mut alone = Scene::new();
    alone.add(outline(far, 1.0, EYE, true));
    let seen = count_points(&render(&mut alone, 0.0));

    assert_eq!(seen, 361);
    assert!(hidden < seen);
    assert_eq!(hidden, 0);
}

#[test]
fn a_sphere_half_behind_another_keeps_the_other_half() {
    let far = (1.0, 1.5, 0.0);
    let mut both = Scene::new();
    both.add(outline(far, 1.0, EYE, true));
    both.add(outline((0.0, 0.0, 0.0), 1.0, EYE, false));
    let hidden = render(&mut both, 0.0);
    let kept = count_points(&hidden);
    assert!(kept > 100 && kept < 361, "{} points kept", kept);
    for path in hidden.paths.iter() {
        for p in path.iter() {
            assert!(f(p.x) > 400.0);
        }
    }
}

#[test]
fn a_step_of_zero_or_less_tests_only_the_given_points() {
    let mut scene = Scene::new();
    scene.add(Cube::new(v(-1.0, -1.0, -1.0), v(1.0, 1.0, 1.0)));
    let eye = v(4.0, 3.0, 2.0);
    let coarse = scene.render(eye, v(0.0, 0.0, 0.0), v(0.0, 0.0, 1.0), s(100.0), s(100.0), s(50.0), s(0.1), s(10.0), s(0.0));
    let negative = scene.render(eye, v(0.0, 0.0, 0.0), v(0.0, 0.0, 1.0), s(100.0), s(100.0), s(50.0), s(0.1), s(10.0), s(-1.0));
    for paths in [&coarse, &negative] {
        // Nine of the twelve edges of a cube are seen from a corner.
        assert_eq!(paths.paths.len(), 9);
        for path in paths.paths.iter() {
            assert_eq!(path.len(), 2);
        }
    }
    let fine = scene.render(eye, v(0.0, 0.0, 0.0), v(0.0, 0.0, 1.0), s(100.0), s(100.0), s(50.0), s(0.1), s(10.0), s(0.1));
    assert_eq!(fine.paths.len(), 9);
    for (a, b) in fine.paths.iter().zip(coarse.paths.iter()) {
        assert_eq!(a.len(), 2);
        let (p, q) = (xyz(a[0]), xyz(b[0]));
        assert!((p.0 - q.0).abs() < 1e-9 && (p.1 - q.1).abs() < 1e-9);
    }
}

#[test]
fn render_maps_the_clip_square_to_pixels() {
    let mut scene = Scene::new();
    scene.add(Cube::new(v(-1.0, -1.0, -1.0), v(1.0, 1.0, 1.0)));
    let paths = scene.render_with_matrix(Matrix::scale(v(0.5, 0.25, 0.5)), v(10.0, 0.0, 0.0), s(200.0), s(100.0), s(0.0));
    assert!(!paths.paths.is_empty());
    for path in paths.paths.iter() {
        for p in path.iter() {
            // x in [-0.5, 0.5] maps to [50, 150]; y in [-0.25, 0.25] maps to [37.5, 62.5].
            assert!(f(p.x) == 50.0 || f(p.x) == 150.0);
            assert!(f(p.y) == 37.5 || f(p.y) == 62.5);
            assert_eq!(f(p.z), 0.0);
        }
    }
}

#[test]
fn points_outside_the_clip_cube_are_cut_away() {
    let mut scene = Scene::new();
    scene.add(Cube::new(v(-1.0, -1.0, -1.0), v(1.0, 1.0, 1.0)));
    let shifted = Matrix::scale(v(0.5, 0.5, 0.5)).translated(v(0.75, 0.0, 0.0));
    let paths = scene.render_with_matrix(shifted, v(-10.0, 0.0, 0.0), s(200.0), s(200.0), s(0.0));
    // Only the face at x = -1 stays inside; its four edges are drawn.
    assert_eq!(paths.paths.len(), 4);
    for path in paths.paths.iter() {
        for p in path.iter() {
            assert_eq!(f(p.x), 125.0);
        }
    }
}

#[test]
fn compile_builds_the_index_once() {
    let mut scene = Scene::new();
    assert!(scene.tree.is_none());
    assert!(!scene.intersect(Ray::new(v(-5.0, 0.0, 0.0), v(1.0, 0.0, 0.0))).ok);
    scene.add(Cube::new(v(-1.0, -1.0, -1.0), v(1.0, 1.0, 1.0)));
    assert!(!scene.intersect(Ray::new(v(-5.0, 0.0, 0.0), v(1.0, 0.0, 0.0))).ok);
    scene.compile();
    assert!(scene.tree.is_some());
    assert_eq!(f(scene.intersect(Ray::new(v(-5.0, 0.0, 0.0), v(1.0, 0.0, 0.0))).t), 4.0);
    scene.add_arc(Arc::new(Cube::new(v(-3.0, -1.0, -1.0), v(-2.0, 1.0, 1.0))));
    scene.compile();
    assert_eq!(scene.shapes.len(), 2);
    assert_eq!(scene.tree.as_ref().unwrap().root.shapes.len(), 1);
    // The solid added after compiling is drawn but hides nothing.
    assert_eq!(f(scene.intersect(Ray::new(v(-5.0, 0.0, 0.0), v(1.0, 0.0, 0.0))).t), 4.0);
    assert_eq!(scene.paths().paths.len(), 24);
    scene.tree = None;
    scene.compile();
    assert_eq!(f(scene.intersect(Ray::new(v(-5.0, 0.0, 0.0), v(1.0, 0.0, 0.0))).t), 2.0);
}

#[test]
fn visible_asks_for_nothing_in_between() {
    let mut scene = Scene::default();
    scene.add(Cube::new(v(-1.0, -1.0, -1.0), v(1.0, 1.0, 1.0)));
    scene.compile();
    let eye = v(10.0, 0.0, 0.0);
    assert!(scene.visible(eye, v(1.0, 0.5, 0.5)));
    assert!(scene.visible(eye, v(5.0, 0.0, 0.0)));
    assert!(!scene.visible(eye, v(-1.0, 0.5, 0.5)));
    assert!(!scene.visible(eye, v(-5.0, 0.0, 0.0)));
    assert!(scene.visible(eye, v(-5.0, 3.0, 0.0)));
}

#[test]
fn a_sample_that_is_not_a_number_is_not_visible() {
    let mut scene = Scene::new();
    scene.add(Cube::new(v(-1.0, -1.0, -1.0), v(1.0, 1.0, 1.0)));
    scene.compile();
    let eye = v(10.0, 0.0, 0.0);
    assert!(!scene.visible(eye, v(f64::NAN, 0.0, 0.0)));
    assert!(!scene.visible(v(0.0, f64::NAN, 0.0), v(5.0, 0.0, 0.0)));
    assert!(!scene.visible(eye, v(f64::INFINITY, 0.0, 0.0)));
    assert!(!scene.visible(v(0.0, 0.0, f64::NEG_INFINITY), v(5.0, 0.0, 0.0)));
}

#[test]
fn a_sample_at_the_eye_is_not_visible() {
    let eye = v(10.0, 0.0, 0.0);
    // The direction from the eye to itself is zero divided by zero.
    let direction = eye.sub(eye).normalize();
    assert!(direction.has_nan());
    assert!(!v(1.0, 0.0, 0.0).has_nan());

    let mut empty: Scene<Cube> = Scene::new();
    assert!(!empty.visible(eye, eye));
    empty.compile();
    assert!(!empty.visible(eye, eye));
    assert!(empty.visible(eye, v(1.0, 2.0, 3.0)));

    let mut scene = Scene::new();
    scene.add(Cube::new(v(-1.0, -1.0, -1.0), v(1.0, 1.0, 1.0)));
    scene.compile();
    assert!(!scene.visible(eye, eye));
    assert!(!scene.visible(v(0.0, 0.0, 0.0), v(0.0, 0.0, 0.0)));
    assert!(!scene.visible(v(0.0, 0.0, 0.0), v(-0.0, 0.0, -0.0)));
    let camera = Matrix::look_at(eye, v(0.0, 0.0, 0.0), v(0.0, 0.0, 1.0)).with_perspective(s(50.0), s(1.0), s(0.1), s(100.0));
    let filter = ClipFilter { matrix: camera, eye, scene: &scene };
    assert!(filter.filter(eye).is_none());
    assert!(filter.filter(v(1.0, 0.0, 0.0)).is_some());
    let plain = ClipFilter { matrix: Matrix::scale(v(0.05, 0.05, 0.05)), eye, scene: &scene };
    assert!(plain.filter(eye).is_none());
    assert!(plain.filter(v(9.0, 0.0, 0.0)).is_some());
}

#[test]
fn the_clip_filter_hands_on_the_projected_point() {
    let mut scene = Scene::new();
    scene.add(Cube::new(v(-1.0, -1.0, -1.0), v(1.0, 1.0, 1.0)));
    scene.compile();
    let filter = ClipFilter { matrix: Matrix::scale(v(0.5, 0.5, 0.5)), eye: v(10.0, 0.0, 0.0), scene: &scene };
    assert_eq!(filter.filter(v(1.0, 1.0, -1.0)).map(xyz), Some((0.5, 0.5, -0.5)));
    assert!(filter.filter(v(-1.0, 0.5, 0.5)).is_none());
    assert!(filter.filter(v(3.0, 0.0, 0.0)).is_none());
    assert_eq!(filter.filter(v(2.0, 0.0, 0.0)).map(xyz), Some((1.0, 0.0, 0.0)));
}

#[test]
fn paths_follow_the_order_of_the_solids() {
    let mut scene = Scene::new();
    scene.add(Cube::new(v(0.0, 0.0, 0.0), v(1.0, 1.0, 1.0)));
    scene.add(Cube::new(v(5.0, 5.0, 5.0), v(6.0, 6.0, 6.0)));
    let paths = scene.paths();
    assert_eq!(paths.paths.len(), 24);
    assert_eq!(xyz(paths.paths[0][0]), (0.0, 0.0, 0.0));
    assert_eq!(xyz(paths.paths[11][1]), (1.0, 1.0, 1.0));
    assert_eq!(xyz(paths.paths[12][0]), (5.0, 5.0, 5.0));
    assert_eq!(xyz(paths.paths[23][1]), (6.0, 6.0, 6.0));
}
