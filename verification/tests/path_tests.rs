use ln::path::{path_chop, path_filter, path_simplify, path_transform};
use ln::{Filter, Matrix, Paths, Scalar, Vector};

fn s(x: f64) -> Scalar {
    Scalar::from_bits(x.to_bits())
}

fn f(x: Scalar) -> f64 {
    f64::from_bits(x.to_bits())
}

fn v(x: f64, y: f64, z: f64) -> Vector {
    Vector::new(s(x), s(y), s(z))
}

fn xyz(p: Vector) -> (f64, f64, f64) {
    (f(p.x), f(p.y), f(p.z))
}

fn points(path: &Vec<Vector>) -> Vec<(f64, f64, f64)> {
    path.iter().map(|p| xyz(*p)).collect()
}

fn line(xs: &[f64]) -> Vec<Vector> {
    xs.iter().map(|x| v(*x, 0.0, 0.0)).collect()
}

/// Keeps the points whose x is not negative, and moves them up by one.
struct Lift;

impl Filter for Lift {
    fn filter(&self, p: Vector) -> Option<Vector> {
        if f(p.x) >= 0.0 {
            Some(v(f(p.x), f(p.y) + 1.0, f(p.z)))
        } else {
            None
        }
    }
}

/// A small deterministic generator for test data.
struct Lcg(u64);

impl Lcg {
    fn next(&mut self) -> f64 {
        self.0 = self.0.wrapping_mul(6364136223846793005).wrapping_add(1442695040888963407);
        ((self.0 >> 11) as f64) / ((1u64 << 53) as f64)
    }
}

#[test]
fn chop_inserts_points_every_step() {
    let path = vec![v(0.0, 0.0, 0.0), v(1.0, 0.0, 0.0)];
    let got = points(&path_chop(&path, s(0.25)));
    assert_eq!(
        got,
        vec![(0.0, 0.0, 0.0), (0.25, 0.0, 0.0), (0.5, 0.0, 0.0), (0.75, 0.0, 0.0), (1.0, 0.0, 0.0)]
    );
}

#[test]
fn chop_keeps_the_corners_of_a_longer_path() {
    let path = vec![v(0.0, 0.0, 0.0), v(1.0, 0.0, 0.0), v(1.0, 0.5, 0.0), v(1.0, 0.5, 2.0)];
    let got = points(&path_chop(&path, s(0.5)));
    assert_eq!(
        got,
        vec![
            (0.0, 0.0, 0.0),
            (0.5, 0.0, 0.0),
            (1.0, 0.0, 0.0),
            (1.0, 0.5, 0.0),
            (1.0, 0.5, 0.5),
            (1.0, 0.5, 1.0),
            (1.0, 0.5, 1.5),
            (1.0, 0.5, 2.0),
        ]
    );
}

#[test]
fn chop_leaves_short_segments_alone() {
    let path = vec![v(0.0, 0.0, 0.0), v(0.1, 0.0, 0.0), v(0.2, 0.0, 0.0)];
    assert_eq!(points(&path_chop(&path, s(0.5))), points(&path));
    assert_eq!(points(&path_chop(&path, s(0.1))), points(&path));
}

#[test]
fn chop_keeps_a_path_without_a_segment() {
    assert!(path_chop(&Vec::new(), s(0.5)).is_empty());
    assert_eq!(points(&path_chop(&vec![v(1.0, 2.0, 3.0)], s(0.5))), vec![(1.0, 2.0, 3.0)]);
    assert_eq!(points(&path_chop(&vec![v(1.0, 2.0, 3.0)], s(-1.0))), vec![(1.0, 2.0, 3.0)]);
}

#[test]
fn chop_stops_where_the_step_makes_no_progress() {
    let path = vec![v(0.0, 0.0, 0.0), v(1.0, 0.0, 0.0)];
    let zero = points(&path_chop(&path, s(0.0)));
    assert_eq!(zero, vec![(0.0, 0.0, 0.0), (0.0, 0.0, 0.0), (1.0, 0.0, 0.0)]);
    let negative = points(&path_chop(&path, s(-0.5)));
    assert_eq!(negative, vec![(0.0, 0.0, 0.0), (-0.5, 0.0, 0.0), (1.0, 0.0, 0.0)]);
    let nan = points(&path_chop(&path, s(f64::NAN)));
    assert_eq!(nan, vec![(0.0, 0.0, 0.0), (1.0, 0.0, 0.0)]);
    let endless = points(&path_chop(&path, s(f64::INFINITY)));
    assert_eq!(endless, vec![(0.0, 0.0, 0.0), (1.0, 0.0, 0.0)]);
}

#[test]
fn chop_never_removes_a_vertex_and_never_leaves_a_gap_above_the_step() {
    let mut rng = Lcg(7);
    for round in 0..20 {
        let n = round % 6;
        let path: Vec<Vector> =
            (0..n).map(|_| v(rng.next() * 4.0 - 2.0, rng.next() * 4.0 - 2.0, rng.next())).collect();
        let step = 0.05 + rng.next() * 0.5;
        let chopped = path_chop(&path, s(step));
        let mut at = 0;
        for p in path.iter() {
            while at < chopped.len() && xyz(chopped[at]) != xyz(*p) {
                at += 1;
            }
            assert!(at < chopped.len(), "vertex lost");
            at += 1;
        }
        for pair in chopped.windows(2) {
            let gap = f(pair[0].distance(pair[1]));
            assert!(gap <= step + 1e-9, "gap {} above step {}", gap, step);
        }
    }
}

#[test]
fn filter_cuts_a_path_at_every_dropped_point() {
    let path = line(&[1.0, 2.0, -1.0, 3.0, 4.0, 5.0, -2.0, -3.0, 6.0, 7.0]);
    let got: Vec<Vec<(f64, f64, f64)>> = path_filter(&path, &Lift).iter().map(points).collect();
    assert_eq!(
        got,
        vec![
            vec![(1.0, 1.0, 0.0), (2.0, 1.0, 0.0)],
            vec![(3.0, 1.0, 0.0), (4.0, 1.0, 0.0), (5.0, 1.0, 0.0)],
            vec![(6.0, 1.0, 0.0), (7.0, 1.0, 0.0)],
        ]
    );
}

#[test]
fn filter_drops_runs_of_one_point() {
    let path = line(&[1.0, -1.0, 2.0, -1.0, 3.0, 4.0, -1.0, 5.0]);
    let got: Vec<Vec<(f64, f64, f64)>> = path_filter(&path, &Lift).iter().map(points).collect();
    assert_eq!(got, vec![vec![(3.0, 1.0, 0.0), (4.0, 1.0, 0.0)]]);
    assert!(path_filter(&line(&[1.0]), &Lift).is_empty());
    assert!(path_filter(&line(&[-1.0, 1.0, -1.0]), &Lift).is_empty());
    assert!(path_filter(&line(&[]), &Lift).is_empty());
    assert!(path_filter(&line(&[-1.0, -2.0]), &Lift).is_empty());
}

#[test]
fn filter_never_emits_a_path_of_fewer_than_two_points() {
    let mut rng = Lcg(11);
    for _ in 0..50 {
        let n = (rng.next() * 12.0) as usize;
        let path: Vec<Vector> = (0..n).map(|_| v(rng.next() - 0.4, 0.0, 0.0)).collect();
        let kept = path.iter().filter(|p| f(p.x) >= 0.0).count();
        let runs = path_filter(&path, &Lift);
        let mut total = 0;
        for run in runs.iter() {
            assert!(run.len() >= 2);
            total += run.len();
        }
        assert!(total <= kept);
    }
}

#[test]
fn filter_keeps_the_order_of_the_paths() {
    let paths = Paths::from_vec(vec![
        line(&[1.0, 2.0]),
        line(&[-1.0, -1.0]),
        line(&[3.0, 4.0, -1.0, 5.0, 6.0]),
    ]);
    let got: Vec<Vec<(f64, f64, f64)>> = paths.filter(&Lift).paths.iter().map(points).collect();
    assert_eq!(
        got,
        vec![
            vec![(1.0, 1.0, 0.0), (2.0, 1.0, 0.0)],
            vec![(3.0, 1.0, 0.0), (4.0, 1.0, 0.0)],
            vec![(5.0, 1.0, 0.0), (6.0, 1.0, 0.0)],
        ]
    );
}

#[test]
fn simplify_collapses_a_straight_path_to_its_ends() {
    let path = line(&[0.0, 1.0, 2.0, 3.0, 10.0]);
    assert_eq!(points(&path_simplify(&path, s(1e-6))), vec![(0.0, 0.0, 0.0), (10.0, 0.0, 0.0)]);
}

#[test]
fn simplify_keeps_the_corners() {
    let path = vec![
        v(0.0, 0.0, 0.0),
        v(1.0, 0.0, 0.0),
        v(2.0, 0.0, 0.0),
        v(2.0, 1.0, 0.0),
        v(2.0, 2.0, 0.0),
        v(3.0, 2.0, 0.0),
    ];
    assert_eq!(
        points(&path_simplify(&path, s(1e-6))),
        vec![(0.0, 0.0, 0.0), (2.0, 0.0, 0.0), (2.0, 2.0, 0.0), (3.0, 2.0, 0.0)]
    );
    assert_eq!(points(&path_simplify(&path, s(5.0))), vec![(0.0, 0.0, 0.0), (3.0, 2.0, 0.0)]);
}

#[test]
fn simplify_splits_at_the_first_of_equally_far_points() {
    let path = vec![v(0.0, 0.0, 0.0), v(1.0, 1.0, 0.0), v(2.0, 0.5, 0.0), v(3.0, 1.0, 0.0), v(4.0, 0.0, 0.0)];
    assert_eq!(
        points(&path_simplify(&path, s(0.6))),
        vec![(0.0, 0.0, 0.0), (1.0, 1.0, 0.0), (3.0, 1.0, 0.0), (4.0, 0.0, 0.0)]
    );
}

#[test]
fn simplify_keeps_short_paths() {
    assert!(path_simplify(&Vec::new(), s(1.0)).is_empty());
    let one = vec![v(1.0, 2.0, 3.0)];
    assert_eq!(points(&path_simplify(&one, s(1.0))), points(&one));
    let two = vec![v(1.0, 2.0, 3.0), v(1.0, 2.0, 3.0)];
    assert_eq!(points(&path_simplify(&two, s(1.0))), points(&two));
}

#[test]
fn simplify_with_a_negative_threshold_terminates() {
    let path = line(&[0.0, 1.0, 2.0, 3.0]);
    assert_eq!(points(&path_simplify(&path, s(-1.0))), vec![(0.0, 0.0, 0.0), (3.0, 0.0, 0.0)]);
    let bent = vec![v(0.0, 0.0, 0.0), v(1.0, 1e-9, 0.0), v(2.0, 0.0, 0.0)];
    assert_eq!(points(&path_simplify(&bent, s(-1.0))), points(&bent));
    assert_eq!(
        points(&path_simplify(&bent, s(f64::NAN))),
        vec![(0.0, 0.0, 0.0), (2.0, 0.0, 0.0)]
    );
}

#[test]
fn simplify_is_idempotent() {
    let mut rng = Lcg(3);
    for round in 0..40 {
        let n = 1 + (round % 17);
        let path: Vec<Vector> =
            (0..n).map(|i| v(i as f64 * 0.3, rng.next() * 0.2, rng.next() * 0.1)).collect();
        for &t in &[0.0, 1e-6, 0.01, 0.05, 0.1, 1.0] {
            let once = path_simplify(&path, s(t));
            let twice = path_simplify(&once, s(t));
            assert_eq!(points(&twice), points(&once));
            assert!(once.len() <= path.len());
            if n >= 2 {
                assert_eq!(xyz(once[0]), xyz(path[0]));
                assert_eq!(xyz(once[once.len() - 1]), xyz(path[n - 1]));
            }
        }
    }
    let paths = Paths::from_vec(vec![line(&[0.0, 1.0, 2.0]), vec![v(0.0, 0.0, 0.0), v(1.0, 1.0, 0.0), v(2.0, 0.0, 0.0)]]);
    let once = paths.simplify(s(0.1));
    let twice = once.simplify(s(0.1));
    assert_eq!(once.paths.len(), 2);
    assert_eq!(points(&once.paths[0]), vec![(0.0, 0.0, 0.0), (2.0, 0.0, 0.0)]);
    assert_eq!(once.paths[1].len(), 3);
    for (a, b) in once.paths.iter().zip(twice.paths.iter()) {
        assert_eq!(points(a), points(b));
    }
}

#[test]
fn transform_maps_every_point() {
    let m = Matrix::translate(v(1.0, 2.0, 3.0));
    let path = vec![v(0.0, 0.0, 0.0), v(1.0, 1.0, 1.0)];
    assert_eq!(points(&path_transform(&path, &m)), vec![(1.0, 2.0, 3.0), (2.0, 3.0, 4.0)]);
    let paths = Paths::from_vec(vec![path.clone(), Vec::new(), vec![v(5.0, 5.0, 5.0)]]);
    let moved = paths.transform(&m);
    assert_eq!(moved.paths.len(), 3);
    assert_eq!(points(&moved.paths[0]), vec![(1.0, 2.0, 3.0), (2.0, 3.0, 4.0)]);
    assert!(moved.paths[1].is_empty());
    assert_eq!(points(&moved.paths[2]), vec![(6.0, 7.0, 8.0)]);
    assert_eq!(points(&paths.paths[0]), points(&path));
}

#[test]
fn chop_of_a_collection_chops_each_path() {
    let paths = Paths::from_vec(vec![line(&[0.0, 1.0]), line(&[5.0]), line(&[0.0, 0.5, 1.5])]);
    let got = paths.chop(s(0.5));
    assert_eq!(got.paths.len(), 3);
    assert_eq!(points(&got.paths[0]), points(&line(&[0.0, 0.5, 1.0])));
    assert_eq!(points(&got.paths[1]), points(&line(&[5.0])));
    assert_eq!(points(&got.paths[2]), points(&line(&[0.0, 0.5, 1.0, 1.5])));
}

#[test]
fn push_and_extend_append_in_order() {
    let mut paths = Paths::new();
    assert!(paths.paths.is_empty());
    paths.push(line(&[1.0, 2.0]));
    paths.push(line(&[3.0]));
    let mut more = Paths::default();
    more.push(line(&[4.0, 5.0, 6.0]));
    more.push(line(&[]));
    paths.extend(more);
    let lens: Vec<usize> = paths.paths.iter().map(|p| p.len()).collect();
    assert_eq!(lens, vec![2, 1, 3, 0]);
    assert_eq!(f(paths.paths[2][1].x), 5.0);
}

#[test]
fn bounding_box_spans_all_paths() {
    let paths = Paths::from_vec(vec![
        vec![v(0.0, 1.0, 2.0), v(3.0, -1.0, 2.5)],
        vec![v(-4.0, 0.0, 9.0)],
    ]);
    let b = paths.bounding_box();
    assert_eq!(xyz(b.min), (-4.0, -1.0, 2.0));
    assert_eq!(xyz(b.max), (3.0, 1.0, 9.0));
    let none = Paths::new().bounding_box();
    assert_eq!(xyz(none.min), (0.0, 0.0, 0.0));
    assert_eq!(xyz(none.max), (0.0, 0.0, 0.0));
    let with_empty = Paths::from_vec(vec![vec![v(1.0, 1.0, 1.0)], Vec::new()]).bounding_box();
    assert_eq!(xyz(with_empty.min), (0.0, 0.0, 0.0));
    assert_eq!(xyz(with_empty.max), (1.0, 1.0, 1.0));
}
