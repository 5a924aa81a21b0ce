use ln::obj::{parse_obj, ObjError};
use ln::stl::{encode_binary_stl, parse_binary_stl, parse_stl, StlError};
use ln::{Box, Cone, Cylinder, Direction, FunctionTexture, Matrix, Mesh, Plane, Ray, Scalar, Shape, Triangle, Vector};

fn s(x: f64) -> Scalar {
    Scalar::from_bits(x.to_bits())
}

fn f(x: Scalar) -> f64 {
    f64::from_bits(x.to_bits())
}

fn v(x: f64, y: f64, z: f64) -> Vector {
    Vector::new(s(x), s(y), s(z))
}

fn xyz(p: Vector) -> (f64, f64, f64) {
    (f(p.x), f(p.y), f(p.z))
}

fn corners(t: &Triangle) -> [(f64, f64, f64); 3] {
    [xyz(t.v1), xyz(t.v2), xyz(t.v3)]
}

fn square() -> Mesh {
    Mesh::new(vec![
        Triangle::new(v(0.0, 0.0, 0.0), v(2.0, 0.0, 0.0), v(2.0, 2.0, 0.0)),
        Triangle::new(v(0.0, 0.0, 0.0), v(2.0, 2.0, 0.0), v(0.0, 2.0, 0.0)),
    ])
}

#[test]
fn triangle_has_the_box_around_its_corners() {
    let mut t = Triangle::new(v(0.0, 1.0, 2.0), v(3.0, -1.0, 2.5), v(1.0, 0.0, -4.0));
    assert_eq!(xyz(t.bx.min), (0.0, -1.0, -4.0));
    assert_eq!(xyz(t.bx.max), (3.0, 1.0, 2.5));
    t.v1 = v(10.0, 10.0, 10.0);
    assert_eq!(xyz(t.bounding_box().max), (3.0, 1.0, 2.5));
    t.update_bounding_box();
    assert_eq!(xyz(t.bounding_box().min), (1.0, -1.0, -4.0));
    assert_eq!(xyz(t.bounding_box().max), (10.0, 10.0, 10.0));
    assert!(!t.contains(v(1.0, 0.0, 0.0), s(100.0)));
}

#[test]
fn triangle_intersect_hits_inside_only() {
    let t = Triangle::new(v(0.0, 0.0, 0.0), v(4.0, 0.0, 0.0), v(0.0, 4.0, 0.0));
    let down = v(0.0, 0.0, -1.0);
    let h = t.intersect(Ray::new(v(1.0, 1.0, 5.0), down));
    assert!(h.ok);
    assert_eq!(f(h.t), 5.0);
    assert!(!t.intersect(Ray::new(v(3.0, 3.0, 5.0), down)).ok);
    assert!(!t.intersect(Ray::new(v(-1.0, 1.0, 5.0), down)).ok);
    assert!(!t.intersect(Ray::new(v(1.0, 1.0, -5.0), down)).ok);
    assert!(!t.intersect(Ray::new(v(1.0, 1.0, 5.0), v(1.0, 0.0, 0.0))).ok);
    let up = t.intersect(Ray::new(v(1.0, 1.0, -2.0), v(0.0, 0.0, 1.0)));
    assert_eq!(f(up.t), 2.0);
    let paths = t.paths();
    assert_eq!(paths.paths.len(), 3);
    assert_eq!(xyz(paths.paths[2][0]), (0.0, 4.0, 0.0));
    assert_eq!(xyz(paths.paths[2][1]), (0.0, 0.0, 0.0));
}

#[test]
fn mesh_is_hit_only_once_compiled() {
    let mut mesh = square();
    assert_eq!(xyz(mesh.bounding_box().min), (0.0, 0.0, 0.0));
    assert_eq!(xyz(mesh.bounding_box().max), (2.0, 2.0, 0.0));
    let r = Ray::new(v(0.5, 1.5, 3.0), v(0.0, 0.0, -1.0));
    assert!(!mesh.intersect(r).ok);
    mesh.compile();
    assert!(mesh.tree.is_some());
    let h = mesh.intersect(r);
    assert!(h.ok);
    assert_eq!(f(h.t), 3.0);
    assert!(!mesh.intersect(Ray::new(v(5.0, 1.5, 3.0), v(0.0, 0.0, -1.0))).ok);
    assert!(!mesh.contains(v(1.0, 1.0, 0.0), s(1.0)));
    assert_eq!(mesh.paths().paths.len(), 6);
    mesh.transform(&Matrix::translate(v(10.0, 0.0, 0.0)));
    assert!(mesh.tree.is_none());
    assert!(!mesh.intersect(Ray::new(v(10.5, 1.5, 3.0), v(0.0, 0.0, -1.0))).ok);
    mesh.compile();
    assert_eq!(f(mesh.intersect(Ray::new(v(10.5, 1.5, 3.0), v(0.0, 0.0, -1.0))).t), 3.0);
}

#[test]
fn mesh_transform_moves_triangles_and_box() {
    let mut mesh = square();
    mesh.transform(&Matrix::scale(v(2.0, 1.0, 1.0)).translated(v(0.0, 0.0, 5.0)));
    assert_eq!(corners(&mesh.triangles[0]), [(0.0, 0.0, 5.0), (4.0, 0.0, 5.0), (4.0, 2.0, 5.0)]);
    assert_eq!(xyz(mesh.triangles[1].bx.max), (4.0, 2.0, 5.0));
    assert_eq!(xyz(mesh.bx.min), (0.0, 0.0, 5.0));
    assert_eq!(xyz(mesh.bx.max), (4.0, 2.0, 5.0));
    mesh.triangles.pop();
    mesh.update_bounding_box();
    assert_eq!(xyz(mesh.bx.max), (4.0, 2.0, 5.0));
}

#[test]
fn mesh_moves_and_fits() {
    let mut mesh = Mesh::new(vec![Triangle::new(v(1.0, 1.0, 1.0), v(5.0, 1.0, 1.0), v(1.0, 3.0, 2.0))]);
    mesh.move_to(v(0.0, 0.0, 0.0), v(0.0, 0.0, 0.0));
    assert_eq!(xyz(mesh.bx.min), (0.0, 0.0, 0.0));
    assert_eq!(xyz(mesh.bx.max), (4.0, 2.0, 1.0));
    mesh.move_to(v(10.0, 10.0, 10.0), v(0.5, 0.5, 0.5));
    assert_eq!(xyz(mesh.bx.min), (8.0, 9.0, 9.5));
    mesh.fit_inside(Box::new(v(0.0, 0.0, 0.0), v(2.0, 2.0, 2.0)), v(0.5, 0.5, 0.5));
    assert_eq!(xyz(mesh.bx.min), (0.0, 0.5, 0.75));
    assert_eq!(xyz(mesh.bx.max), (2.0, 1.5, 1.25));
    mesh.unit_cube();
    assert_eq!(xyz(mesh.bx.min), (-0.5, -0.25, -0.125));
    assert_eq!(xyz(mesh.bx.max), (0.5, 0.25, 0.125));
}

#[test]
fn boxes_for_triangles_and_shapes() {
    let a = Triangle::new(v(0.0, 0.0, 0.0), v(1.0, 0.0, 0.0), v(0.0, 1.0, 0.0));
    let b = Triangle::new(v(0.0, 0.0, -3.0), v(1.0, 5.0, 0.0), v(0.0, 1.0, 0.0));
    let both = Box::for_triangles(&[a, b]);
    assert_eq!(xyz(both.min), (0.0, 0.0, -3.0));
    assert_eq!(xyz(both.max), (1.0, 5.0, 0.0));
    assert_eq!(xyz(Box::for_triangles(&[]).max), (0.0, 0.0, 0.0));
    let shapes = Box::for_shapes(&[&a, &b]);
    assert_eq!(xyz(shapes.min), (0.0, 0.0, -3.0));
    assert_eq!(xyz(shapes.max), (1.0, 5.0, 0.0));
    let none: [&Triangle; 0] = [];
    assert_eq!(xyz(Box::for_shapes(&none).min), (0.0, 0.0, 0.0));
}

#[test]
fn plane_cuts_segments_triangles_and_meshes() {
    let p = Plane::new(v(0.0, 0.0, 1.0), v(0.0, 0.0, 1.0));
    assert_eq!(p.intersect_segment(v(0.0, 0.0, 0.0), v(2.0, 4.0, 2.0)).map(xyz), Some((1.0, 2.0, 1.0)));
    assert_eq!(p.intersect_segment(v(0.0, 0.0, 1.0), v(0.0, 0.0, 3.0)).map(xyz), Some((0.0, 0.0, 1.0)));
    assert!(p.intersect_segment(v(0.0, 0.0, 2.0), v(0.0, 0.0, 3.0)).is_none());
    assert!(p.intersect_segment(v(0.0, 0.0, 1.0), v(5.0, 0.0, 1.0)).is_none());
    let t = Triangle::new(v(0.0, 0.0, 0.0), v(4.0, 0.0, 2.0), v(0.0, 4.0, 2.0));
    let cut = p.intersect_triangle(&t).unwrap();
    assert_eq!((xyz(cut.0), xyz(cut.1)), ((2.0, 0.0, 1.0), (0.0, 2.0, 1.0)));
    let above = Triangle::new(v(0.0, 0.0, 5.0), v(4.0, 0.0, 6.0), v(0.0, 4.0, 7.0));
    assert!(p.intersect_triangle(&above).is_none());
    let mesh = Mesh::new(vec![t, above, t]);
    let slice = p.intersect_mesh(&mesh);
    assert_eq!(slice.paths.len(), 2);
    assert_eq!(xyz(slice.paths[1][0]), (2.0, 0.0, 1.0));
    assert_eq!(xyz(slice.paths[1][1]), (0.0, 2.0, 1.0));
}

#[test]
fn cylinder_queries() {
    let c = Cylinder::new(s(1.0), s(-2.0), s(3.0));
    assert_eq!(xyz(c.bounding_box().min), (-1.0, -1.0, -2.0));
    assert_eq!(xyz(c.bounding_box().max), (1.0, 1.0, 3.0));
    assert!(c.contains(v(0.5, 0.5, 0.0), s(0.0)));
    assert!(!c.contains(v(1.0, 1.0, 0.0), s(0.0)));
    assert!(c.contains(v(1.0, 1.0, 0.0), s(0.5)));
    assert!(!c.contains(v(0.0, 0.0, 3.5), s(0.0)));
    assert!(c.contains(v(0.0, 0.0, 3.5), s(0.5)));
    let h = c.intersect(Ray::new(v(-5.0, 0.0, 0.0), v(1.0, 0.0, 0.0)));
    assert!(h.ok);
    assert_eq!(f(h.t), 4.0);
    let inside = c.intersect(Ray::new(v(0.0, 0.0, 0.0), v(0.0, 1.0, 0.0)));
    assert_eq!(f(inside.t), 1.0);
    assert!(!c.intersect(Ray::new(v(-5.0, 0.0, 4.0), v(1.0, 0.0, 0.0))).ok);
    assert!(!c.intersect(Ray::new(v(-5.0, 2.0, 0.0), v(1.0, 0.0, 0.0))).ok);
    let paths = c.paths();
    assert_eq!(paths.paths.len(), 36);
    assert_eq!(xyz(paths.paths[0][0]), (1.0, 0.0, -2.0));
    assert_eq!(xyz(paths.paths[0][1]), (1.0, 0.0, 3.0));
    let quarter = xyz(paths.paths[9][1]);
    assert!(quarter.0.abs() < 1e-15 && (quarter.1 - 1.0).abs() < 1e-15 && quarter.2 == 3.0);
}

#[test]
fn cone_queries() {
    let c = Cone::new(s(1.0), s(2.0));
    assert_eq!(xyz(c.bounding_box().min), (-1.0, -1.0, 0.0));
    assert_eq!(xyz(c.bounding_box().max), (1.0, 1.0, 2.0));
    assert!(!c.contains(v(0.0, 0.0, 1.0), s(1.0)));
    let h = c.intersect(Ray::new(v(-5.0, 0.0, 1.0), v(1.0, 0.0, 0.0)));
    assert!(h.ok);
    assert_eq!(f(h.t), 4.5);
    assert!(!c.intersect(Ray::new(v(-5.0, 0.0, 3.0), v(1.0, 0.0, 0.0))).ok);
    assert!(!c.intersect(Ray::new(v(-5.0, 0.0, -1.0), v(1.0, 0.0, 0.0))).ok);
    let paths = c.paths();
    assert_eq!(paths.paths.len(), 12);
    assert_eq!(xyz(paths.paths[0][0]), (1.0, 0.0, 0.0));
    assert_eq!(xyz(paths.paths[0][1]), (0.0, 0.0, 2.0));
    let third = xyz(paths.paths[3][0]);
    assert!(third.0.abs() < 1e-15 && (third.1 - 1.0).abs() < 1e-15);
}

#[test]
fn function_settings() {
    assert!(FunctionTexture::default() == FunctionTexture::Grid);
    assert!(Direction::Above != Direction::Below);
    assert!(FunctionTexture::Swirl != FunctionTexture::Spiral);
}

#[test]
fn obj_text_gives_a_fan_for_each_face() {
    let text = b"# a square\nv 0 0 0\nv 2 0 0\nv 2 2 0 1.0\nv 0 2 0\n\nvn 0 0 1\nf 1 2 3 4\nf -1/7/7 -2/8 1//3\nf 1 2\n";
    let mesh = parse_obj(text).unwrap();
    assert_eq!(mesh.triangles.len(), 3);
    assert_eq!(corners(&mesh.triangles[0]), [(0.0, 0.0, 0.0), (2.0, 0.0, 0.0), (2.0, 2.0, 0.0)]);
    assert_eq!(corners(&mesh.triangles[1]), [(0.0, 0.0, 0.0), (2.0, 2.0, 0.0), (0.0, 2.0, 0.0)]);
    // Negative indices count back from the end of the list, whose place 0 holds the origin.
    assert_eq!(corners(&mesh.triangles[2]), [(0.0, 2.0, 0.0), (2.0, 2.0, 0.0), (0.0, 0.0, 0.0)]);
    assert_eq!(xyz(mesh.bx.max), (2.0, 2.0, 0.0));
    assert!(mesh.tree.is_none());
}

#[test]
fn obj_text_edge_cases() {
    assert!(parse_obj(b"").unwrap().triangles.is_empty());
    assert!(parse_obj(b"v 1 2 3").unwrap().triangles.is_empty());
    // Place 0 is the origin; text that is no number counts as zero.
    let mesh = parse_obj(b"v 1 x 3\nf 0 1 abc").unwrap();
    assert_eq!(corners(&mesh.triangles[0]), [(0.0, 0.0, 0.0), (1.0, 0.0, 3.0), (0.0, 0.0, 0.0)]);
    assert!(matches!(parse_obj(b"v 1 2"), Err(ObjError::ShortVertex)));
    assert!(matches!(parse_obj(b"v"), Err(ObjError::ShortVertex)));
    assert!(matches!(parse_obj(b"f"), Err(ObjError::EmptyFace)));
    assert!(matches!(parse_obj(b"v 1 2 3\nf 1 2 3"), Err(ObjError::BadIndex)));
    assert!(matches!(parse_obj(b"v 1 2 3\nf 1 1 -3"), Err(ObjError::BadIndex)));
    assert!(parse_obj(b"v 1 2 3\nf 9 9").unwrap().triangles.is_empty());
    assert!(matches!(parse_obj(b"f 1 2 3\nv 1 2"), Err(ObjError::BadIndex)));
    assert!(parse_obj(b"vt 1 2\nfoo\n  \n").unwrap().triangles.is_empty());
}

#[test]
fn stl_text_gives_a_triangle_for_every_three_vertices() {
    let text = b"solid s\n facet normal 0 0 1\n  outer loop\n   vertex 0 0 0\n   vertex 1 0 0\n   vertex 0 1 0\n  endloop\n endfacet\n vertex 5 5 5\n vertex 6 6 6 6\n Vertex 7 7 7\n vertex 1e1 -2.5 x\nendsolid";
    let mesh = parse_stl(text);
    assert_eq!(mesh.triangles.len(), 1);
    assert_eq!(corners(&mesh.triangles[0]), [(0.0, 0.0, 0.0), (1.0, 0.0, 0.0), (0.0, 1.0, 0.0)]);
    let more = parse_stl(b"vertex 1 2 3\nvertex 4 5 6\nvertex 1e1 -2.5 x\nvertex 0 0 0");
    assert_eq!(more.triangles.len(), 1);
    assert_eq!(corners(&more.triangles[0]), [(1.0, 2.0, 3.0), (4.0, 5.0, 6.0), (10.0, -2.5, 0.0)]);
    assert!(parse_stl(b"").triangles.is_empty());
}

fn record(corners: [[f32; 3]; 3]) -> Vec<u8> {
    let mut out = vec![9u8; 12];
    for c in corners.iter() {
        for x in c.iter() {
            out.extend_from_slice(&x.to_le_bytes());
        }
    }
    out.extend_from_slice(&[7, 7]);
    out
}

#[test]
fn binary_stl_is_read_record_by_record() {
    let mut data = vec![b'x'; 80];
    data.extend_from_slice(&2u32.to_le_bytes());
    data.extend(record([[0.0, 0.5, 1.0], [1.5, -2.0, 0.1], [3.0, 4.0, 5.0]]));
    data.extend(record([[1.0, 1.0, 1.0], [2.0, 2.0, 2.0], [3.0, 3.0, 3.0]]));
    data.extend_from_slice(b"trailing bytes");
    let mesh = parse_binary_stl(&data).unwrap();
    assert_eq!(mesh.triangles.len(), 2);
    assert_eq!(corners(&mesh.triangles[0]), [(0.0, 0.5, 1.0), (1.5, -2.0, 0.1f32 as f64), (3.0, 4.0, 5.0)]);
    assert_eq!(corners(&mesh.triangles[1]), [(1.0, 1.0, 1.0), (2.0, 2.0, 2.0), (3.0, 3.0, 3.0)]);
    assert_eq!(xyz(mesh.bx.min), (0.0, -2.0, 0.1f32 as f64));
    assert_eq!(xyz(mesh.bx.max), (3.0, 4.0, 5.0));
}

#[test]
fn binary_stl_that_ends_early_is_refused() {
    assert!(matches!(parse_binary_stl(&[]), Err(StlError::Truncated)));
    assert!(matches!(parse_binary_stl(&vec![0u8; 83]), Err(StlError::Truncated)));
    assert!(parse_binary_stl(&vec![0u8; 84]).unwrap().triangles.is_empty());
    let mut data = vec![0u8; 80];
    data.extend_from_slice(&1u32.to_le_bytes());
    data.extend(vec![0u8; 49]);
    assert!(matches!(parse_binary_stl(&data), Err(StlError::Truncated)));
    data.push(0);
    assert_eq!(parse_binary_stl(&data).unwrap().triangles.len(), 1);
    let mut huge = vec![0u8; 80];
    huge.extend_from_slice(&u32::MAX.to_le_bytes());
    assert!(matches!(parse_binary_stl(&huge), Err(StlError::Truncated)));
}

#[test]
fn binary_stl_is_written_as_it_is_read() {
    let mesh = Mesh::new(vec![
        Triangle::new(v(0.0, 0.5, 1.0), v(1.5, -2.0, 0.1), v(3.0, 4.0, 5.0)),
        Triangle::new(v(1e40, -1e40, 1e-50), v(2.0, 2.0, 2.0), v(3.0, 3.0, 3.0)),
    ]);
    let data = encode_binary_stl(&mesh);
    assert_eq!(data.len(), 84 + 2 * 50);
    assert!(data[..80].iter().all(|b| *b == 0));
    assert_eq!(&data[80..84], &2u32.to_le_bytes());
    assert!(data[84..96].iter().all(|b| *b == 0));
    assert_eq!(&data[96..100], &0.0f32.to_le_bytes());
    assert_eq!(&data[100..104], &0.5f32.to_le_bytes());
    assert_eq!(&data[116..120], &0.1f32.to_le_bytes());
    assert_eq!(&data[132..134], &[0, 0]);
    assert_eq!(&data[146..150], &f32::INFINITY.to_le_bytes());
    let back = parse_binary_stl(&data).unwrap();
    assert_eq!(corners(&back.triangles[0]), [(0.0, 0.5, 1.0), (1.5, -2.0, 0.1f32 as f64), (3.0, 4.0, 5.0)]);
    assert_eq!(xyz(back.triangles[1].v1), (f64::INFINITY, f64::NEG_INFINITY, 0.0));
    assert_eq!(encode_binary_stl(&Mesh::new(Vec::new())).len(), 84);
}
