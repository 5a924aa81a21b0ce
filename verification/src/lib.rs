//! A vector-based 3D renderer: it turns a scene of solids into the 2D
//! polylines that remain visible from a camera, the kind of drawing that a
//! pen plotter makes.
//!
//! A [`Scene`] collects solids, builds one spatial index ([`Tree`]) over
//! them, asks each solid for the curves on its surface, samples the curves,
//! keeps the samples that no solid hides and that fall into the view, and
//! maps the runs that are left to pixels. Solids are combined by
//! intersection and difference in [`csg`].
//!
//! Numbers are IEEE 754 binary64 values, carried as their bits in
//! [`Scalar`]. Comparisons are defined on the bits; sums, products,
//! quotients, roots, sines and cosines are computed in software by
//! `const_soft_float`, and contracts name their results. The properties
//! that hold of the operations on every input are collected in [`laws`].

pub mod axis;
pub mod bounding_box;
pub mod canvas;
pub mod cone;
pub mod csg;
pub mod cube;
pub mod cylinder;
pub mod filter;
pub mod function;
pub mod hit;
pub mod laws;
pub mod matrix;
pub mod mesh;
pub mod numeral;
pub mod obj;
pub mod path;
pub mod plane;
pub mod ray;
pub mod scalar;
pub mod scene;
pub mod shape;
pub mod solid;
pub mod sorting;
pub mod sphere;
pub mod stl;
pub mod text;
pub mod tree;
pub mod triangle;
pub mod util;
pub mod vector;

pub use axis::Axis;
pub use bounding_box::Box;
pub use canvas::{draw_line, Canvas};
pub use cone::Cone;
pub use csg::{new_boolean_shape, new_difference, new_intersection, BooleanShape, Csg, Op};
pub use cube::{Cube, CubeTexture};
pub use cylinder::Cylinder;
pub use filter::{ClipFilter, Filter};
pub use function::{Direction, FunctionTexture};
pub use hit::Hit;
pub use matrix::Matrix;
pub use mesh::Mesh;
pub use obj::parse_index;
pub use path::{Path, Paths};
pub use plane::Plane;
pub use ray::Ray;
pub use scalar::Scalar;
pub use scene::Scene;
pub use shape::{EmptyShape, Shape, TransformedShape};
pub use solid::Solid;
pub use sphere::{lat_lng_to_xyz, Sphere, SphereTexture};
pub use tree::{Node, Tree};
pub use triangle::Triangle;
pub use util::{degrees, median, parse_floats, radians};
pub use vector::Vector;
