//! STL files, binary and as text: from bytes to a mesh and back.

use crate::bounding_box::spec_union;
use crate::mesh::{spec_triangle_boxes, Mesh};
use crate::numeral::{narrow, narrowed_bits, number, spec_number, widen, widened_bits};
use crate::scalar::Scalar;
use crate::text::{fields, lines, same, spec_fields, spec_lines, spec_pieces};
use crate::triangle::Triangle;
use crate::vector::Vector;
use vstd::prelude::*;

verus! {

/// The length of the head of a binary STL file: eighty bytes of free text
/// and the number of triangles.
pub const HEAD_LEN: usize = 84;

/// The length of the record of one triangle: a normal, three corners and
/// two bytes of attributes.
pub const RECORD_LEN: usize = 50;

/// Why a binary STL file cannot be read.
#[derive(Clone, Copy, Debug, PartialEq, Eq, Structural)]
pub enum StlError {
    /// The file ends before its head or before the last triangle that its
    /// head announces.
    Truncated,
}

/// The 32-bit number whose four bytes stand at `at`, lowest byte first.
pub open spec fn spec_u32_at(data: Seq<u8>, at: int) -> u32 {
    (data[at] + data[at + 1] * 0x100 + data[at + 2] * 0x1_0000 + data[at + 3] * 0x100_0000) as u32
}

/// The binary32 number at `at`, as a scalar.
pub open spec fn spec_scalar_at(data: Seq<u8>, at: int) -> Scalar {
    Scalar { bits: widened_bits(spec_u32_at(data, at)) }
}

/// The point whose three coordinates stand at `at`.
pub open spec fn spec_vector_at(data: Seq<u8>, at: int) -> Vector {
    Vector {
        x: spec_scalar_at(data, at),
        y: spec_scalar_at(data, at + 4),
        z: spec_scalar_at(data, at + 8),
    }
}

/// The triangle of the record `k`. The normal and the attributes of the
/// record are not read.
pub open spec fn spec_record(data: Seq<u8>, k: int) -> Triangle {
    let at = HEAD_LEN + RECORD_LEN * k;
    Triangle::spec_new(
        spec_vector_at(data, at + 12),
        spec_vector_at(data, at + 24),
        spec_vector_at(data, at + 36),
    )
}

/// The triangles of a binary STL file: as many as the head announces. What
/// follows the last record is not read.
pub open spec fn spec_parse_binary_stl(data: Seq<u8>) -> Result<Seq<Triangle>, StlError> {
    if data.len() < HEAD_LEN || data.len() < HEAD_LEN + RECORD_LEN * spec_u32_at(data, 80) {
        Err(StlError::Truncated)
    } else {
        Ok(Seq::new(spec_u32_at(data, 80) as nat, |k: int| spec_record(data, k)))
    }
}

/// The word `vertex`.
pub open spec fn spec_vertex_word() -> Seq<u8> {
    seq![118u8, 101u8, 114u8, 116u8, 101u8, 120u8]
}

/// The point that a line of an STL text gives: a line of the word `vertex`
/// and three more fields gives the point with those coordinates; any other
/// line gives none.
pub open spec fn spec_vertex_line(line: Seq<u8>) -> Option<Vector> {
    let f = spec_fields(line);
    if f.len() == 4 && f[0] == spec_vertex_word() {
        Some(Vector { x: spec_number(f[1]), y: spec_number(f[2]), z: spec_number(f[3]) })
    } else {
        None
    }
}

/// The points that the lines give, in the order of the lines.
pub open spec fn spec_vertices(lines: Seq<Seq<u8>>) -> Seq<Vector>
    decreases lines.len(),
{
    if lines.len() == 0 {
        Seq::empty()
    } else {
        let before = spec_vertices(lines.drop_last());
        match spec_vertex_line(lines.last()) {
            Some(v) => before.push(v),
            None => before,
        }
    }
}

/// The triangles of every three points in a row. One or two points left
/// over at the end make no triangle.
pub open spec fn spec_triples(vertices: Seq<Vector>) -> Seq<Triangle> {
    Seq::new(
        (vertices.len() / 3) as nat,
        |k: int| Triangle::spec_new(vertices[3 * k], vertices[3 * k + 1], vertices[3 * k + 2]),
    )
}

/// The triangles of an STL text.
pub open spec fn spec_parse_stl(data: Seq<u8>) -> Seq<Triangle> {
    spec_triples(spec_vertices(spec_lines(data)))
}

/// The four bytes of a 32-bit number, lowest byte first.
pub open spec fn spec_le_bytes(x: u32) -> Seq<u8> {
    seq![
        (x % 0x100) as u8,
        (x / 0x100 % 0x100) as u8,
        (x / 0x1_0000 % 0x100) as u8,
        (x / 0x100_0000) as u8,
    ]
}

/// The twelve bytes of a point: its coordinates as binary32 numbers.
pub open spec fn spec_encode_vector(v: Vector) -> Seq<u8> {
    spec_le_bytes(narrowed_bits(v.x.bits)) + spec_le_bytes(narrowed_bits(v.y.bits))
        + spec_le_bytes(narrowed_bits(v.z.bits))
}

/// The record of a triangle: a normal of zeros, the three corners, and two
/// zero bytes of attributes.
pub open spec fn spec_encode_triangle(t: Triangle) -> Seq<u8> {
    Seq::new(12, |i: int| 0u8) + spec_encode_vector(t.v1) + spec_encode_vector(t.v2)
        + spec_encode_vector(t.v3) + Seq::new(2, |i: int| 0u8)
}

/// The records of the first `n` triangles.
pub open spec fn spec_encode_records(triangles: Seq<Triangle>, n: nat) -> Seq<u8>
    decreases n,
{
    if n == 0 {
        Seq::empty()
    } else {
        spec_encode_records(triangles, (n - 1) as nat) + spec_encode_triangle(triangles[n - 1])
    }
}

/// The binary STL file of the triangles: eighty zero bytes, the number of
/// triangles reduced to 32 bits, and the records.
pub open spec fn spec_encode_binary_stl(triangles: Seq<Triangle>) -> Seq<u8> {
    Seq::new(80, |i: int| 0u8) + spec_le_bytes((triangles.len() % 0x1_0000_0000) as u32)
        + spec_encode_records(triangles, triangles.len())
}

fn u32_at(data: &[u8], at: usize) -> (r: u32)
    requires
        at + 4 <= data.len(),
    ensures
        r == spec_u32_at(data@, at as int),
{
    let b0 = data[at] as u32;
    let b1 = data[at + 1] as u32;
    let b2 = data[at + 2] as u32;
    let b3 = data[at + 3] as u32;
    b0 + b1 * 0x100 + b2 * 0x1_0000 + b3 * 0x100_0000
}

fn vector_at(data: &[u8], at: usize) -> (v: Vector)
    requires
        at + 12 <= data.len(),
    ensures
        v == spec_vector_at(data@, at as int),
{
    Vector::new(widen(u32_at(data, at)), widen(u32_at(data, at + 4)), widen(u32_at(data, at + 8)))
}

/// Reads a binary STL file.
pub fn parse_binary_stl(data: &[u8]) -> (r: Result<Mesh, StlError>)
    ensures
        match r {
            Ok(mesh) => spec_parse_binary_stl(data@) == Ok::<Seq<Triangle>, StlError>(
                mesh.triangles@,
            ) && mesh.bx == spec_union(spec_triangle_boxes(mesh.triangles@)) && mesh.tree is None,
            Err(e) => spec_parse_binary_stl(data@) == Err::<Seq<Triangle>, StlError>(e),
        },
{
    if data.len() < HEAD_LEN {
        return Err(StlError::Truncated);
    }
    let count = u32_at(data, 80);
    if (data.len() as u64) < HEAD_LEN as u64 + RECORD_LEN as u64 * count as u64 {
        return Err(StlError::Truncated);
    }
    let mut triangles: Vec<Triangle> = Vec::new();
    let mut k: usize = 0;
    while k < count as usize
        invariant
            k <= count,
            count == spec_u32_at(data@, 80),
            data.len() >= HEAD_LEN + RECORD_LEN * count,
            triangles@.len() == k,
            forall|j: int| 0 <= j < k ==> triangles@[j] == spec_record(data@, j),
        decreases count - k,
    {
        let at = HEAD_LEN + RECORD_LEN * k;
        let t = Triangle::new(
            vector_at(data, at + 12),
            vector_at(data, at + 24),
            vector_at(data, at + 36),
        );
        triangles.push(t);
        k += 1;
    }
    assert(triangles@ =~= Seq::new(count as nat, |k: int| spec_record(data@, k)));
    Ok(Mesh::new(triangles))
}

fn vertex_line(line: &[u8]) -> (r: Option<Vector>)
    ensures
        r == spec_vertex_line(line@),
{
    let f = fields(line);
    let word: [u8; 6] = [118, 101, 114, 116, 101, 120];
    assert(word@ =~= spec_vertex_word());
    assert(spec_pieces(f).len() == f.len());
    if f.len() == 4 {
        assert(spec_pieces(f)[0] == f[0]@);
        assert(spec_pieces(f)[1] == f[1]@);
        assert(spec_pieces(f)[2] == f[2]@);
        assert(spec_pieces(f)[3] == f[3]@);
        if same(f[0].as_slice(), word.as_slice()) {
            return Some(
                Vector::new(
                    number(f[1].as_slice()),
                    number(f[2].as_slice()),
                    number(f[3].as_slice()),
                ),
            );
        }
    }
    None
}

/// Reads an STL text.
pub fn parse_stl(data: &[u8]) -> (mesh: Mesh)
    ensures
        mesh.triangles@ == spec_parse_stl(data@),
        mesh.bx == spec_union(spec_triangle_boxes(mesh.triangles@)),
        mesh.tree is None,
{
    let all = lines(data);
    let ghost texts = spec_lines(data@);
    let mut vertices: Vec<Vector> = Vec::new();
    let mut i: usize = 0;
    assert(spec_pieces(all).len() == all.len());
    while i < all.len()
        invariant
            i <= all.len(),
            texts == spec_pieces(all),
            vertices@ == spec_vertices(texts.subrange(0, i as int)),
        decreases all.len() - i,
    {
        proof {
            assert(texts.subrange(0, i + 1).drop_last() =~= texts.subrange(0, i as int));
            assert(texts[i as int] == all[i as int]@);
        }
        match vertex_line(all[i].as_slice()) {
            Some(v) => {
                vertices.push(v);
            },
            None => {},
        }
        i += 1;
    }
    assert(texts.subrange(0, all.len() as int) =~= texts);
    let mut triangles: Vec<Triangle> = Vec::new();
    let mut k: usize = 0;
    while k < vertices.len() / 3
        invariant
            k <= vertices.len() / 3,
            triangles@.len() == k,
            forall|j: int| 0 <= j < k ==> triangles@[j] == spec_triples(vertices@)[j],
        decreases vertices.len() / 3 - k,
    {
        triangles.push(Triangle::new(vertices[3 * k], vertices[3 * k + 1], vertices[3 * k + 2]));
        k += 1;
    }
    assert(triangles@ =~= spec_triples(vertices@));
    Mesh::new(triangles)
}

fn push_le_bytes(out: &mut Vec<u8>, x: u32)
    ensures
        final(out)@ == old(out)@ + spec_le_bytes(x),
{
    out.push((x % 0x100) as u8);
    out.push((x / 0x100 % 0x100) as u8);
    out.push((x / 0x1_0000 % 0x100) as u8);
    out.push((x / 0x100_0000) as u8);
    assert(out@ =~= old(out)@ + spec_le_bytes(x));
}

fn push_zeros(out: &mut Vec<u8>, n: usize)
    ensures
        final(out)@ == old(out)@ + Seq::new(n as nat, |i: int| 0u8),
{
    let mut i: usize = 0;
    while i < n
        invariant
            i <= n,
            out@ == old(out)@ + Seq::new(i as nat, |i: int| 0u8),
        decreases n - i,
    {
        out.push(0);
        assert(out@ =~= old(out)@ + Seq::new((i + 1) as nat, |i: int| 0u8));
        i += 1;
    }
}

fn push_vector(out: &mut Vec<u8>, v: Vector)
    ensures
        final(out)@ == old(out)@ + spec_encode_vector(v),
{
    push_le_bytes(out, narrow(v.x));
    push_le_bytes(out, narrow(v.y));
    push_le_bytes(out, narrow(v.z));
    assert(out@ =~= old(out)@ + spec_encode_vector(v));
}

fn push_triangle(out: &mut Vec<u8>, t: &Triangle)
    ensures
        final(out)@ == old(out)@ + spec_encode_triangle(*t),
{
    push_zeros(out, 12);
    push_vector(out, t.v1);
    push_vector(out, t.v2);
    push_vector(out, t.v3);
    push_zeros(out, 2);
    assert(out@ =~= old(out)@ + spec_encode_triangle(*t));
}

/// Writes a binary STL file.
pub fn encode_binary_stl(mesh: &Mesh) -> (out: Vec<u8>)
    ensures
        out@ == spec_encode_binary_stl(mesh.triangles@),
{
    let mut out: Vec<u8> = Vec::new();
    push_zeros(&mut out, 80);
    let count = (mesh.triangles.len() as u64 % 0x1_0000_0000) as u32;
    push_le_bytes(&mut out, count);
    let ghost head = out@;
    let mut i: usize = 0;
    assert(out@ =~= head + spec_encode_records(mesh.triangles@, 0));
    while i < mesh.triangles.len()
        invariant
            i <= mesh.triangles.len(),
            out@ == head + spec_encode_records(mesh.triangles@, i as nat),
        decreases mesh.triangles.len() - i,
    {
        let ghost before = out@;
        push_triangle(&mut out, &mesh.triangles[i]);
        assert(out@ =~= head + spec_encode_records(mesh.triangles@, (i + 1) as nat));
        i += 1;
    }
    out
}

} // verus!
