//! Wavefront OBJ text: from bytes to a mesh.

use crate::bounding_box::spec_union;
use crate::mesh::{spec_triangle_boxes, Mesh};
use crate::numeral::{number, parse_integer, spec_number, spec_parse_integer};
use crate::scalar::Scalar;
use crate::text::{
    before_slash, fields, lines, spec_before_slash, spec_fields, spec_lines, spec_pieces,
};
use crate::triangle::Triangle;
use crate::vector::Vector;
use vstd::prelude::*;
use vstd::string::StringSliceAdditionalSpecFns;

verus! {

/// The place that an index of an OBJ face names in a list of `length`
/// entries, before it is reduced to the machine's word: the index itself
/// where it is not negative, else counted back from the end of the list. A
/// text that is no integer counts as 0.
pub open spec fn spec_index(text: Seq<u8>, length: usize) -> int {
    let n = match spec_parse_integer(text) {
        Some(n) => n as int,
        None => 0,
    };
    if n < 0 {
        length + n
    } else {
        n
    }
}

/// The place that an index names in a list of `length` entries, reduced
/// to the machine's word.
pub fn index_of(text: &[u8], length: usize) -> (r: usize)
    ensures
        r == spec_index(text@, length) as usize,
        0 <= spec_index(text@, length) <= usize::MAX ==> r == spec_index(text@, length),
{
    let n: i64 = match parse_integer(text) {
        Some(n) => n,
        None => 0,
    };
    if n < 0 {
        let place: i128 = length as i128 + n as i128;
        #[verifier::truncate]
        (place as usize)
    } else {
        #[verifier::truncate]
        (n as usize)
    }
}

/// The place that the index `value` of an OBJ face names in a list of
/// `length` entries: the index itself where it is not negative, else
/// counted back from the end. A text that is no integer counts as 0. An
/// index that reaches back past the start of the list wraps around to the
/// top of the machine's word.
pub fn parse_index(value: &str, length: usize) -> (r: usize)
    ensures
        r == spec_index(value.spec_bytes(), length) as usize,
        0 <= spec_index(value.spec_bytes(), length) <= usize::MAX ==> r == spec_index(
            value.spec_bytes(),
            length,
        ),
{
    index_of(value.as_bytes(), length)
}

/// Why an OBJ text cannot be read.
#[derive(Clone, Copy, Debug, PartialEq, Eq, Structural)]
pub enum ObjError {
    /// A `v` line has fewer than three coordinates.
    ShortVertex,
    /// An `f` line names no vertex.
    EmptyFace,
    /// A face names a vertex that the text has not given yet.
    BadIndex,
}

/// The vertex of a `v` line, from the fields after the `v`: the first
/// three are its coordinates.
pub open spec fn spec_obj_vertex(args: Seq<Seq<u8>>) -> Result<Vector, ObjError> {
    if args.len() < 3 {
        Err(ObjError::ShortVertex)
    } else {
        Ok(Vector { x: spec_number(args[0]), y: spec_number(args[1]), z: spec_number(args[2]) })
    }
}

/// The places of the vertices that the fields of an `f` line name: each
/// field up to its first `/`, read as an index into the `length` vertices
/// given so far.
pub open spec fn spec_face_places(args: Seq<Seq<u8>>, length: usize) -> Seq<usize> {
    Seq::new(args.len(), |i: int| spec_index(spec_before_slash(args[i]), length) as usize)
}

/// The first `n` triangles of the fan over a face: triangle `i` joins the
/// first vertex of the face with its vertices `i` and `i + 1`.
pub open spec fn spec_fan(vs: Seq<Vector>, places: Seq<usize>, n: nat) -> Result<
    Seq<Triangle>,
    ObjError,
>
    decreases n,
{
    if n == 0 {
        Ok(Seq::empty())
    } else {
        match spec_fan(vs, places, (n - 1) as nat) {
            Err(e) => Err(e),
            Ok(before) => if places[0] < vs.len() && places[n as int] < vs.len() && places[n as int
                + 1] < vs.len() {
                Ok(
                    before.push(
                        Triangle::spec_new(
                            vs[places[0] as int],
                            vs[places[n as int] as int],
                            vs[places[n as int + 1] as int],
                        ),
                    ),
                )
            } else {
                Err(ObjError::BadIndex)
            },
        }
    }
}

/// The triangles of an `f` line, from the fields after the `f`: the fan
/// over the vertices that they name. A face of one or two vertices has no
/// triangle.
pub open spec fn spec_obj_face(vs: Seq<Vector>, args: Seq<Seq<u8>>) -> Result<
    Seq<Triangle>,
    ObjError,
> {
    if args.len() == 0 {
        Err(ObjError::EmptyFace)
    } else {
        spec_fan(
            vs,
            spec_face_places(args, vs.len() as usize),
            (if args.len() >= 2 {
                args.len() - 2
            } else {
                0
            }) as nat,
        )
    }
}

/// What one line adds to the vertices and the triangles read so far. A
/// line that begins with `v` gives a vertex, one that begins with `f`
/// gives triangles, and any other line gives nothing.
pub open spec fn spec_obj_line(
    state: (Seq<Vector>, Seq<Triangle>),
    line: Seq<u8>,
) -> Result<(Seq<Vector>, Seq<Triangle>), ObjError> {
    let f = spec_fields(line);
    if f.len() == 0 {
        Ok(state)
    } else if f[0] == seq![118u8] {
        match spec_obj_vertex(f.subrange(1, f.len() as int)) {
            Ok(v) => Ok((state.0.push(v), state.1)),
            Err(e) => Err(e),
        }
    } else if f[0] == seq![102u8] {
        match spec_obj_face(state.0, f.subrange(1, f.len() as int)) {
            Ok(ts) => Ok((state.0, state.1 + ts)),
            Err(e) => Err(e),
        }
    } else {
        Ok(state)
    }
}

/// The vertices and triangles after the first `n` lines, or the first
/// error. Vertices are numbered from 1: place 0 holds the origin.
pub open spec fn spec_obj_lines(lines: Seq<Seq<u8>>, n: nat) -> Result<
    (Seq<Vector>, Seq<Triangle>),
    ObjError,
>
    decreases n,
{
    if n == 0 {
        Ok((seq![Vector::spec_zero()], Seq::empty()))
    } else {
        match spec_obj_lines(lines, (n - 1) as nat) {
            Err(e) => Err(e),
            Ok(state) => spec_obj_line(state, lines[n - 1]),
        }
    }
}

/// The triangles of an OBJ text.
pub open spec fn spec_parse_obj(data: Seq<u8>) -> Result<Seq<Triangle>, ObjError> {
    match spec_obj_lines(spec_lines(data), spec_lines(data).len()) {
        Ok(state) => Ok(state.1),
        Err(e) => Err(e),
    }
}

/// Reads the triangles of a face into `triangles`.
fn face(vs: &Vec<Vector>, f: &Vec<Vec<u8>>, triangles: &mut Vec<Triangle>) -> (r: Result<
    (),
    ObjError,
>)
    requires
        f.len() >= 1,
    ensures
        match spec_obj_face(vs@, spec_pieces(*f).subrange(1, f.len() as int)) {
            Ok(ts) => r is Ok && final(triangles)@ == old(triangles)@ + ts,
            Err(e) => r == Err::<(), ObjError>(e),
        },
{
    let ghost args = spec_pieces(*f).subrange(1, f.len() as int);
    let count = f.len() - 1;
    if count == 0 {
        return Err(ObjError::EmptyFace);
    }
    let mut places: Vec<usize> = Vec::new();
    let mut i: usize = 0;
    while i < count
        invariant
            i <= count,
            count == f.len() - 1,
            args == spec_pieces(*f).subrange(1, f.len() as int),
            places@.len() == i,
            forall|k: int| 0 <= k < i ==> places@[k] == spec_face_places(args, vs@.len() as usize)[k],
        decreases count - i,
    {
        assert(args[i as int] == f[i + 1]@);
        let name = before_slash(f[i + 1].as_slice());
        places.push(index_of(name.as_slice(), vs.len()));
        i += 1;
    }
    assert(places@ =~= spec_face_places(args, vs@.len() as usize));
    assert(args.len() == count);
    let fans: usize = if count >= 2 {
        count - 2
    } else {
        0
    };
    let mut n: usize = 0;
    while n < fans
        invariant
            n <= fans,
            fans + 2 <= places@.len() || fans == 0,
            args.len() == count,
            args == spec_pieces(*f).subrange(1, f.len() as int),
            count >= 1,
            fans == if count >= 2 {
                count - 2
            } else {
                0
            },
            places@ == spec_face_places(args, vs@.len() as usize),
            match spec_fan(vs@, places@, n as nat) {
                Ok(ts) => triangles@ == old(triangles)@ + ts,
                Err(e) => false,
            },
        decreases fans - n,
    {
        let a = places[0];
        let b = places[n + 1];
        let c = places[n + 2];
        if a < vs.len() && b < vs.len() && c < vs.len() {
            let ghost before = spec_fan(vs@, places@, n as nat)->Ok_0;
            let t = Triangle::new(vs[a], vs[b], vs[c]);
            triangles.push(t);
            assert(triangles@ =~= old(triangles)@ + before.push(t));
        } else {
            proof {
                assert(spec_fan(vs@, places@, (n + 1) as nat) == Err::<Seq<Triangle>, ObjError>(
                    ObjError::BadIndex,
                ));
                lemma_fan_fails_on(vs@, places@, (n + 1) as nat, fans as nat);
            }
            return Err(ObjError::BadIndex);
        }
        n += 1;
    }
    Ok(())
}

/// A fan that fails after `n` triangles fails after more.
proof fn lemma_fan_fails_on(vs: Seq<Vector>, places: Seq<usize>, n: nat, m: nat)
    requires
        n <= m,
        spec_fan(vs, places, n) is Err,
    ensures
        spec_fan(vs, places, m) == spec_fan(vs, places, n),
    decreases m - n,
{
    if n < m {
        lemma_fan_fails_on(vs, places, n, (m - 1) as nat);
    }
}

/// The first error among the lines stays the result of all lines.
proof fn lemma_lines_fail_on(lines: Seq<Seq<u8>>, n: nat, m: nat)
    requires
        n <= m,
        spec_obj_lines(lines, n) is Err,
    ensures
        spec_obj_lines(lines, m) == spec_obj_lines(lines, n),
    decreases m - n,
{
    if n < m {
        lemma_lines_fail_on(lines, n, (m - 1) as nat);
    }
}

/// Reads an OBJ text: its `v` lines are vertices, numbered from 1, and
/// its `f` lines are faces, each cut into a fan of triangles. A face may
/// name a vertex from the start of the text, by a positive number, or
/// from the last vertex given, by a negative one.
pub fn parse_obj(data: &[u8]) -> (r: Result<Mesh, ObjError>)
    ensures
        match r {
            Ok(mesh) => spec_parse_obj(data@) == Ok::<Seq<Triangle>, ObjError>(mesh.triangles@)
                && mesh.bx == spec_union(spec_triangle_boxes(mesh.triangles@)) && mesh.tree is None,
            Err(e) => spec_parse_obj(data@) == Err::<Seq<Triangle>, ObjError>(e),
        },
{
    let all = lines(data);
    let ghost texts = spec_lines(data@);
    let mut vs: Vec<Vector> = Vec::new();
    vs.push(Vector::zero());
    let mut triangles: Vec<Triangle> = Vec::new();
    let mut i: usize = 0;
    assert(spec_pieces(all).len() == all.len());
    assert(vs@ =~= seq![Vector::spec_zero()]);
    while i < all.len()
        invariant
            i <= all.len(),
            texts == spec_pieces(all),
            texts == spec_lines(data@),
            texts.len() == all.len(),
            spec_obj_lines(texts, i as nat) == Ok::<(Seq<Vector>, Seq<Triangle>), ObjError>(
                (vs@, triangles@),
            ),
        decreases all.len() - i,
    {
        assert(texts[i as int] == all[i as int]@);
        let f = fields(all[i].as_slice());
        assert(spec_pieces(f).len() == f.len());
        let ghost state = (vs@, triangles@);
        let ghost next = spec_obj_line(state, texts[i as int]);
        assert(spec_obj_lines(texts, (i + 1) as nat) == next);
        if f.len() > 0 {
            assert(spec_pieces(f)[0] == f[0]@);
            let ghost args = spec_pieces(f).subrange(1, f.len() as int);
            if f[0].len() == 1 && f[0][0] == 118 {
                assert(f[0]@ =~= seq![118u8]);
                if f.len() < 4 {
                    proof {
                        assert(args.len() < 3);
                        assert(next == Err::<(Seq<Vector>, Seq<Triangle>), ObjError>(
                            ObjError::ShortVertex,
                        ));
                        lemma_lines_fail_on(texts, (i + 1) as nat, texts.len());
                    }
                    return Err(ObjError::ShortVertex);
                }
                assert(args[0] == f[1]@ && args[1] == f[2]@ && args[2] == f[3]@);
                vs.push(
                    Vector::new(
                        number(f[1].as_slice()),
                        number(f[2].as_slice()),
                        number(f[3].as_slice()),
                    ),
                );
            } else if f[0].len() == 1 && f[0][0] == 102 {
                assert(f[0]@ =~= seq![102u8]);
                assert(f[0]@ != seq![118u8]) by {
                    assert(f[0]@[0] != seq![118u8][0]);
                }
                match face(&vs, &f, &mut triangles) {
                    Ok(()) => {},
                    Err(e) => {
                        proof {
                            assert(next == Err::<(Seq<Vector>, Seq<Triangle>), ObjError>(e));
                            lemma_lines_fail_on(texts, (i + 1) as nat, texts.len());
                        }
                        return Err(e);
                    },
                }
            } else {
                assert(f[0]@ != seq![118u8]) by {
                    if f[0]@.len() == 1 {
                        assert(f[0]@[0] != seq![118u8][0]);
                    }
                }
                assert(f[0]@ != seq![102u8]) by {
                    if f[0]@.len() == 1 {
                        assert(f[0]@[0] != seq![102u8][0]);
                    }
                }
            }
        }
        i += 1;
    }
    Ok(Mesh::new(triangles))
}

} // verus!
