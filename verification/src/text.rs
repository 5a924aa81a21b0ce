//! Lines and fields of text.

use vstd::prelude::*;

verus! {

/// The line feed.
pub const LINE_FEED: u8 = 10;

/// Whether the byte is ASCII white space: a space, a tab, a line feed, a
/// vertical tab, a form feed or a carriage return.
pub open spec fn spec_is_space(b: u8) -> bool {
    b == 32 || (9 <= b <= 13)
}

/// Whether the third byte completes, after the bytes `E2 80`, the UTF-8
/// encoding of white space: of U+2000 to U+200A, U+2028, U+2029 or U+202F.
pub open spec fn spec_is_general_space(b: u8) -> bool {
    (0x80 <= b <= 0x8A) || b == 0xA8 || b == 0xA9 || b == 0xAF
}

/// The number of bytes of the white space that begins at place `i`; 0 where
/// none begins there. White space is what Unicode counts as such: the
/// ASCII white space, and in UTF-8 the characters U+0085, U+00A0, U+1680,
/// U+2000 to U+200A, U+2028, U+2029, U+202F, U+205F and U+3000.
pub open spec fn spec_space_len(data: Seq<u8>, i: int) -> int {
    if !(0 <= i < data.len()) {
        0
    } else if spec_is_space(data[i]) {
        1
    } else if i + 1 < data.len() && data[i] == 0xC2 && (data[i + 1] == 0x85 || data[i + 1]
        == 0xA0) {
        2
    } else if i + 2 < data.len() && ((data[i] == 0xE1 && data[i + 1] == 0x9A && data[i + 2]
        == 0x80) || (data[i] == 0xE2 && data[i + 1] == 0x80 && spec_is_general_space(data[i + 2]))
        || (data[i] == 0xE2 && data[i + 1] == 0x81 && data[i + 2] == 0x9F) || (data[i] == 0xE3
        && data[i + 1] == 0x80 && data[i + 2] == 0x80)) {
        3
    } else {
        0
    }
}

/// The number of bytes of the break that begins at place `i`; 0 where none
/// begins there. A break is a line feed where lines are asked for, and
/// white space where fields are.
pub open spec fn spec_break_len(data: Seq<u8>, i: int, by_line: bool) -> int {
    if by_line {
        if 0 <= i < data.len() && data[i] == LINE_FEED {
            1
        } else {
            0
        }
    } else {
        spec_space_len(data, i)
    }
}

/// The pieces with one more, unless fields are asked for and the piece is
/// empty: between two line feeds lies a line, but between two spaces lies
/// no field.
pub open spec fn spec_close(done: Seq<Seq<u8>>, piece: Seq<u8>, by_line: bool) -> Seq<Seq<u8>> {
    if by_line || piece.len() > 0 {
        done.push(piece)
    } else {
        done
    }
}

/// The pieces of the text from place `i` on, where `piece` is the piece
/// that is open at `i`: a break closes the open piece, and any other byte
/// is added to it.
pub open spec fn spec_split_from(data: Seq<u8>, i: int, piece: Seq<u8>, by_line: bool) -> Seq<
    Seq<u8>,
>
    decreases data.len() - i,
{
    if !(0 <= i < data.len()) {
        spec_close(Seq::empty(), piece, by_line)
    } else if spec_break_len(data, i, by_line) > 0 {
        spec_close(Seq::empty(), piece, by_line) + spec_split_from(
            data,
            i + spec_break_len(data, i, by_line),
            Seq::empty(),
            by_line,
        )
    } else {
        spec_split_from(data, i + 1, piece.push(data[i]), by_line)
    }
}

/// The lines of a text: the pieces between its line feeds. A text of `n`
/// line feeds has `n + 1` lines, of which the last may be empty.
pub open spec fn spec_lines(data: Seq<u8>) -> Seq<Seq<u8>> {
    spec_split_from(data, 0, Seq::empty(), true)
}

/// The fields of a line: its maximal runs of bytes that belong to no white
/// space.
pub open spec fn spec_fields(line: Seq<u8>) -> Seq<Seq<u8>> {
    spec_split_from(line, 0, Seq::empty(), false)
}

/// The part of a text before its first `/`; the whole text if it has none.
pub open spec fn spec_before_slash(text: Seq<u8>) -> Seq<u8>
    decreases text.len(),
{
    if text.len() == 0 || text[0] == 47 {
        Seq::empty()
    } else {
        seq![text[0]] + spec_before_slash(text.drop_first())
    }
}

/// The byte sequences held by a vector of byte vectors.
pub open spec fn spec_pieces(pieces: Vec<Vec<u8>>) -> Seq<Seq<u8>> {
    Seq::new(pieces.len() as nat, |i: int| pieces[i]@)
}

fn space_len(data: &[u8], i: usize) -> (k: usize)
    requires
        i < data.len(),
    ensures
        k == spec_space_len(data@, i as int),
        k <= 3,
        i + k <= data.len(),
{
    let n = data.len();
    let b = data[i];
    if b == 32 || (9 <= b && b <= 13) {
        1
    } else if n - i > 1 && b == 0xC2 && (data[i + 1] == 0x85 || data[i + 1] == 0xA0) {
        2
    } else if n - i > 2 {
        let c = data[i + 1];
        let d = data[i + 2];
        let general = (0x80 <= d && d <= 0x8A) || d == 0xA8 || d == 0xA9 || d == 0xAF;
        if (b == 0xE1 && c == 0x9A && d == 0x80) || (b == 0xE2 && c == 0x80 && general) || (b
            == 0xE2 && c == 0x81 && d == 0x9F) || (b == 0xE3 && c == 0x80 && d == 0x80) {
            3
        } else {
            0
        }
    } else {
        0
    }
}

fn break_len(data: &[u8], i: usize, by_line: bool) -> (k: usize)
    requires
        i < data.len(),
    ensures
        k == spec_break_len(data@, i as int, by_line),
        k <= 3,
        i + k <= data.len(),
{
    if by_line {
        if data[i] == LINE_FEED {
            1
        } else {
            0
        }
    } else {
        space_len(data, i)
    }
}

fn split(data: &[u8], by_line: bool) -> (pieces: Vec<Vec<u8>>)
    ensures
        spec_pieces(pieces) == spec_split_from(data@, 0, Seq::empty(), by_line),
{
    let mut done: Vec<Vec<u8>> = Vec::new();
    let mut piece: Vec<u8> = Vec::new();
    let mut i: usize = 0;
    let ghost whole = spec_split_from(data@, 0, Seq::empty(), by_line);
    assert(spec_pieces(done) =~= Seq::<Seq<u8>>::empty());
    assert(spec_pieces(done) + whole =~= whole);
    while i < data.len()
        invariant
            i <= data.len(),
            whole == spec_pieces(done) + spec_split_from(data@, i as int, piece@, by_line),
        decreases data.len() - i,
    {
        let ghost before = spec_pieces(done);
        let ghost open = piece@;
        let k = break_len(data, i, by_line);
        if k > 0 {
            let ghost rest = spec_split_from(data@, i + k, Seq::empty(), by_line);
            if by_line || piece.len() > 0 {
                done.push(piece);
                assert(spec_pieces(done) =~= before.push(open));
            }
            assert(before + (spec_close(Seq::empty(), open, by_line) + rest) =~= spec_pieces(done)
                + rest);
            piece = Vec::new();
            i += k;
        } else {
            piece.push(data[i]);
            i += 1;
        }
    }
    let ghost before = spec_pieces(done);
    if by_line || piece.len() > 0 {
        done.push(piece);
        assert(spec_pieces(done) =~= before.push(piece@));
    }
    assert(before + spec_close(Seq::empty(), piece@, by_line) =~= spec_pieces(done));
    done
}

/// The lines of a text.
pub fn lines(data: &[u8]) -> (pieces: Vec<Vec<u8>>)
    ensures
        spec_pieces(pieces) == spec_lines(data@),
{
    split(data, true)
}

/// The fields of a line.
pub fn fields(line: &[u8]) -> (pieces: Vec<Vec<u8>>)
    ensures
        spec_pieces(pieces) == spec_fields(line@),
{
    split(line, false)
}

/// The part of a text before its first `/`.
pub fn before_slash(text: &[u8]) -> (r: Vec<u8>)
    ensures
        r@ == spec_before_slash(text@),
{
    let mut out: Vec<u8> = Vec::new();
    let mut i: usize = 0;
    proof {
        assert(text@.subrange(0, text@.len() as int) =~= text@);
        assert(out@ + spec_before_slash(text@) =~= spec_before_slash(text@));
    }
    while i < text.len() && text[i] != 47
        invariant
            i <= text.len(),
            out@ + spec_before_slash(text@.subrange(i as int, text@.len() as int))
                == spec_before_slash(text@),
        decreases text.len() - i,
    {
        let ghost rest = text@.subrange(i as int, text@.len() as int);
        proof {
            assert(rest.drop_first() =~= text@.subrange(i + 1, text@.len() as int));
            assert(out@.push(text@[i as int]) + spec_before_slash(rest.drop_first()) =~= out@ + (
            seq![rest[0]] + spec_before_slash(rest.drop_first())));
        }
        out.push(text[i]);
        i += 1;
    }
    proof {
        let rest = text@.subrange(i as int, text@.len() as int);
        assert(spec_before_slash(rest) =~= Seq::<u8>::empty());
        assert(out@ + Seq::<u8>::empty() =~= out@);
    }
    out
}

/// Whether two byte strings are the same.
pub fn same(a: &[u8], b: &[u8]) -> (r: bool)
    ensures
        r == (a@ == b@),
{
    if a.len() != b.len() {
        return false;
    }
    let mut i: usize = 0;
    while i < a.len()
        invariant
            i <= a.len(),
            a.len() == b.len(),
            forall|k: int| 0 <= k < i ==> a@[k] == b@[k],
        decreases a.len() - i,
    {
        if a[i] != b[i] {
            return false;
        }
        i += 1;
    }
    assert(a@ =~= b@);
    true
}

} // verus!
