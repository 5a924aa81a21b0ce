//! Raster images of path collections.

use crate::path::Paths;
use crate::scalar::Scalar;
use crate::vector::Vector;
use image::{ImageBuffer, Rgb, RgbImage};
use vstd::prelude::*;

verus! {

/// A colour: red, green and blue.
pub type Color = (u8, u8, u8);

/// White.
pub const WHITE: Color = (255, 255, 255);

/// Black.
pub const BLACK: Color = (0, 0, 0);

/// A raster image of three bytes to the pixel, kept in an `ImageBuffer` of
/// the `image` crate.
#[verifier::external_body]
pub struct Canvas {
    image: RgbImage,
}

/// The width of the image, in pixels.
pub uninterp spec fn canvas_width(canvas: Canvas) -> u32;

/// The height of the image, in pixels.
pub uninterp spec fn canvas_height(canvas: Canvas) -> u32;

/// The colours of the pixels, by column and row.
pub uninterp spec fn canvas_pixels(canvas: Canvas) -> Map<(int, int), Color>;

/// Whether a pixel lies in an image of the given size.
pub open spec fn spec_inside(width: u32, height: u32, x: int, y: int) -> bool {
    0 <= x < width && 0 <= y < height
}

/// The pixels of an image of one colour.
pub open spec fn spec_plain(width: u32, height: u32, color: Color) -> Map<(int, int), Color> {
    Map::new(|at: (int, int)| spec_inside(width, height, at.0, at.1), |at: (int, int)| color)
}

/// Whether an image of the given size fits into memory: its bytes can be
/// counted in a signed machine word.
pub open spec fn spec_fits(width: u32, height: u32) -> bool {
    3 * width * height <= isize::MAX
}

/// `ImageBuffer::from_pixel`: an image of the given size in which every
/// pixel has the given colour. An image that does not fit into memory is
/// left out, since the call panics for it.
#[verifier::external_body]
fn image_from_pixel(width: u32, height: u32, color: Color) -> (canvas: Canvas)
    requires
        spec_fits(width, height),
    ensures
        canvas_width(canvas) == width,
        canvas_height(canvas) == height,
        canvas_pixels(canvas) == spec_plain(width, height, color),
{
    Canvas { image: ImageBuffer::from_pixel(width, height, Rgb([color.0, color.1, color.2])) }
}

/// `ImageBuffer::width`.
#[verifier::external_body]
fn image_width(canvas: &Canvas) -> (w: u32)
    ensures
        w == canvas_width(*canvas),
{
    canvas.image.width()
}

/// `ImageBuffer::height`.
#[verifier::external_body]
fn image_height(canvas: &Canvas) -> (h: u32)
    ensures
        h == canvas_height(*canvas),
{
    canvas.image.height()
}

/// `ImageBuffer::put_pixel`: the pixel takes the colour, and nothing else
/// changes. A pixel outside the image is left out, since the call panics
/// for it.
#[verifier::external_body]
fn image_put_pixel(canvas: &mut Canvas, x: u32, y: u32, color: Color)
    requires
        spec_inside(canvas_width(*old(canvas)), canvas_height(*old(canvas)), x as int, y as int),
    ensures
        canvas_width(*final(canvas)) == canvas_width(*old(canvas)),
        canvas_height(*final(canvas)) == canvas_height(*old(canvas)),
        canvas_pixels(*final(canvas)) == canvas_pixels(*old(canvas)).insert(
            (x as int, y as int),
            color,
        ),
{
    canvas.image.put_pixel(x, y, Rgb([color.0, color.1, color.2]));
}

/// `ImageBuffer::get_pixel`: the colour of the pixel. A pixel outside the
/// image is left out, since the call panics for it.
#[verifier::external_body]
fn image_get_pixel(canvas: &Canvas, x: u32, y: u32) -> (color: Color)
    requires
        spec_inside(canvas_width(*canvas), canvas_height(*canvas), x as int, y as int),
    ensures
        color == canvas_pixels(*canvas)[(x as int, y as int)],
{
    let p = canvas.image.get_pixel(x, y);
    (p.0[0], p.0[1], p.0[2])
}

/// `ImageBuffer::into_raw`: the bytes of the image, row by row from the
/// top, three to the pixel.
#[verifier::external_body]
fn image_into_raw(canvas: Canvas) -> (bytes: Vec<u8>)
    ensures
        bytes@.len() == 3 * canvas_width(canvas) * canvas_height(canvas),
        forall|x: int, y: int|
            spec_inside(canvas_width(canvas), canvas_height(canvas), x, y) ==> {
                let at = 3 * (y * canvas_width(canvas) + x);
                let color = #[trigger] canvas_pixels(canvas)[(x, y)];
                bytes@[at] == color.0 && bytes@[at + 1] == color.1 && bytes@[at + 2] == color.2
            },
{
    canvas.image.into_raw()
}

/// The state of a line on its way from one pixel to another: the pixel
/// reached, and the error term that tells which way to step.
pub struct Stride {
    pub x: int,
    pub y: int,
    pub err: int,
}

/// The line from `(x0, y0)` to `(x1, y1)`, as it is about to start.
pub open spec fn spec_start(x0: int, y0: int, x1: int, y1: int) -> Stride {
    Stride { x: x0, y: y0, err: spec_abs(x1 - x0) - spec_abs(y1 - y0) }
}

/// The absolute value.
pub open spec fn spec_abs(a: int) -> int {
    if a < 0 {
        -a
    } else {
        a
    }
}

/// The direction from `a` to `b`: 1 where `b` is greater, else -1.
pub open spec fn spec_toward(a: int, b: int) -> int {
    if a < b {
        1
    } else {
        -1
    }
}

/// One step of a line towards `(x1, y1)`, where `dx` and `dy` are the
/// distances that the whole line covers along the axes: a step along x
/// where twice the error is at least `-dy`, a step along y where it is at
/// most `dx`, and both where both hold.
pub open spec fn spec_step(s: Stride, x1: int, y1: int, dx: int, dy: int) -> Stride {
    let e2 = 2 * s.err;
    let along_x = e2 >= -dy;
    let along_y = e2 <= dx;
    Stride {
        x: if along_x {
            s.x + spec_toward(s.x, x1)
        } else {
            s.x
        },
        y: if along_y {
            s.y + spec_toward(s.y, y1)
        } else {
            s.y
        },
        err: s.err + (if along_x {
            -dy
        } else {
            0
        }) + (if along_y {
            dx
        } else {
            0
        }),
    }
}

/// The pixels of a line from where `s` stands to `(x1, y1)`, at most
/// `fuel + 1` of them.
pub open spec fn spec_trace(s: Stride, x1: int, y1: int, dx: int, dy: int, fuel: nat) -> Seq<
    (int, int),
>
    decreases fuel,
{
    if (s.x == x1 && s.y == y1) || fuel == 0 {
        seq![(s.x, s.y)]
    } else {
        seq![(s.x, s.y)] + spec_trace(spec_step(s, x1, y1, dx, dy), x1, y1, dx, dy, (fuel - 1) as nat)
    }
}

/// The pixels of the line from `(x0, y0)` to `(x1, y1)`, in the order in
/// which they are drawn: the line of Bresenham.
pub open spec fn spec_line(x0: int, y0: int, x1: int, y1: int) -> Seq<(int, int)> {
    let dx = spec_abs(x1 - x0);
    let dy = spec_abs(y1 - y0);
    spec_trace(spec_start(x0, y0, x1, y1), x1, y1, dx, dy, (dx + dy) as nat)
}

/// The pixels of an image after the given pixels are painted in the given
/// colour, those outside the image left out.
pub open spec fn spec_paint(
    pixels: Map<(int, int), Color>,
    width: u32,
    height: u32,
    points: Seq<(int, int)>,
    color: Color,
) -> Map<(int, int), Color>
    decreases points.len(),
{
    if points.len() == 0 {
        pixels
    } else {
        let before = spec_paint(pixels, width, height, points.drop_last(), color);
        if spec_inside(width, height, points.last().0, points.last().1) {
            before.insert(points.last(), color)
        } else {
            before
        }
    }
}

/// Painting some pixels and then more is painting all of them.
pub proof fn lemma_paint_in_turn(
    pixels: Map<(int, int), Color>,
    width: u32,
    height: u32,
    first: Seq<(int, int)>,
    then: Seq<(int, int)>,
    color: Color,
)
    ensures
        spec_paint(spec_paint(pixels, width, height, first, color), width, height, then, color)
            == spec_paint(pixels, width, height, first + then, color),
    decreases then.len(),
{
    if then.len() == 0 {
        assert(first + then =~= first);
    } else {
        lemma_paint_in_turn(pixels, width, height, first, then.drop_last(), color);
        assert((first + then).drop_last() =~= first + then.drop_last());
    }
}

/// The pixel at which a column and a row of a segment's end fall: the
/// coordinates cut off behind the point, the row counted from the top of
/// an image of the given height.
pub open spec fn spec_pixel(p: Vector, height: u32) -> (int, int) {
    (p.x.spec_to_i32() as int, Scalar::spec_from_u32(height).spec_sub(p.y).spec_to_i32() as int)
}

/// The pixels of a path's segments up to its point `n`, segment by
/// segment.
pub open spec fn spec_path_pixels(path: Seq<Vector>, height: u32, n: nat) -> Seq<(int, int)>
    decreases n,
{
    if n == 0 {
        Seq::empty()
    } else {
        let a = spec_pixel(path[n - 1], height);
        let b = spec_pixel(path[n as int], height);
        spec_path_pixels(path, height, (n - 1) as nat) + spec_line(a.0, a.1, b.0, b.1)
    }
}

/// The pixels of all segments of a path.
pub open spec fn spec_all_path_pixels(path: Seq<Vector>, height: u32) -> Seq<(int, int)> {
    spec_path_pixels(
        path,
        height,
        (if path.len() > 0 {
            path.len() - 1
        } else {
            0
        }) as nat,
    )
}

/// The pixels of the segments of the first `n` paths.
pub open spec fn spec_paths_pixels(paths: Seq<Seq<Vector>>, height: u32, n: nat) -> Seq<(int, int)>
    decreases n,
{
    if n == 0 {
        Seq::empty()
    } else {
        spec_paths_pixels(paths, height, (n - 1) as nat) + spec_all_path_pixels(
            paths[n - 1],
            height,
        )
    }
}

impl Canvas {
    /// An image of the given size in one colour; `None` where the image
    /// does not fit into memory.
    pub fn new(width: u32, height: u32, color: Color) -> (r: Option<Canvas>)
        ensures
            match r {
                Some(canvas) => spec_fits(width, height) && canvas_width(canvas) == width
                    && canvas_height(canvas) == height && canvas_pixels(canvas) == spec_plain(
                    width,
                    height,
                    color,
                ),
                None => !spec_fits(width, height),
            },
    {
        assert(width * height <= 0xffff_ffff * 0xffff_ffff) by (nonlinear_arith)
            requires
                0 <= width <= 0xffff_ffff,
                0 <= height <= 0xffff_ffff,
        ;
        let area: u128 = (width as u128) * (height as u128);
        let bytes: u128 = 3 * area;
        assert(bytes == 3 * width * height) by (nonlinear_arith)
            requires
                bytes == 3 * (width * height),
        ;
        if bytes <= isize::MAX as u128 {
            Some(image_from_pixel(width, height, color))
        } else {
            None
        }
    }

    pub fn width(&self) -> (w: u32)
        ensures
            w == canvas_width(*self),
    {
        image_width(self)
    }

    pub fn height(&self) -> (h: u32)
        ensures
            h == canvas_height(*self),
    {
        image_height(self)
    }

    /// The colour of a pixel; `None` for a pixel outside the image.
    pub fn pixel(&self, x: u32, y: u32) -> (r: Option<Color>)
        ensures
            r == if spec_inside(canvas_width(*self), canvas_height(*self), x as int, y as int) {
                Some(canvas_pixels(*self)[(x as int, y as int)])
            } else {
                None
            },
    {
        if x < self.width() && y < self.height() {
            Some(image_get_pixel(self, x, y))
        } else {
            None
        }
    }

    /// The bytes of the image, row by row from the top, three to the
    /// pixel.
    pub fn into_raw(self) -> (bytes: Vec<u8>)
        ensures
            bytes@.len() == 3 * canvas_width(self) * canvas_height(self),
            forall|x: int, y: int|
                spec_inside(canvas_width(self), canvas_height(self), x, y) ==> {
                    let at = 3 * (y * canvas_width(self) + x);
                    let color = #[trigger] canvas_pixels(self)[(x, y)];
                    bytes@[at] == color.0 && bytes@[at + 1] == color.1 && bytes@[at + 2] == color.2
                },
    {
        image_into_raw(self)
    }

    /// Paints one pixel, if it lies in the image.
    fn plot(&mut self, x: i64, y: i64, color: Color)
        ensures
            canvas_width(*final(self)) == canvas_width(*old(self)),
            canvas_height(*final(self)) == canvas_height(*old(self)),
            canvas_pixels(*final(self)) == spec_paint(
                canvas_pixels(*old(self)),
                canvas_width(*old(self)),
                canvas_height(*old(self)),
                seq![(x as int, y as int)],
                color,
            ),
    {
        let w = self.width();
        let h = self.height();
        proof {
            let one = seq![(x as int, y as int)];
            let pixels = canvas_pixels(*self);
            assert(one.drop_last() =~= Seq::<(int, int)>::empty());
            assert(spec_paint(pixels, w, h, one.drop_last(), color) == pixels);
            assert(one.last() == (x as int, y as int));
        }
        if x >= 0 && x < w as i64 && y >= 0 && y < h as i64 {
            image_put_pixel(self, x as u32, y as u32, color);
        }
    }
}

/// Draws the line from `(x0, y0)` to `(x1, y1)` in the given colour. The
/// part of the line that lies outside the image is left out.
pub fn draw_line(canvas: &mut Canvas, x0: i32, y0: i32, x1: i32, y1: i32, color: Color)
    ensures
        canvas_width(*final(canvas)) == canvas_width(*old(canvas)),
        canvas_height(*final(canvas)) == canvas_height(*old(canvas)),
        canvas_pixels(*final(canvas)) == spec_paint(
            canvas_pixels(*old(canvas)),
            canvas_width(*old(canvas)),
            canvas_height(*old(canvas)),
            spec_line(x0 as int, y0 as int, x1 as int, y1 as int),
            color,
        ),
{
    let dx: i64 = if x1 >= x0 {
        x1 as i64 - x0 as i64
    } else {
        x0 as i64 - x1 as i64
    };
    let dy: i64 = if y1 >= y0 {
        y1 as i64 - y0 as i64
    } else {
        y0 as i64 - y1 as i64
    };
    let sx: i64 = if x0 < x1 {
        1
    } else {
        -1
    };
    let sy: i64 = if y0 < y1 {
        1
    } else {
        -1
    };
    let mut err: i128 = dx as i128 - dy as i128;
    let mut x: i64 = x0 as i64;
    let mut y: i64 = y0 as i64;
    // The steps taken along each axis, and their products with the
    // distance along the other.
    let ghost mut i: int = 0;
    let ghost mut j: int = 0;
    let ghost mut drawn: Seq<(int, int)> = Seq::empty();
    let ghost whole = spec_line(x0 as int, y0 as int, x1 as int, y1 as int);
    let ghost w = canvas_width(*canvas);
    let ghost h = canvas_height(*canvas);
    let ghost before = canvas_pixels(*canvas);
    proof {
        assert(i * dy == 0 && j * dx == 0) by (nonlinear_arith)
            requires
                i == 0,
                j == 0,
        ;
    }
    loop
        invariant_except_break
            0 <= dx <= 0xffff_ffff,
            0 <= dy <= 0xffff_ffff,
            dx == spec_abs(x1 - x0),
            dy == spec_abs(y1 - y0),
            sx == spec_toward(x0 as int, x1 as int),
            sy == spec_toward(y0 as int, y1 as int),
            0 <= i <= dx,
            0 <= j <= dy,
            x == x0 + sx * i,
            y == y0 + sy * j,
            err == dx - dy + j * dx - i * dy,
            whole == spec_line(x0 as int, y0 as int, x1 as int, y1 as int),
            whole == drawn + spec_trace(
                Stride { x: x as int, y: y as int, err: err as int },
                x1 as int,
                y1 as int,
                dx as int,
                dy as int,
                (dx - i + dy - j) as nat,
            ),
            canvas_width(*canvas) == w,
            canvas_height(*canvas) == h,
            canvas_pixels(*canvas) == spec_paint(before, w, h, drawn, color),
        ensures
            canvas_width(*canvas) == w,
            canvas_height(*canvas) == h,
            canvas_pixels(*canvas) == spec_paint(before, w, h, whole, color),
        decreases dx - i + dy - j,
    {
        let ghost here = Stride { x: x as int, y: y as int, err: err as int };
        let ghost fuel = (dx - i + dy - j) as nat;
        let ghost painted = canvas_pixels(*canvas);
        canvas.plot(x, y, color);
        proof {
            lemma_paint_in_turn(before, w, h, drawn, seq![(x as int, y as int)], color);
            assert(sx * i == if sx == 1 {
                i
            } else {
                -i
            }) by (nonlinear_arith)
                requires
                    sx == 1 || sx == -1,
            ;
            assert(sy * j == if sy == 1 {
                j
            } else {
                -j
            }) by (nonlinear_arith)
                requires
                    sy == 1 || sy == -1,
            ;
        }
        if x == x1 as i64 && y == y1 as i64 {
            proof {
                assert(spec_trace(here, x1 as int, y1 as int, dx as int, dy as int, fuel) =~= seq![
                    (x as int, y as int),
                ]);
            }
            break ;
        }
        proof {
            // The line is not at its end: a step is left along an axis.
            assert(i < dx || j < dy);
            assert(fuel > 0);
            // A step along x is taken only while steps along x are left...
            if 2 * err >= -dy && i == dx {
                assert(j < dy);
                assert((j + 1) * dx <= dy * dx) by (nonlinear_arith)
                    requires
                        j + 1 <= dy,
                        dx >= 0,
                ;
                assert((j + 1) * dx == j * dx + dx) by (nonlinear_arith);
                assert(i * dy == dx * dy) by (nonlinear_arith)
                    requires
                        i == dx,
                ;
                assert(dy * dx == dx * dy) by (nonlinear_arith);
                assert(false);
            }
            // ... and a step along y only while steps along y are left.
            if 2 * err <= dx && j == dy {
                assert(i < dx);
                assert((i + 1) * dy <= dx * dy) by (nonlinear_arith)
                    requires
                        i + 1 <= dx,
                        dy >= 0,
                ;
                assert((i + 1) * dy == i * dy + dy) by (nonlinear_arith);
                assert(j * dx == dy * dx) by (nonlinear_arith)
                    requires
                        j == dy,
                ;
                assert(dy * dx == dx * dy) by (nonlinear_arith);
                assert(false);
            }
            assert((i + 1) * dy == i * dy + dy) by (nonlinear_arith);
            assert((j + 1) * dx == j * dx + dx) by (nonlinear_arith);
            assert(sx * (i + 1) == sx * i + sx) by (nonlinear_arith);
            assert(sy * (j + 1) == sy * j + sy) by (nonlinear_arith);
            assert(i * dy <= dx * dy) by (nonlinear_arith)
                requires
                    0 <= i <= dx,
                    dy >= 0,
            ;
            assert(j * dx <= dy * dx) by (nonlinear_arith)
                requires
                    0 <= j <= dy,
                    dx >= 0,
            ;
            assert(dx * dy <= 0xffff_ffff * 0xffff_ffff) by (nonlinear_arith)
                requires
                    0 <= dx <= 0xffff_ffff,
                    0 <= dy <= 0xffff_ffff,
            ;
            assert(dy * dx == dx * dy) by (nonlinear_arith);
            assert(0 <= i * dy && 0 <= j * dx) by (nonlinear_arith)
                requires
                    0 <= i,
                    0 <= j,
                    0 <= dx,
                    0 <= dy,
            ;
            let next = spec_step(here, x1 as int, y1 as int, dx as int, dy as int);
            assert(spec_trace(here, x1 as int, y1 as int, dx as int, dy as int, fuel) == seq![
                (x as int, y as int),
            ] + spec_trace(next, x1 as int, y1 as int, dx as int, dy as int, (fuel - 1) as nat));
            assert(drawn + (seq![(x as int, y as int)] + spec_trace(
                next,
                x1 as int,
                y1 as int,
                dx as int,
                dy as int,
                (fuel - 1) as nat,
            )) =~= (drawn + seq![(x as int, y as int)]) + spec_trace(
                next,
                x1 as int,
                y1 as int,
                dx as int,
                dy as int,
                (fuel - 1) as nat,
            ));
            drawn = drawn + seq![(x as int, y as int)];
        }
        let e2 = 2 * err;
        let along_x = e2 >= -(dy as i128);
        let along_y = e2 <= dx as i128;
        if along_x {
            err = err - dy as i128;
            x = x + sx;
            proof {
                i = i + 1;
            }
        }
        if along_y {
            err = err + dx as i128;
            y = y + sy;
            proof {
                j = j + 1;
            }
        }
        proof {
            // With both steps taken the fuel may have gone down by two;
            // less fuel traces the same line.
            if along_x && along_y {
                lemma_trace_needs_no_more(
                    Stride { x: x as int, y: y as int, err: err as int },
                    x0 as int,
                    y0 as int,
                    x1 as int,
                    y1 as int,
                    i,
                    j,
                    (fuel - 1) as nat,
                );
            }
        }
    }
    proof {
        lemma_paint_in_turn(before, w, h, drawn, seq![(x as int, y as int)], color);
    }
}

/// Whether a line from `(x0, y0)` to `(x1, y1)` stands at `s` after `i`
/// steps along x and `j` steps along y.
pub open spec fn spec_on_line(s: Stride, x0: int, y0: int, x1: int, y1: int, i: int, j: int) -> bool {
    let dx = spec_abs(x1 - x0);
    let dy = spec_abs(y1 - y0);
    &&& 0 <= i <= dx
    &&& 0 <= j <= dy
    &&& s.x == x0 + spec_toward(x0, x1) * i
    &&& s.y == y0 + spec_toward(y0, y1) * j
    &&& s.err == dx - dy + j * dx - i * dy
}

/// A step of a line that is not at its end keeps it on the line, and
/// takes it further along at least one axis.
pub proof fn lemma_step_stays_on_line(s: Stride, x0: int, y0: int, x1: int, y1: int, i: int, j: int)
    requires
        spec_on_line(s, x0, y0, x1, y1, i, j),
        !(s.x == x1 && s.y == y1),
    ensures
        ({
            let dx = spec_abs(x1 - x0);
            let dy = spec_abs(y1 - y0);
            let next = spec_step(s, x1, y1, dx, dy);
            let ni = if 2 * s.err >= -dy {
                i + 1
            } else {
                i
            };
            let nj = if 2 * s.err <= dx {
                j + 1
            } else {
                j
            };
            spec_on_line(next, x0, y0, x1, y1, ni, nj) && ni + nj > i + j
        }),
{
    let dx = spec_abs(x1 - x0);
    let dy = spec_abs(y1 - y0);
    let sx = spec_toward(x0, x1);
    let sy = spec_toward(y0, y1);
    assert(sx * i == if sx == 1 {
        i
    } else {
        -i
    }) by (nonlinear_arith)
        requires
            sx == 1 || sx == -1,
    ;
    assert(sy * j == if sy == 1 {
        j
    } else {
        -j
    }) by (nonlinear_arith)
        requires
            sy == 1 || sy == -1,
    ;
    assert(i < dx || j < dy);
    if 2 * s.err >= -dy && i == dx {
        assert((j + 1) * dx <= dy * dx) by (nonlinear_arith)
            requires
                j + 1 <= dy,
                dx >= 0,
        ;
        assert((j + 1) * dx == j * dx + dx) by (nonlinear_arith);
        assert(i * dy == dx * dy) by (nonlinear_arith)
            requires
                i == dx,
        ;
        assert(dy * dx == dx * dy) by (nonlinear_arith);
        assert(false);
    }
    if 2 * s.err <= dx && j == dy {
        assert((i + 1) * dy <= dx * dy) by (nonlinear_arith)
            requires
                i + 1 <= dx,
                dy >= 0,
        ;
        assert((i + 1) * dy == i * dy + dy) by (nonlinear_arith);
        assert(j * dx == dy * dx) by (nonlinear_arith)
            requires
                j == dy,
        ;
        assert(dy * dx == dx * dy) by (nonlinear_arith);
        assert(false);
    }
    assert((i + 1) * dy == i * dy + dy) by (nonlinear_arith);
    assert((j + 1) * dx == j * dx + dx) by (nonlinear_arith);
    assert(sx * (i + 1) == sx * i + sx) by (nonlinear_arith);
    assert(sy * (j + 1) == sy * j + sy) by (nonlinear_arith);
}

/// A line that stands `n` steps from its end is traced in full by fuel
/// `n`, and more fuel traces the same.
pub proof fn lemma_trace_needs_no_more(
    s: Stride,
    x0: int,
    y0: int,
    x1: int,
    y1: int,
    i: int,
    j: int,
    fuel: nat,
)
    requires
        spec_on_line(s, x0, y0, x1, y1, i, j),
        fuel >= spec_abs(x1 - x0) - i + spec_abs(y1 - y0) - j,
    ensures
        spec_trace(s, x1, y1, spec_abs(x1 - x0), spec_abs(y1 - y0), fuel) == spec_trace(
            s,
            x1,
            y1,
            spec_abs(x1 - x0),
            spec_abs(y1 - y0),
            (spec_abs(x1 - x0) - i + spec_abs(y1 - y0) - j) as nat,
        ),
        spec_trace(s, x1, y1, spec_abs(x1 - x0), spec_abs(y1 - y0), fuel).last() == (x1, y1),
    decreases spec_abs(x1 - x0) - i + spec_abs(y1 - y0) - j,
{
    let dx = spec_abs(x1 - x0);
    let dy = spec_abs(y1 - y0);
    let sx = spec_toward(x0, x1);
    let sy = spec_toward(y0, y1);
    let left = (dx - i + dy - j) as nat;
    assert(sx * i == if sx == 1 {
        i
    } else {
        -i
    }) by (nonlinear_arith)
        requires
            sx == 1 || sx == -1,
    ;
    assert(sy * j == if sy == 1 {
        j
    } else {
        -j
    }) by (nonlinear_arith)
        requires
            sy == 1 || sy == -1,
    ;
    if s.x == x1 && s.y == y1 {
    } else {
        assert(left > 0);
        lemma_step_stays_on_line(s, x0, y0, x1, y1, i, j);
        let next = spec_step(s, x1, y1, dx, dy);
        let ni = if 2 * s.err >= -dy {
            i + 1
        } else {
            i
        };
        let nj = if 2 * s.err <= dx {
            j + 1
        } else {
            j
        };
        lemma_trace_needs_no_more(next, x0, y0, x1, y1, ni, nj, (fuel - 1) as nat);
        lemma_trace_needs_no_more(next, x0, y0, x1, y1, ni, nj, (left - 1) as nat);
    }
}

/// The line of Bresenham begins at its first end and ends at its second.
pub proof fn lemma_line_joins_its_ends(x0: int, y0: int, x1: int, y1: int)
    ensures
        spec_line(x0, y0, x1, y1)[0] == (x0, y0),
        spec_line(x0, y0, x1, y1).last() == (x1, y1),
{
    let dx = spec_abs(x1 - x0);
    let dy = spec_abs(y1 - y0);
    assert(0 * dx == 0 && 0 * dy == 0 && spec_toward(x0, x1) * 0 == 0 && spec_toward(y0, y1) * 0
        == 0) by (nonlinear_arith);
    lemma_trace_needs_no_more(spec_start(x0, y0, x1, y1), x0, y0, x1, y1, 0, 0, (dx + dy) as nat);
}

impl Paths {
    /// The image of the paths on a white ground, `width` by `height`
    /// pixels: each segment is drawn in black from the pixel of its first
    /// end to the pixel of its second, rows counted from the top. `None`
    /// where the image does not fit into memory.
    pub fn to_image(&self, width: Scalar, height: Scalar) -> (r: Option<Canvas>)
        ensures
            match r {
                Some(canvas) => {
                    &&& spec_fits(width.spec_to_u32(), height.spec_to_u32())
                    &&& canvas_width(canvas) == width.spec_to_u32()
                    &&& canvas_height(canvas) == height.spec_to_u32()
                    &&& canvas_pixels(canvas) == spec_paint(
                        spec_plain(width.spec_to_u32(), height.spec_to_u32(), WHITE),
                        width.spec_to_u32(),
                        height.spec_to_u32(),
                        spec_paths_pixels(self@, height.spec_to_u32(), self@.len()),
                        BLACK,
                    )
                },
                None => !spec_fits(width.spec_to_u32(), height.spec_to_u32()),
            },
    {
        let w = width.to_u32();
        let h = height.to_u32();
        let mut canvas = match Canvas::new(w, h, WHITE) {
            Some(canvas) => canvas,
            None => {
                return None;
            },
        };
        let ghost ground = spec_plain(w, h, WHITE);
        let mut k: usize = 0;
        assert(spec_paint(ground, w, h, Seq::<(int, int)>::empty(), BLACK) == ground);
        while k < self.paths.len()
            invariant
                k <= self.paths.len(),
                canvas_width(canvas) == w,
                canvas_height(canvas) == h,
                ground == spec_plain(w, h, WHITE),
                canvas_pixels(canvas) == spec_paint(
                    ground,
                    w,
                    h,
                    spec_paths_pixels(self@, h, k as nat),
                    BLACK,
                ),
            decreases self.paths.len() - k,
        {
            let path = &self.paths[k];
            let ghost done = spec_paths_pixels(self@, h, k as nat);
            let segments: usize = if path.len() > 0 {
                path.len() - 1
            } else {
                0
            };
            let mut n: usize = 0;
            assert(done + spec_path_pixels(path@, h, 0) =~= done);
            while n < segments
                invariant
                    n <= segments,
                    segments == if path.len() > 0 {
                        path.len() - 1
                    } else {
                        0
                    },
                    canvas_width(canvas) == w,
                    canvas_height(canvas) == h,
                    canvas_pixels(canvas) == spec_paint(
                        ground,
                        w,
                        h,
                        done + spec_path_pixels(path@, h, n as nat),
                        BLACK,
                    ),
                decreases segments - n,
            {
                let a = path[n];
                let b = path[n + 1];
                let rows = Scalar::from_u32(h);
                let ghost so_far = done + spec_path_pixels(path@, h, n as nat);
                let ghost a_at = spec_pixel(a, h);
                let ghost b_at = spec_pixel(b, h);
                draw_line(
                    &mut canvas,
                    a.x.to_i32(),
                    rows.sub(a.y).to_i32(),
                    b.x.to_i32(),
                    rows.sub(b.y).to_i32(),
                    BLACK,
                );
                proof {
                    let line = spec_line(a_at.0, a_at.1, b_at.0, b_at.1);
                    lemma_paint_in_turn(ground, w, h, so_far, line, BLACK);
                    assert(so_far + line =~= done + spec_path_pixels(path@, h, (n + 1) as nat));
                }
                n += 1;
            }
            assert(self@[k as int] == path@);
            k += 1;
        }
        Some(canvas)
    }
}

} // verus!
