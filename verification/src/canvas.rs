//! The finished pixel buffer as an image of the `image` crate.
//!
//! The crate's image type cannot be named in a contract, so it is kept
//! inside `Canvas`, and its pixels are spoken of as `canvas_rows`.

use vstd::prelude::*;
use crate::color::ColorType;
use crate::pixel::PixelBuffer;

verus! {

/// An image of the `image` crate, three 8-bit channels to the pixel.
#[verifier::external_body]
pub struct Canvas {
    img: image::RgbImage,
}

/// The pixels of an image: its rows from the top, each from the left, each
/// pixel as red, green and blue.
pub uninterp spec fn canvas_rows(canvas: Canvas) -> Seq<Seq<(u8, u8, u8)>>;

/// A colour as red, green and blue.
pub open spec fn triple(c: ColorType) -> (u8, u8, u8) {
    (c.r, c.g, c.b)
}

/// The number of pixels in the first of the rows; zero when there is none.
pub open spec fn row_width(rows: Seq<Seq<(u8, u8, u8)>>) -> int {
    if rows.len() == 0 {
        0
    } else {
        rows[0].len() as int
    }
}

/// `image::ImageBuffer::new`: an image of the given width and height with
/// every channel of every pixel zero. It panics when the number of channels
/// in a row, or in the image, does not fit in `usize`.
#[verifier::external_body]
fn canvas_new(width: u32, height: u32) -> (canvas: Canvas)
    requires
        3 * width <= usize::MAX,
        3 * width * height <= usize::MAX,
    ensures
        canvas_rows(canvas).len() == height,
        forall|y: int| 0 <= y < height ==> (#[trigger] canvas_rows(canvas)[y]).len() == width,
        forall|x: int, y: int|
            0 <= x < width && 0 <= y < height ==> #[trigger] canvas_rows(canvas)[y][x] == (
                0u8,
                0u8,
                0u8,
            ),
{
    Canvas { img: image::RgbImage::new(width, height) }
}

/// `image::ImageBuffer::height`: the number of rows.
#[verifier::external_body]
fn canvas_height(canvas: &Canvas) -> (height: u32)
    ensures
        height == canvas_rows(*canvas).len(),
{
    canvas.img.height()
}

/// `image::ImageBuffer::width`: the number of pixels in every row.
#[verifier::external_body]
fn canvas_width(canvas: &Canvas) -> (width: u32)
    ensures
        forall|y: int|
            0 <= y < canvas_rows(*canvas).len() ==> (#[trigger] canvas_rows(*canvas)[y]).len()
                == width,
{
    canvas.img.width()
}

/// `image::ImageBuffer::get_pixel`: the pixel in column `x` of row `y`. It
/// panics outside the image.
#[verifier::external_body]
fn canvas_get(canvas: &Canvas, x: u32, y: u32) -> (c: ColorType)
    requires
        y < canvas_rows(*canvas).len(),
        x < canvas_rows(*canvas)[y as int].len(),
    ensures
        triple(c) == canvas_rows(*canvas)[y as int][x as int],
{
    let p = canvas.img.get_pixel(x, y);
    ColorType { r: p.0[0], g: p.0[1], b: p.0[2] }
}

/// `image::ImageBuffer::put_pixel`: replaces the pixel in column `x` of row
/// `y` and no other. It panics outside the image.
#[verifier::external_body]
fn canvas_put(canvas: &mut Canvas, x: u32, y: u32, c: ColorType)
    requires
        y < canvas_rows(*old(canvas)).len(),
        x < canvas_rows(*old(canvas))[y as int].len(),
    ensures
        canvas_rows(*final(canvas)) == canvas_rows(*old(canvas)).update(
            y as int,
            canvas_rows(*old(canvas))[y as int].update(x as int, triple(c)),
        ),
{
    canvas.img.put_pixel(x, y, image::Rgb([c.r, c.g, c.b]));
}

/// `image::ImageBuffer::into_raw`: the channels of the image as it holds
/// them, row after row, pixel after pixel, red, green, blue.
#[verifier::external_body]
fn canvas_into_raw(canvas: Canvas) -> (bytes: Vec<u8>)
    ensures
        is_raw_of(bytes@, canvas_rows(canvas)),
{
    canvas.img.into_raw()
}

/// Whether `bytes` are the channels of the rows, row after row, pixel after
/// pixel, red, green, blue.
pub open spec fn is_raw_of(bytes: Seq<u8>, rows: Seq<Seq<(u8, u8, u8)>>) -> bool {
    &&& bytes.len() == 3 * row_width(rows) * rows.len()
    &&& forall|x: int, y: int|
        0 <= y < rows.len() && 0 <= x < row_width(rows) ==> {
            &&& bytes[3 * (y * row_width(rows) + x)] == (#[trigger] rows[y][x]).0
            &&& bytes[3 * (y * row_width(rows) + x) + 1] == rows[y][x].1
            &&& bytes[3 * (y * row_width(rows) + x) + 2] == rows[y][x].2
        }
}

/// The rows of a pixel buffer as an image would hold them.
pub open spec fn rows_of(buffer: PixelBuffer) -> Seq<Seq<(u8, u8, u8)>> {
    Seq::new(
        buffer.height as nat,
        |y: int| Seq::new(buffer.width as nat, |x: int| triple(buffer@[y][x])),
    )
}

/// Whether an image can have these dimensions: both fit in 32 bits, and the
/// channels in `usize`.
pub open spec fn fits(width: usize, height: usize) -> bool {
    &&& width <= u32::MAX
    &&& height <= u32::MAX
    &&& 3 * width <= usize::MAX
    &&& 3 * width * height <= usize::MAX
}

/// Whether an image can have these dimensions.
pub fn can_hold(width: usize, height: usize) -> (r: bool)
    ensures
        r == fits(width, height),
{
    if width > 0xffff_ffff || height > 0xffff_ffff {
        return false;
    }
    let row: u128 = 3u128 * (width as u128);
    if row > usize::MAX as u128 {
        return false;
    }
    assert(row * (height as u128) <= 0xffff_ffff_ffff_ffff_ffff) by (nonlinear_arith)
        requires
            row <= 3 * 0xffff_ffff,
            height <= 0xffff_ffff,
    ;
    assert(row * (height as u128) == 3 * width * height) by (nonlinear_arith)
        requires
            row == 3 * width,
    ;
    row * (height as u128) <= usize::MAX as u128
}

/// The image with the pixels of the buffer, pixel for pixel; none when an
/// image cannot have the buffer's dimensions.
pub fn to_image(buffer: &PixelBuffer) -> (made: Option<Canvas>)
    requires
        buffer.wf(),
    ensures
        made is Some <==> fits(buffer.width, buffer.height),
        made is Some ==> canvas_rows(made->Some_0) == rows_of(*buffer),
{
    if !can_hold(buffer.width, buffer.height) {
        return None;
    }
    let width: u32 = buffer.width as u32;
    let height: u32 = buffer.height as u32;
    let mut canvas = canvas_new(width, height);
    let mut y: u32 = 0;
    while y < height
        invariant
            buffer.wf(),
            width == buffer.width,
            height == buffer.height,
            y <= height,
            canvas_rows(canvas).len() == height,
            forall|j: int| 0 <= j < height ==> (#[trigger] canvas_rows(canvas)[j]).len() == width,
            forall|i: int, j: int|
                0 <= i < width && 0 <= j < y ==> #[trigger] canvas_rows(canvas)[j][i] == triple(
                    buffer@[j][i],
                ),
        decreases height - y,
    {
        let mut x: u32 = 0;
        while x < width
            invariant
                buffer.wf(),
                width == buffer.width,
                height == buffer.height,
                y < height,
                x <= width,
                canvas_rows(canvas).len() == height,
                forall|j: int| 0 <= j < height ==> (#[trigger] canvas_rows(canvas)[j]).len() == width,
                forall|i: int, j: int|
                    0 <= i < width && (0 <= j < y || (j == y && i < x))
                        ==> #[trigger] canvas_rows(canvas)[j][i] == triple(buffer@[j][i]),
            decreases width - x,
        {
            let c = buffer.get(x as usize, y as usize);
            canvas_put(&mut canvas, x, y, c);
            x += 1;
        }
        y += 1;
    }
    proof {
        assert forall|j: int| 0 <= j < height implies canvas_rows(canvas)[j] == rows_of(
            *buffer,
        )[j] by {}
    }
    Some(canvas)
}

/// The channels of an image in the order in which a file of it lists them.
pub fn into_bytes(canvas: Canvas) -> (bytes: Vec<u8>)
    ensures
        is_raw_of(bytes@, canvas_rows(canvas)),
{
    canvas_into_raw(canvas)
}

/// The pixel in column `x` of row `y` of an image; none outside it.
pub fn pixel_of(canvas: &Canvas, x: u32, y: u32) -> (found: Option<ColorType>)
    ensures
        found is Some <==> y < canvas_rows(*canvas).len() && x < canvas_rows(*canvas)[y as int].len(),
        found is Some ==> triple(found->Some_0) == canvas_rows(*canvas)[y as int][x as int],
{
    if y < canvas_height(canvas) && x < canvas_width(canvas) {
        Some(canvas_get(canvas, x, y))
    } else {
        None
    }
}

} // verus!
