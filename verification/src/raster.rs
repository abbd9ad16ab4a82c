//! Pictures as rows of red-green-blue pixels.

use crate::backend::overlay_rgb;
use crate::error::PipelineError;
use vstd::arithmetic::div_mod::*;
use vstd::prelude::*;

verus! {

/// One pixel: red, green and blue, eight bits each.
#[derive(Clone, Copy, Debug, PartialEq, Eq, Structural)]
pub struct Rgb {
    pub r: u8,
    pub g: u8,
    pub b: u8,
}

/// The mathematical picture: its size in pixels and its bytes, row after row
/// from the top, three bytes (red, green, blue) for each pixel.
pub struct Raster {
    pub width: nat,
    pub height: nat,
    pub data: Seq<u8>,
}

impl Raster {
    /// The picture of the given size that holds the given bytes.
    pub open spec fn of(width: u32, height: u32, data: Seq<u8>) -> Raster {
        Raster { width: width as nat, height: height as nat, data }
    }

    /// The picture has at least one pixel and exactly the bytes of its pixels.
    pub open spec fn wf(self) -> bool {
        &&& self.width >= 1
        &&& self.height >= 1
        &&& self.data.len() == 3 * (self.width * self.height)
    }

    /// Whether column `x` of row `y` lies inside the picture.
    pub open spec fn contains(self, x: int, y: int) -> bool {
        0 <= x < self.width && 0 <= y < self.height
    }

    /// Where the bytes of the pixel in column `x` of row `y` begin.
    pub open spec fn offset(self, x: int, y: int) -> int {
        3 * (y * self.width + x)
    }

    /// The pixel in column `x` of row `y`.
    pub open spec fn pixel(self, x: int, y: int) -> Rgb {
        Rgb {
            r: self.data[self.offset(x, y)],
            g: self.data[self.offset(x, y) + 1],
            b: self.data[self.offset(x, y) + 2],
        }
    }

    /// Every pixel of the picture is a shade of gray: its red, green and
    /// blue are equal.
    pub open spec fn is_gray(self) -> bool {
        forall|x: int, y: int|
            self.contains(x, y) ==> {
                let shade = #[trigger] self.pixel(x, y);
                shade.r == shade.g && shade.g == shade.b
            }
    }
}

/// The bytes of every pixel inside a well-formed picture lie inside its data.
pub proof fn lemma_offset_in_bounds(image: Raster, x: int, y: int)
    requires
        image.wf(),
        image.contains(x, y),
    ensures
        0 <= y * image.width + x < image.width * image.height,
        0 <= image.offset(x, y),
        image.offset(x, y) + 2 < image.data.len(),
{
    let w = image.width as int;
    let h = image.height as int;
    assert(0 <= y * w) by (nonlinear_arith)
        requires
            0 <= y,
            0 <= w,
    ;
    assert(y * w + w <= w * h) by (nonlinear_arith)
        requires
            0 <= y < h,
            0 <= w,
    ;
}

/// Every byte of a well-formed picture belongs to one channel of one pixel
/// inside it: byte `k` is channel `k % 3` of the pixel in column
/// `(k / 3) % width` of row `(k / 3) / width`.
pub proof fn lemma_byte_is_in_a_pixel(image: Raster, k: int)
    requires
        image.wf(),
        0 <= k < image.data.len(),
    ensures
        image.contains((k / 3) % (image.width as int), (k / 3) / (image.width as int)),
        0 <= k % 3 < 3,
        image.offset((k / 3) % (image.width as int), (k / 3) / (image.width as int)) + k % 3 == k,
{
    let w = image.width as int;
    let h = image.height as int;
    let p = k / 3;
    lemma_fundamental_div_mod(k, 3);
    lemma_mod_pos_bound(k, 3);
    lemma_div_pos_is_pos(k, 3);
    assert(p < w * h);
    lemma_fundamental_div_mod(p, w);
    lemma_mod_pos_bound(p, w);
    lemma_div_pos_is_pos(p, w);
    lemma_multiply_divide_lt(p, w, h);
    assert(w * (p / w) == (p / w) * w) by (nonlinear_arith);
}

/// Channel `c` of the pixel in column `x` of row `y` is one byte of the
/// picture, and that byte leads back to the same column, row and channel.
pub proof fn lemma_pixel_is_in_the_bytes(image: Raster, x: int, y: int, c: int)
    requires
        image.wf(),
        image.contains(x, y),
        0 <= c < 3,
    ensures
        0 <= image.offset(x, y) + c < image.data.len(),
        (image.offset(x, y) + c) % 3 == c,
        ((image.offset(x, y) + c) / 3) % (image.width as int) == x,
        ((image.offset(x, y) + c) / 3) / (image.width as int) == y,
{
    let w = image.width as int;
    let p = y * w + x;
    lemma_offset_in_bounds(image, x, y);
    assert(image.offset(x, y) + c == p * 3 + c);
    lemma_fundamental_div_mod_converse(image.offset(x, y) + c, 3, p, c);
    lemma_fundamental_div_mod_converse(p, w, y, x);
}

/// Two pictures of one size that agree on every pixel have the same bytes.
pub proof fn lemma_same_pixels_same_picture(one: Raster, other: Raster)
    requires
        one.wf(),
        other.wf(),
        one.width == other.width,
        one.height == other.height,
        forall|x: int, y: int|
            one.contains(x, y) ==> #[trigger] one.pixel(x, y) == other.pixel(x, y),
    ensures
        one == other,
{
    assert forall|k: int| 0 <= k < one.data.len() implies one.data[k] == other.data[k] by {
        let x = (k / 3) % (one.width as int);
        let y = (k / 3) / (one.width as int);
        lemma_byte_is_in_a_pixel(one, k);
        assert(one.pixel(x, y) == other.pixel(x, y));
        assert(one.offset(x, y) == other.offset(x, y));
    }
    assert(one.data =~= other.data);
}

/// Whether `top` is no wider and no taller than `bottom`.
pub open spec fn fits(top: Raster, bottom: Raster) -> bool {
    top.width <= bottom.width && top.height <= bottom.height
}

/// Whether column `x` of row `y` lies in the rectangle that `top` covers when
/// its top-left corner is put at column `x0` of row `y0`.
pub open spec fn covered(top: Raster, x0: int, y0: int, x: int, y: int) -> bool {
    x0 <= x < x0 + top.width && y0 <= y < y0 + top.height
}

/// `bottom` with `top` laid over it, the top-left corner of `top` at column
/// `x0` of row `y0`: inside that rectangle the bytes of `top`, elsewhere those
/// of `bottom`.
pub open spec fn overlaid(bottom: Raster, top: Raster, x0: int, y0: int) -> Raster {
    Raster {
        width: bottom.width,
        height: bottom.height,
        data: Seq::new(
            bottom.data.len(),
            |k: int|
                {
                    let x = (k / 3) % (bottom.width as int);
                    let y = (k / 3) / (bottom.width as int);
                    if covered(top, x0, y0, x, y) {
                        top.data[top.offset(x - x0, y - y0) + k % 3]
                    } else {
                        bottom.data[k]
                    }
                },
        ),
    }
}

/// `bottom` with `top` laid flush into its bottom-right corner.
pub open spec fn overlaid_in_corner(bottom: Raster, top: Raster) -> Raster {
    overlaid(bottom, top, bottom.width - top.width, bottom.height - top.height)
}

/// Laying one picture over another changes no size, and each pixel of the
/// result is the pixel of `top` where `top` covers it and the pixel of
/// `bottom` elsewhere.
pub proof fn lemma_overlaid_pixel(bottom: Raster, top: Raster, x0: int, y0: int, x: int, y: int)
    requires
        bottom.wf(),
        top.wf(),
        0 <= x0,
        0 <= y0,
        x0 + top.width <= bottom.width,
        y0 + top.height <= bottom.height,
        bottom.contains(x, y),
    ensures
        overlaid(bottom, top, x0, y0).wf(),
        overlaid(bottom, top, x0, y0).pixel(x, y) == if covered(top, x0, y0, x, y) {
            top.pixel(x - x0, y - y0)
        } else {
            bottom.pixel(x, y)
        },
{
    let after = overlaid(bottom, top, x0, y0);
    assert(after.offset(x, y) == bottom.offset(x, y));
    lemma_pixel_is_in_the_bytes(bottom, x, y, 0);
    lemma_pixel_is_in_the_bytes(bottom, x, y, 1);
    lemma_pixel_is_in_the_bytes(bottom, x, y, 2);
    if covered(top, x0, y0, x, y) {
        lemma_offset_in_bounds(top, x - x0, y - y0);
    }
}

/// Laying `top` into the corner of `bottom` gives a picture of the size of
/// `bottom`.
pub proof fn lemma_overlay_keeps_the_size(bottom: Raster, top: Raster)
    requires
        bottom.wf(),
        top.wf(),
        fits(top, bottom),
    ensures
        overlaid_in_corner(bottom, top).width == bottom.width,
        overlaid_in_corner(bottom, top).height == bottom.height,
        overlaid_in_corner(bottom, top).wf(),
{
}

/// Laid into the corner, the top-left pixel of `top` comes to lie in column
/// `bottom.width - top.width` of row `bottom.height - top.height`, and every
/// pixel of `top` keeps its place relative to it.
pub proof fn lemma_overlay_puts_top_in_corner(bottom: Raster, top: Raster, i: int, j: int)
    requires
        bottom.wf(),
        top.wf(),
        fits(top, bottom),
        top.contains(i, j),
    ensures
        overlaid_in_corner(bottom, top).pixel(
            bottom.width - top.width + i,
            bottom.height - top.height + j,
        ) == top.pixel(i, j),
{
    lemma_overlaid_pixel(
        bottom,
        top,
        bottom.width - top.width,
        bottom.height - top.height,
        bottom.width - top.width + i,
        bottom.height - top.height + j,
    );
}

/// Laid into the corner, `top` changes no pixel of `bottom` to the left of
/// or above that corner.
pub proof fn lemma_overlay_keeps_the_rest(bottom: Raster, top: Raster, x: int, y: int)
    requires
        bottom.wf(),
        top.wf(),
        fits(top, bottom),
        bottom.contains(x, y),
        x < bottom.width - top.width || y < bottom.height - top.height,
    ensures
        overlaid_in_corner(bottom, top).pixel(x, y) == bottom.pixel(x, y),
{
    lemma_overlaid_pixel(
        bottom,
        top,
        bottom.width - top.width,
        bottom.height - top.height,
        x,
        y,
    );
}

/// A picture held in memory: never empty, eight bits per channel, no alpha.
#[derive(Debug, PartialEq, Eq)]
pub struct RasterImage {
    width: u32,
    height: u32,
    data: Vec<u8>,
}

impl View for RasterImage {
    type V = Raster;

    closed spec fn view(&self) -> Raster {
        Raster { width: self.width as nat, height: self.height as nat, data: self.data@ }
    }
}

impl Clone for RasterImage {
    fn clone(&self) -> (copy: Self)
        ensures
            copy@ == self@,
    {
        proof {
            use_type_invariant(self);
        }
        let data = self.data.clone();
        assert(data@ =~= self.data@);
        RasterImage { width: self.width, height: self.height, data }
    }
}

impl RasterImage {
    #[verifier::type_invariant]
    pub open spec fn well_formed(self) -> bool {
        self@.wf()
    }

    /// Builds a picture from its size and its bytes; `None` where a side is
    /// zero or the bytes are not exactly three for each pixel.
    pub fn new(width: u32, height: u32, data: Vec<u8>) -> (made: Option<RasterImage>)
        ensures
            made is Some <==> Raster::of(width, height, data@).wf(),
            made matches Some(image) ==> image@ == Raster::of(width, height, data@),
    {
        if width == 0 || height == 0 {
            return None;
        }
        assert((width as u128) * (height as u128) <= 0xFFFF_FFFF * 0xFFFF_FFFF)
            by (nonlinear_arith);
        let pixels: u128 = (width as u128) * (height as u128);
        let need: u128 = 3 * pixels;
        if data.len() as u128 != need {
            return None;
        }
        Some(RasterImage { width, height, data })
    }

    /// The number of pixels in a row.
    pub fn width(&self) -> (w: u32)
        ensures
            w == self@.width,
            self@.wf(),
    {
        proof {
            use_type_invariant(self);
        }
        self.width
    }

    /// The number of rows.
    pub fn height(&self) -> (h: u32)
        ensures
            h == self@.height,
            self@.wf(),
    {
        proof {
            use_type_invariant(self);
        }
        self.height
    }

    /// The bytes of the picture, row after row, three for each pixel.
    pub fn as_bytes(&self) -> (bytes: &Vec<u8>)
        ensures
            bytes@ == self@.data,
            self@.wf(),
    {
        proof {
            use_type_invariant(self);
        }
        &self.data
    }

    /// The pixel in column `x` of row `y`, or `None` outside the picture.
    pub fn pixel(&self, x: u32, y: u32) -> (found: Option<Rgb>)
        ensures
            found == if self@.contains(x as int, y as int) {
                Some(self@.pixel(x as int, y as int))
            } else {
                None
            },
    {
        if x >= self.width || y >= self.height {
            return None;
        }
        let len: usize = self.data.len();
        proof {
            use_type_invariant(self);
            lemma_offset_in_bounds(self@, x as int, y as int);
            assert(3 * (y * self.width + x) + 2 < len);
            assert(0 <= y * self.width) by (nonlinear_arith)
                requires
                    0 <= y,
                    0 <= self.width,
            ;
        }
        let row: usize = y as usize * self.width as usize;
        let at: usize = 3 * (row + x as usize);
        Some(Rgb { r: self.data[at], g: self.data[at + 1], b: self.data[at + 2] })
    }
}

/// Lays `top` over `bottom`, flush into its bottom-right corner: the top-left
/// pixel of `top` comes to lie in column `bottom.width - top.width` of row
/// `bottom.height - top.height`. Where `top` is wider or taller than `bottom`
/// nothing is changed and the call fails.
pub fn do_overlay(bottom: &mut RasterImage, top: &RasterImage) -> (done: Result<
    (),
    PipelineError,
>)
    ensures
        done is Ok <==> fits(top@, old(bottom)@),
        done is Ok ==> final(bottom)@ == overlaid_in_corner(old(bottom)@, top@),
        done matches Err(error) ==> error == PipelineError::CompositorPrecondition,
        done is Err ==> final(bottom)@ == old(bottom)@,
        final(bottom)@.wf(),
{
    proof {
        use_type_invariant(&*bottom);
        use_type_invariant(top);
    }
    if top.width > bottom.width || top.height > bottom.height {
        return Err(PipelineError::CompositorPrecondition);
    }
    let x: u32 = bottom.width - top.width;
    let y: u32 = bottom.height - top.height;
    let ghost before = bottom@;
    let data = overlay_rgb(
        &bottom.data,
        bottom.width,
        bottom.height,
        &top.data,
        top.width,
        top.height,
        x,
        y,
    );
    bottom.data = data;
    proof {
        let after = bottom@;
        let expected = overlaid_in_corner(before, top@);
        assert(after == Raster::of(bottom.width, bottom.height, bottom.data@));
        assert(before == Raster::of(bottom.width, bottom.height, before.data));
        assert(top@ == Raster::of(top.width, top.height, top.data@));
        assert forall|px: int, py: int| after.contains(px, py) implies #[trigger] after.pixel(
            px,
            py,
        ) == expected.pixel(px, py) by {
            lemma_overlaid_pixel(before, top@, x as int, y as int, px, py);
        }
        lemma_overlaid_pixel(before, top@, x as int, y as int, 0, 0);
        lemma_same_pixels_same_picture(after, expected);
    }
    Ok(())
}

} // verus!
