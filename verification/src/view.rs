//! Typed view geometry.  A view names the encoding, the full extents of the
//! image it was derived from, and the (possibly cropped) window that
//! iteration covers.  The same geometry serves all three storage kinds, so
//! the numeric engine never knows which one backs a view.

use vstd::arithmetic::div_mod::lemma_fundamental_div_mod_converse;
use vstd::prelude::*;

use crate::crop::CropRect;
use crate::encoding::PixelEncoding;

verus! {

/// Byte offset of the first byte of the pixel at column `x`, row `y` of an
/// image `img_width` pixels wide whose pixels are `bw` bytes each.
pub open spec fn spec_pixel_start(img_width: int, bw: int, x: int, y: int) -> int {
    (y * img_width + x) * bw
}

/// The `bw` bytes of the pixel at column `x`, row `y`.
pub open spec fn spec_pixel_bytes(data: Seq<u8>, img_width: int, bw: int, x: int, y: int) -> Seq<
    u8,
> {
    data.subrange(spec_pixel_start(img_width, bw, x, y), spec_pixel_start(img_width, bw, x, y) + bw)
}

/// Column of the pixel that byte `i` of the backing buffer belongs to.
pub open spec fn spec_byte_col(i: int, img_width: int, bw: int) -> int {
    (i / bw) % img_width
}

/// Row of the pixel that byte `i` of the backing buffer belongs to.
pub open spec fn spec_byte_row(i: int, img_width: int, bw: int) -> int {
    (i / bw) / img_width
}

/// Whether byte `i` of the backing buffer lies inside the window `rect` of
/// an image `img_width` pixels wide with `bw`-byte pixels.
pub open spec fn spec_rect_contains_byte(rect: CropRect, img_width: int, bw: int, i: int) -> bool {
    &&& rect.left <= spec_byte_col(i, img_width, bw) < rect.left + rect.width
    &&& rect.top <= spec_byte_row(i, img_width, bw) < rect.top + rect.height
}

/// Every byte of the pixel at column `x`, row `y` carries exactly those
/// pixel coordinates.
pub proof fn lemma_byte_of_pixel_coords(img_width: int, bw: int, x: int, y: int, i: int)
    requires
        0 < img_width,
        0 < bw,
        0 <= x < img_width,
        0 <= y,
        spec_pixel_start(img_width, bw, x, y) <= i < spec_pixel_start(img_width, bw, x, y) + bw,
    ensures
        spec_byte_col(i, img_width, bw) == x,
        spec_byte_row(i, img_width, bw) == y,
{
    let p = y * img_width + x;
    let k = i - p * bw;
    lemma_fundamental_div_mod_converse(i, bw, p, k);
    lemma_fundamental_div_mod_converse(p, img_width, y, x);
}

/// The byte range of any pixel inside the image lies inside the backing
/// allocation.
pub proof fn lemma_pixel_in_bounds(img_width: int, img_height: int, bw: int, x: int, y: int)
    requires
        0 < img_width,
        0 < img_height,
        0 < bw,
        0 <= x < img_width,
        0 <= y < img_height,
    ensures
        0 <= spec_pixel_start(img_width, bw, x, y),
        spec_pixel_start(img_width, bw, x, y) + bw <= img_width * img_height * bw,
{
    assert(0 <= (y * img_width + x) * bw && (y * img_width + x) * bw + bw <= img_width * img_height
        * bw) by (nonlinear_arith)
        requires
            0 <= x < img_width,
            0 <= y < img_height,
            0 < bw,
    ;
}

/// Two images of equal size whose bytes agree on every byte of the pixel at
/// (`x`, `y`) hold the same bytes for that pixel.
pub proof fn lemma_pixel_bytes_agree(d1: Seq<u8>, d2: Seq<u8>, img_width: int, bw: int, x: int, y: int)
    requires
        d1.len() == d2.len(),
        0 < img_width,
        0 < bw,
        0 <= x < img_width,
        0 <= y,
        0 <= spec_pixel_start(img_width, bw, x, y),
        spec_pixel_start(img_width, bw, x, y) + bw <= d1.len(),
        forall|i: int|
            0 <= i < d1.len() && spec_byte_col(i, img_width, bw) == x && spec_byte_row(
                i,
                img_width,
                bw,
            ) == y ==> d2[i] == d1[i],
    ensures
        spec_pixel_bytes(d2, img_width, bw, x, y) == spec_pixel_bytes(d1, img_width, bw, x, y),
{
    let start = spec_pixel_start(img_width, bw, x, y);
    let p1 = spec_pixel_bytes(d1, img_width, bw, x, y);
    let p2 = spec_pixel_bytes(d2, img_width, bw, x, y);
    assert forall|k: int| 0 <= k < bw implies p2[k] == p1[k] by {
        assert(p2[k] == d2[start + k]);
        assert(p1[k] == d1[start + k]);
        lemma_byte_of_pixel_coords(img_width, bw, x, y, start + k);
    }
    assert(p2 =~= p1);
}

/// A typed window over one image: the active encoding, the image's full
/// extents, and the rectangle that iteration covers.
#[derive(Clone, Copy, Debug, PartialEq, Eq, Structural)]
pub struct TypedView {
    /// The encoding the view was issued for.
    pub encoding: PixelEncoding,
    /// Full width of the underlying image, in pixels.
    pub img_width: u32,
    /// Full height of the underlying image, in pixels.
    pub img_height: u32,
    /// The window that iteration covers; at most the full extents.
    pub rect: CropRect,
}

impl TypedView {
    /// The view is well formed: positive extents and a window fully inside
    /// them.
    pub open spec fn spec_wf(self) -> bool {
        &&& self.img_width > 0
        &&& self.img_height > 0
        &&& self.rect.spec_valid_for(self.img_width as int, self.img_height as int)
    }

    /// The full-image view for an encoding and extents.
    pub open spec fn spec_full(encoding: PixelEncoding, img_width: u32, img_height: u32) -> Self {
        TypedView {
            encoding,
            img_width,
            img_height,
            rect: CropRect::spec_full(img_width, img_height),
        }
    }

    /// Number of rows that iteration over the view visits.
    pub fn row_count(&self) -> (n: u32)
        ensures
            n == self.rect.height,
    {
        self.rect.height
    }

    /// Number of pixels in each visited row.
    pub fn row_len(&self) -> (n: u32)
        ensures
            n == self.rect.width,
    {
        self.rect.width
    }

    /// The encoding the view was issued for.
    pub fn encoding(&self) -> (e: PixelEncoding)
        ensures
            e == self.encoding,
    {
        self.encoding
    }

    /// Narrows this view to a validated crop rectangle: the new view covers
    /// exactly `rect`, never more.
    pub fn cropped_to(&self, rect: CropRect) -> (v: TypedView)
        requires
            rect.spec_valid_for(self.img_width as int, self.img_height as int),
        ensures
            v == (TypedView { rect, ..*self }),
    {
        TypedView { rect, ..*self }
    }
}

} // verus!
