//! The owned image buffer: an image backed by a single contiguous
//! allocation that it exclusively owns.  Views are derived by slicing rows
//! out of the buffer; all mutation goes through the read-write operations
//! issued against a view.

use vstd::prelude::*;

use crate::crop::CropRect;
use crate::encoding::{lemma_byte_width_positive, PixelEncoding};
use crate::error::ImageError;
use crate::view::{
    lemma_byte_of_pixel_coords, lemma_pixel_bytes_agree, lemma_pixel_in_bounds, spec_byte_col,
    spec_byte_row, spec_pixel_bytes, spec_pixel_start, spec_rect_contains_byte, TypedView,
};

verus! {

/// Number of bytes an image of the given extents and encoding occupies.
pub open spec fn spec_required_bytes(width: u32, height: u32, encoding: PixelEncoding) -> int {
    width * height * encoding.spec_byte_width()
}

/// Mathematical model of an owned image buffer.
pub ghost struct ImageModel {
    /// Width in pixels.
    pub width: int,
    /// Height in pixels.
    pub height: int,
    /// The encoding active for the image's lifetime.
    pub encoding: PixelEncoding,
    /// The backing bytes, row-major, tightly packed.
    pub data: Seq<u8>,
}

impl ImageModel {
    /// Width in bytes of one pixel.
    pub open spec fn bw(self) -> int {
        self.encoding.spec_byte_width() as int
    }

    /// The model is well formed: positive extents and a backing allocation
    /// sized exactly to them.
    pub open spec fn wf(self) -> bool {
        &&& self.width > 0
        &&& self.height > 0
        &&& self.data.len() == self.width * self.height * self.bw()
    }

    /// The bytes of the pixel at column `x`, row `y` of the full image.
    pub open spec fn pixel(self, x: int, y: int) -> Seq<u8> {
        spec_pixel_bytes(self.data, self.width, self.bw(), x, y)
    }

    /// `v` is a view issued by this image: same encoding, same extents, and
    /// a well-formed window.
    pub open spec fn described_by(self, v: TypedView) -> bool {
        &&& v.encoding == self.encoding
        &&& v.img_width == self.width
        &&& v.img_height == self.height
        &&& v.spec_wf()
    }
}

/// An image backed by a contiguous byte allocation it exclusively owns.
pub struct ImageBuffer {
    pub(crate) width: u32,
    pub(crate) height: u32,
    pub(crate) encoding: PixelEncoding,
    pub(crate) data: Vec<u8>,
}

impl View for ImageBuffer {
    type V = ImageModel;

    closed spec fn view(&self) -> ImageModel {
        ImageModel {
            width: self.width as int,
            height: self.height as int,
            encoding: self.encoding,
            data: self.data@,
        }
    }
}

impl ImageBuffer {
    /// Creates an owned image of `width` by `height` pixels of `encoding`.
    ///
    /// A zero extent, or one whose byte size cannot be addressed, is
    /// rejected with `InvalidDimension`.  When `bytes` is supplied it must
    /// hold at least the required number of bytes — shorter input is
    /// rejected with `BufferTooSmall`, excess bytes are ignored.  Without
    /// `bytes` the buffer is zero-filled.
    pub fn create(width: u32, height: u32, encoding: PixelEncoding, bytes: Option<Vec<u8>>) -> (r:
        Result<ImageBuffer, ImageError>)
        ensures
            (width == 0 || height == 0) ==> r == Err::<ImageBuffer, ImageError>(
                ImageError::InvalidDimension,
            ),
            (width > 0 && height > 0 && spec_required_bytes(width, height, encoding) > usize::MAX)
                ==> r == Err::<ImageBuffer, ImageError>(ImageError::InvalidDimension),
            (width > 0 && height > 0 && spec_required_bytes(width, height, encoding) <= usize::MAX)
                ==> match bytes {
                Option::None => r is Ok,
                Option::Some(b) => (r is Ok <==> b@.len() >= spec_required_bytes(
                    width,
                    height,
                    encoding,
                )) && (r is Err ==> r == Err::<ImageBuffer, ImageError>(ImageError::BufferTooSmall)),
            },
            r matches Ok(img) ==> {
                &&& img@.wf()
                &&& img@.width == width
                &&& img@.height == height
                &&& img@.encoding == encoding
                &&& img@.data.len() == spec_required_bytes(width, height, encoding)
            },
            r matches Ok(img) ==> {
                &&& bytes matches Some(b) ==> img@.data == b@.take(
                    spec_required_bytes(width, height, encoding),
                )
                &&& bytes is None ==> forall|i: int|
                    0 <= i < img@.data.len() ==> img@.data[i] == 0u8
            },
    {
        if width == 0 || height == 0 {
            return Err(ImageError::InvalidDimension);
        }
        let bw = encoding.byte_width();
        let pixels = match (width as usize).checked_mul(height as usize) {
            Some(p) => p,
            None => {
                proof {
                    assert(width * height * encoding.spec_byte_width() >= width * height)
                        by (nonlinear_arith)
                        requires
                            encoding.spec_byte_width() >= 1,
                            width as int >= 0,
                            height as int >= 0,
                    ;
                }
                return Err(ImageError::InvalidDimension);
            },
        };
        let required = match pixels.checked_mul(bw) {
            Some(n) => n,
            None => {
                return Err(ImageError::InvalidDimension);
            },
        };
        match bytes {
            Some(mut b) => {
                if b.len() < required {
                    return Err(ImageError::BufferTooSmall);
                }
                b.truncate(required);
                Ok(ImageBuffer { width, height, encoding, data: b })
            },
            None => {
                let data: Vec<u8> = zero_filled(required);
                Ok(ImageBuffer { width, height, encoding, data })
            },
        }
    }

    /// Width of the image in pixels.
    pub fn width(&self) -> (w: u32)
        ensures
            w == self@.width,
    {
        self.width
    }

    /// Height of the image in pixels.
    pub fn height(&self) -> (h: u32)
        ensures
            h == self@.height,
    {
        self.height
    }

    /// The encoding active for the image.
    pub fn encoding(&self) -> (e: PixelEncoding)
        ensures
            e == self@.encoding,
    {
        self.encoding
    }

    /// Size of the backing allocation in bytes.
    pub fn byte_len(&self) -> (n: usize)
        ensures
            n == self@.data.len(),
    {
        self.data.len()
    }

    /// A defensive, fully independent copy of the backing bytes.
    pub fn raw_bytes(&self) -> (r: Vec<u8>)
        ensures
            r@ == self@.data,
    {
        let r = self.data.clone();
        proof {
            assert forall|i: int| 0 <= i < self.data@.len() implies r@[i] == self.data@[i] by {
                assert(cloned(self.data@[i], r@[i]));
            }
            assert(r@ =~= self.data@);
        }
        r
    }

    /// An immutable full-image view: its row count equals the image height
    /// and each row holds exactly the image width in pixels.
    pub fn read_view(&self) -> (v: TypedView)
        requires
            self@.wf(),
        ensures
            self@.described_by(v),
            v.encoding == self@.encoding,
            v.img_width == self@.width,
            v.img_height == self@.height,
            v.rect.left == 0,
            v.rect.top == 0,
            v.rect.width == self@.width,
            v.rect.height == self@.height,
    {
        TypedView {
            encoding: self.encoding,
            img_width: self.width,
            img_height: self.height,
            rect: CropRect::full(self.width, self.height),
        }
    }

    /// A read-write full-image view.  Taking it borrows the buffer
    /// exclusively, so no read view can coexist with it outside the
    /// engine's locking discipline.
    pub fn write_view(&mut self) -> (v: TypedView)
        requires
            old(self)@.wf(),
        ensures
            *final(self) == *old(self),
            final(self)@.described_by(v),
            v.encoding == old(self)@.encoding,
            v.img_width == old(self)@.width,
            v.img_height == old(self)@.height,
            v.rect.left == 0,
            v.rect.top == 0,
            v.rect.width == old(self)@.width,
            v.rect.height == old(self)@.height,
    {
        TypedView {
            encoding: self.encoding,
            img_width: self.width,
            img_height: self.height,
            rect: CropRect::full(self.width, self.height),
        }
    }

    /// Derives the typed view for a requested encoding, threading an
    /// optional crop window through it.
    ///
    /// A request for an encoding other than the stored one fails with
    /// `EncodingMismatch` — there is no implicit conversion.  A crop window
    /// that is empty or not fully inside the image bounds fails with
    /// `InvalidCropBox`.
    pub fn view_for(&self, encoding: PixelEncoding, crop: Option<CropRect>) -> (r: Result<
        TypedView,
        ImageError,
    >)
        requires
            self@.wf(),
        ensures
            encoding != self@.encoding ==> r == Err::<TypedView, ImageError>(
                ImageError::EncodingMismatch,
            ),
            encoding == self@.encoding && crop is None ==> (r matches Ok(v) && v.rect.left == 0
                && v.rect.top == 0 && v.rect.width == self@.width && v.rect.height == self@.height),
            crop matches Some(c) ==> (encoding == self@.encoding ==> (if c.spec_valid_for(
                self@.width,
                self@.height,
            ) {
                r matches Ok(v) && v.rect == c
            } else {
                r == Err::<TypedView, ImageError>(ImageError::InvalidCropBox)
            })),
            r matches Ok(v) ==> self@.described_by(v),
    {
        if encoding != self.encoding {
            return Err(ImageError::EncodingMismatch);
        }
        let full = TypedView {
            encoding,
            img_width: self.width,
            img_height: self.height,
            rect: CropRect::full(self.width, self.height),
        };
        match crop {
            None => Ok(full),
            Some(c) => {
                let rect = c.validate_for(self.width, self.height)?;
                Ok(full.cropped_to(rect))
            },
        }
    }
}

impl ImageBuffer {
    /// Byte offset of the pixel at window column `x`, row `y` of `v`, and
    /// proof that the whole pixel lies inside the buffer.
    fn pixel_offset(&self, v: &TypedView, x: u32, y: u32) -> (o: usize)
        requires
            self@.wf(),
            self@.described_by(*v),
            x < v.rect.width,
            y < v.rect.height,
        ensures
            o == spec_pixel_start(self@.width, self@.bw(), v.rect.left + x, v.rect.top + y),
            o + self@.bw() <= self@.data.len(),
    {
        let col = v.rect.left + x;
        let row = v.rect.top + y;
        let bw = self.encoding.byte_width();
        let n = self.data.len();
        proof {
            let w = self@.width;
            let h = self@.height;
            let b = self@.bw();
            assert((row * w + col) * b + b <= w * h * b && row * w <= (row * w + col) * b && row * w
                + col <= (row * w + col) * b) by (nonlinear_arith)
                requires
                    0 <= col < w,
                    0 <= row < h,
                    0 < b,
            ;
            assert(0 <= (row * w + col) * b) by (nonlinear_arith)
                requires
                    0 <= col,
                    0 <= row,
                    0 <= w,
                    0 < b,
            ;
            assert(n == w * h * b);
        }
        (row as usize * self.width as usize + col as usize) * bw
    }

    /// Reads the bytes of the pixel at window column `x`, row `y` of `v`.
    pub fn read_pixel(&self, v: &TypedView, x: u32, y: u32) -> (px: Vec<u8>)
        requires
            self@.wf(),
            self@.described_by(*v),
            x < v.rect.width,
            y < v.rect.height,
        ensures
            px@ == self@.pixel(v.rect.left + x, v.rect.top + y),
            px@.len() == self@.bw(),
    {
        let o = self.pixel_offset(v, x, y);
        let bw = self.encoding.byte_width();
        let n = self.data.len();
        let mut px: Vec<u8> = Vec::new();
        let mut k: usize = 0;
        while k < bw
            invariant
                k <= bw,
                o + bw <= n,
                n == self.spec_data_seq().len(),
                px@.len() == k,
                forall|j: int| 0 <= j < k ==> px@[j] == self.spec_data_seq()[o + j],
            decreases bw - k,
        {
            px.push(self.data[o + k]);
            k += 1;
        }
        proof {
            assert(px@ =~= self@.data.subrange(o as int, o + bw));
        }
        px
    }

    /// The backing byte sequence, for internal specifications.
    pub closed spec fn spec_data_seq(&self) -> Seq<u8> {
        self.data@
    }

    /// Reads the bytes of row `y` of a view's window: the pixels from the
    /// window's left edge to its right edge, in order.
    pub fn read_row(&self, v: &TypedView, y: u32) -> (row: Vec<u8>)
        requires
            self@.wf(),
            self@.described_by(*v),
            y < v.rect.height,
        ensures
            row@.len() == v.rect.width * self@.bw(),
            row@ == self@.data.subrange(
                spec_pixel_start(self@.width, self@.bw(), v.rect.left as int, v.rect.top + y),
                spec_pixel_start(self@.width, self@.bw(), v.rect.left as int, v.rect.top + y)
                    + v.rect.width * self@.bw(),
            ),
    {
        let o = self.pixel_offset(v, 0, y);
        let bw = self.encoding.byte_width();
        let n = self.data.len();
        proof {
            let w = self@.width;
            let h = self@.height;
            let b = self@.bw();
            let l = v.rect.left as int;
            let t = v.rect.top as int;
            assert(((t + y) * w + l) * b + v.rect.width * b <= w * h * b) by (nonlinear_arith)
                requires
                    0 <= l,
                    l + v.rect.width <= w,
                    0 <= t + y < h,
                    0 < b,
                    0 < w,
            ;
        }
        let len = v.rect.width as usize * bw;
        let mut row: Vec<u8> = Vec::new();
        let mut k: usize = 0;
        while k < len
            invariant
                k <= len,
                o + len <= n,
                n == self.spec_data_seq().len(),
                row@.len() == k,
                forall|j: int| 0 <= j < k ==> row@[j] == self.spec_data_seq()[o + j],
            decreases len - k,
        {
            row.push(self.data[o + k]);
            k += 1;
        }
        proof {
            assert(row@ =~= self@.data.subrange(o as int, o + len));
        }
        row
    }

    /// Overwrites the pixel at window column `x`, row `y` of `v` with the
    /// supplied bytes; every byte of every other pixel is untouched.
    pub fn write_pixel(&mut self, v: &TypedView, x: u32, y: u32, px: &Vec<u8>)
        requires
            old(self)@.wf(),
            old(self)@.described_by(*v),
            x < v.rect.width,
            y < v.rect.height,
            px@.len() == old(self)@.bw(),
        ensures
            final(self)@.wf(),
            final(self)@.width == old(self)@.width,
            final(self)@.height == old(self)@.height,
            final(self)@.encoding == old(self)@.encoding,
            final(self)@.data.len() == old(self)@.data.len(),
            final(self)@.pixel(v.rect.left + x, v.rect.top + y) == px@,
            forall|i: int|
                0 <= i < final(self)@.data.len() && !(spec_byte_col(
                    i,
                    old(self)@.width,
                    old(self)@.bw(),
                ) == v.rect.left + x && spec_byte_row(i, old(self)@.width, old(self)@.bw())
                    == v.rect.top + y) ==> final(self)@.data[i] == old(self)@.data[i],
    {
        let o = self.pixel_offset(v, x, y);
        let bw = self.encoding.byte_width();
        let n = self.data.len();
        let ghost orig = self@;
        let mut k: usize = 0;
        while k < bw
            invariant
                k <= bw,
                px@.len() == bw,
                o + bw <= n,
                n == self.spec_data_seq().len(),
                self@.width == orig.width,
                self@.height == orig.height,
                self@.encoding == orig.encoding,
                self.spec_data_seq().len() == orig.data.len(),
                forall|j: int| 0 <= j < k ==> self.spec_data_seq()[o + j] == px@[j],
                forall|i: int|
                    0 <= i < orig.data.len() && !(o <= i < o + k) ==> self.spec_data_seq()[i]
                        == orig.data[i],
            decreases bw - k,
        {
            let b = px[k];
            self.data.set(o + k, b);
            k += 1;
        }
        proof {
            let w = orig.width;
            let b = orig.bw();
            let cx = v.rect.left + x;
            let cy = v.rect.top + y;
            assert(o == spec_pixel_start(w, b, cx, cy));
            assert forall|k2: int| 0 <= k2 < b implies self@.data[o + k2] == px@[k2] by {}
            assert(self@.data.subrange(o as int, o + b) =~= px@);
            assert(self@.pixel(cx, cy) == px@);
            assert forall|i: int|
                0 <= i < self@.data.len() && !(spec_byte_col(i, w, b) == cx && spec_byte_row(
                    i,
                    w,
                    b,
                ) == cy) implies self@.data[i] == orig.data[i] by {
                if o <= i < o + b {
                    lemma_byte_of_pixel_coords(w, b, cx, cy, i);
                }
            }
        }
    }
}

/// Copies one row of the source window onto the same row of the
/// destination window, pixel by pixel; every byte outside that row of the
/// destination window is untouched.
fn copy_row(src: &ImageBuffer, sv: &TypedView, dst: &mut ImageBuffer, dv: &TypedView, y: u32)
    requires
        src@.wf(),
        old(dst)@.wf(),
        src@.described_by(*sv),
        old(dst)@.described_by(*dv),
        sv.encoding == dv.encoding,
        sv.rect.width == dv.rect.width,
        y < dv.rect.height,
        y < sv.rect.height,
    ensures
        final(dst)@.wf(),
        final(dst)@.width == old(dst)@.width,
        final(dst)@.height == old(dst)@.height,
        final(dst)@.encoding == old(dst)@.encoding,
        final(dst)@.data.len() == old(dst)@.data.len(),
        forall|cx: int, cy: int|
            dv.rect.left <= cx < dv.rect.left + dv.rect.width && cy == dv.rect.top + y
                ==> final(dst)@.pixel(cx, cy) == src@.pixel(
                sv.rect.left + (cx - dv.rect.left),
                sv.rect.top + y,
            ),
        forall|i: int|
            0 <= i < final(dst)@.data.len() && !(spec_byte_row(
                i,
                old(dst)@.width,
                old(dst)@.bw(),
            ) == dv.rect.top + y && dv.rect.left <= spec_byte_col(
                i,
                old(dst)@.width,
                old(dst)@.bw(),
            ) < dv.rect.left + dv.rect.width) ==> final(dst)@.data[i] == old(dst)@.data[i],
{
    let w = dv.rect.width;
    let ghost orig = dst@;
    let mut x: u32 = 0;
    while x < w
        invariant
            x <= w,
            src@.wf(),
            dst@.wf(),
            src@.described_by(*sv),
            dst@.described_by(*dv),
            sv.encoding == dv.encoding,
            sv.rect.width == dv.rect.width,
            w == dv.rect.width,
            y < dv.rect.height,
            y < sv.rect.height,
            dst@.width == orig.width,
            dst@.height == orig.height,
            dst@.encoding == orig.encoding,
            dst@.data.len() == orig.data.len(),
            forall|cx: int, cy: int|
                dv.rect.left <= cx < dv.rect.left + x && cy == dv.rect.top + y ==> dst@.pixel(
                    cx,
                    cy,
                ) == src@.pixel(sv.rect.left + (cx - dv.rect.left), sv.rect.top + y),
            forall|i: int|
                0 <= i < orig.data.len() && !(spec_byte_row(i, orig.width, orig.bw())
                    == dv.rect.top + y && dv.rect.left <= spec_byte_col(i, orig.width, orig.bw())
                    < dv.rect.left + x) ==> dst@.data[i] == orig.data[i],
        decreases w - x,
    {
        let px = src.read_pixel(sv, x, y);
        let ghost before = dst@;
        dst.write_pixel(dv, x, y, &px);
        proof {
            let wv = orig.width;
            let b = orig.bw();
            lemma_byte_width_positive(orig.encoding);
            let l = dv.rect.left as int;
            let t = dv.rect.top as int;
            let tx = l + x;
            let ty = t + y;
            assert forall|cx: int, cy: int| l <= cx < l + x + 1 && cy == ty implies dst@.pixel(
                cx,
                cy,
            ) == src@.pixel(sv.rect.left + (cx - l), sv.rect.top + y) by {
                if cx < l + x {
                    assert(before.pixel(cx, ty) == src@.pixel(
                        sv.rect.left + (cx - l),
                        sv.rect.top + y,
                    ));
                    lemma_pixel_in_bounds(wv, orig.height, b, cx, ty);
                    assert(forall|i: int|
                        0 <= i < before.data.len() && spec_byte_col(i, wv, b) == cx
                            && spec_byte_row(i, wv, b) == ty ==> dst@.data[i] == before.data[i]);
                    lemma_pixel_bytes_agree(before.data, dst@.data, wv, b, cx, ty);
                    assert(dst@.pixel(cx, ty) == before.pixel(cx, ty));
                } else {
                    assert(cx == tx && cy == ty);
                    assert(dst@.pixel(tx, ty) == px@);
                    assert(px@ == src@.pixel(sv.rect.left + x, sv.rect.top + y));
                }
            }
            assert forall|i: int|
                0 <= i < orig.data.len() && !(spec_byte_row(i, wv, b) == ty && l <= spec_byte_col(
                    i,
                    wv,
                    b,
                ) < l + x + 1) implies dst@.data[i] == orig.data[i] by {}
        }
        x += 1;
    }
}

impl ImageBuffer {
    /// Copies the source window of `src` onto the destination window of
    /// `dst`, one pixel at a time through the two views.
    ///
    /// The windows must share their encoding (else `EncodingMismatch`) and
    /// their extents (else `InvalidDimension`); on success every pixel of
    /// the destination window holds the bytes of the corresponding source
    /// pixel and every byte outside the destination window is untouched.
    pub fn copy_view(src: &ImageBuffer, sv: &TypedView, dst: &mut ImageBuffer, dv: &TypedView) -> (r:
        Result<(), ImageError>)
        requires
            src@.wf(),
            old(dst)@.wf(),
            src@.described_by(*sv),
            old(dst)@.described_by(*dv),
        ensures
            final(dst)@.wf(),
            final(dst)@.width == old(dst)@.width,
            final(dst)@.height == old(dst)@.height,
            final(dst)@.encoding == old(dst)@.encoding,
            final(dst)@.data.len() == old(dst)@.data.len(),
            r is Ok <==> (sv.encoding == dv.encoding && sv.rect.width == dv.rect.width
                && sv.rect.height == dv.rect.height),
            sv.encoding != dv.encoding ==> r == Err::<(), ImageError>(ImageError::EncodingMismatch),
            sv.encoding == dv.encoding && !(sv.rect.width == dv.rect.width && sv.rect.height
                == dv.rect.height) ==> r == Err::<(), ImageError>(ImageError::InvalidDimension),
            r is Err ==> final(dst)@ == old(dst)@,
            r is Ok ==> forall|cx: int, cy: int|
                dv.rect.left <= cx < dv.rect.left + dv.rect.width && dv.rect.top <= cy
                    < dv.rect.top + dv.rect.height ==> final(dst)@.pixel(cx, cy) == src@.pixel(
                    sv.rect.left + (cx - dv.rect.left),
                    sv.rect.top + (cy - dv.rect.top),
                ),
            r is Ok ==> forall|i: int|
                0 <= i < final(dst)@.data.len() && !spec_rect_contains_byte(
                    dv.rect,
                    old(dst)@.width,
                    old(dst)@.bw(),
                    i,
                ) ==> final(dst)@.data[i] == old(dst)@.data[i],
    {
        if sv.encoding() != dv.encoding() {
            return Err(ImageError::EncodingMismatch);
        }
        if sv.row_len() != dv.row_len() || sv.row_count() != dv.row_count() {
            return Err(ImageError::InvalidDimension);
        }
        let h = dv.rect.height;
        let ghost orig = dst@;
        let mut y: u32 = 0;
        while y < h
            invariant
                y <= h,
                src@.wf(),
                dst@.wf(),
                src@.described_by(*sv),
                dst@.described_by(*dv),
                sv.encoding == dv.encoding,
                sv.rect.width == dv.rect.width,
                sv.rect.height == dv.rect.height,
                h == dv.rect.height,
                dst@.width == orig.width,
                dst@.height == orig.height,
                dst@.encoding == orig.encoding,
                dst@.data.len() == orig.data.len(),
                forall|cx: int, cy: int|
                    dv.rect.left <= cx < dv.rect.left + dv.rect.width && dv.rect.top <= cy
                        < dv.rect.top + y ==> dst@.pixel(cx, cy) == src@.pixel(
                        sv.rect.left + (cx - dv.rect.left),
                        sv.rect.top + (cy - dv.rect.top),
                    ),
                forall|i: int|
                    0 <= i < orig.data.len() && !(dv.rect.left <= spec_byte_col(
                        i,
                        orig.width,
                        orig.bw(),
                    ) < dv.rect.left + dv.rect.width && dv.rect.top <= spec_byte_row(
                        i,
                        orig.width,
                        orig.bw(),
                    ) < dv.rect.top + y) ==> dst@.data[i] == orig.data[i],
            decreases h - y,
        {
            let ghost before = dst@;
            copy_row(src, sv, dst, dv, y);
            proof {
                let wv = orig.width;
                let b = orig.bw();
                lemma_byte_width_positive(orig.encoding);
                let l = dv.rect.left as int;
                let t = dv.rect.top as int;
                let ty = t + y;
                assert forall|cx: int, cy: int|
                    l <= cx < l + dv.rect.width && t <= cy < t + y + 1 implies dst@.pixel(cx, cy)
                    == src@.pixel(
                    sv.rect.left + (cx - l),
                    sv.rect.top + (cy - t),
                ) by {
                    if cy < ty {
                        assert(before.pixel(cx, cy) == src@.pixel(
                            sv.rect.left + (cx - l),
                            sv.rect.top + (cy - t),
                        ));
                        lemma_pixel_in_bounds(wv, orig.height, b, cx, cy);
                        assert(forall|i: int|
                            0 <= i < before.data.len() && spec_byte_col(i, wv, b) == cx
                                && spec_byte_row(i, wv, b) == cy ==> dst@.data[i]
                                == before.data[i]);
                        lemma_pixel_bytes_agree(before.data, dst@.data, wv, b, cx, cy);
                        assert(dst@.pixel(cx, cy) == before.pixel(cx, cy));
                    } else {
                        assert(cy == ty);
                        assert(dst@.pixel(cx, cy) == src@.pixel(
                            sv.rect.left + (cx - l),
                            sv.rect.top + y,
                        ));
                    }
                }
                assert forall|i: int|
                    0 <= i < orig.data.len() && !(l <= spec_byte_col(i, wv, b) < l + dv.rect.width
                        && t <= spec_byte_row(i, wv, b) < t + y + 1) implies dst@.data[i]
                    == orig.data[i] by {}
            }
            y += 1;
        }
        Ok(())
    }
}

/// A zero-filled byte vector of the requested length.
fn zero_filled(n: usize) -> (r: Vec<u8>)
    ensures
        r@.len() == n,
        forall|i: int| 0 <= i < n ==> r@[i] == 0u8,
{
    let r: Vec<u8> = vec![0u8; n];
    proof {
        assert forall|i: int| 0 <= i < n implies r@[i] == 0u8 by {
            assert(cloned(0u8, r@[i]));
        }
    }
    r
}

} // verus!
