//! The foreign row-pointer buffer: an image whose rows live behind an
//! externally supplied table of row base addresses.  This layer owns none
//! of the pixel bytes; it only keeps the table and the geometry, and hands
//! each row's address out for the caller to dereference.  That the
//! addresses stay valid for the lifetime of every derived view is a caller
//! obligation this component cannot check.

use vstd::prelude::*;

use crate::crop::CropRect;
use crate::encoding::PixelEncoding;
use crate::error::ImageError;
use crate::view::TypedView;

verus! {

/// An image addressed through a table of externally owned row base
/// addresses, one per row.
pub struct ForeignRowBuffer {
    width: u32,
    height: u32,
    encoding: PixelEncoding,
    row_addrs: Vec<u64>,
}

impl ForeignRowBuffer {
    /// The buffer is well formed: positive extents and one address per row.
    pub open spec fn wf(self) -> bool {
        &&& self.spec_width() > 0
        &&& self.spec_height() > 0
        &&& self.spec_row_addrs().len() == self.spec_height()
    }

    /// The stored width.
    pub closed spec fn spec_width(self) -> u32 {
        self.width
    }

    /// The stored height.
    pub closed spec fn spec_height(self) -> u32 {
        self.height
    }

    /// The stored encoding.
    pub closed spec fn spec_encoding(self) -> PixelEncoding {
        self.encoding
    }

    /// The stored table of row base addresses.
    pub closed spec fn spec_row_addrs(self) -> Seq<u64> {
        self.row_addrs@
    }

    /// Builds a foreign row-pointer buffer from supplied geometry and row
    /// addresses.
    ///
    /// Zero extents are rejected with `InvalidDimension`; a table with
    /// fewer addresses than rows with `BufferTooSmall`.  Excess addresses
    /// are ignored.
    pub fn new(width: u32, height: u32, encoding: PixelEncoding, row_addrs: Vec<u64>) -> (r: Result<
        ForeignRowBuffer,
        ImageError,
    >)
        ensures
            (width == 0 || height == 0) ==> r == Err::<ForeignRowBuffer, ImageError>(
                ImageError::InvalidDimension,
            ),
            width > 0 && height > 0 && row_addrs@.len() < height ==> r == Err::<
                ForeignRowBuffer,
                ImageError,
            >(ImageError::BufferTooSmall),
            width > 0 && height > 0 && row_addrs@.len() >= height ==> r is Ok,
            r matches Ok(b) ==> {
                &&& b.wf()
                &&& b.spec_width() == width
                &&& b.spec_height() == height
                &&& b.spec_encoding() == encoding
                &&& b.spec_row_addrs() == row_addrs@.take(height as int)
            },
    {
        if width == 0 || height == 0 {
            return Err(ImageError::InvalidDimension);
        }
        let mut row_addrs = row_addrs;
        if row_addrs.len() < height as usize {
            return Err(ImageError::BufferTooSmall);
        }
        row_addrs.truncate(height as usize);
        Ok(ForeignRowBuffer { width, height, encoding, row_addrs })
    }

    /// Width of the image in pixels.
    pub fn width(&self) -> (w: u32)
        ensures
            w == self.spec_width(),
    {
        self.width
    }

    /// Height of the image in pixels.
    pub fn height(&self) -> (h: u32)
        ensures
            h == self.spec_height(),
    {
        self.height
    }

    /// The encoding active for the image.
    pub fn encoding(&self) -> (e: PixelEncoding)
        ensures
            e == self.spec_encoding(),
    {
        self.encoding
    }

    /// Derives the typed view for a requested encoding, threading an
    /// optional crop window through it.  The contract matches the owned
    /// buffer's: `EncodingMismatch` on any other encoding, `InvalidCropBox`
    /// on a window outside the bounds.
    pub fn view_for(&self, encoding: PixelEncoding, crop: Option<CropRect>) -> (r: Result<
        TypedView,
        ImageError,
    >)
        requires
            self.wf(),
        ensures
            encoding != self.spec_encoding() ==> r == Err::<TypedView, ImageError>(
                ImageError::EncodingMismatch,
            ),
            encoding == self.spec_encoding() && crop is None ==> r == Ok::<TypedView, ImageError>(
                TypedView::spec_full(encoding, self.spec_width(), self.spec_height()),
            ),
            crop matches Some(c) ==> (encoding == self.spec_encoding() ==> (if c.spec_valid_for(
                self.spec_width() as int,
                self.spec_height() as int,
            ) {
                r == Ok::<TypedView, ImageError>(
                    TypedView {
                        encoding,
                        img_width: self.spec_width(),
                        img_height: self.spec_height(),
                        rect: c,
                    },
                )
            } else {
                r == Err::<TypedView, ImageError>(ImageError::InvalidCropBox)
            })),
            r matches Ok(v) ==> {
                &&& v.spec_wf()
                &&& v.encoding == self.spec_encoding()
                &&& v.img_width == self.spec_width()
                &&& v.img_height == self.spec_height()
            },
    {
        if encoding != self.encoding {
            return Err(ImageError::EncodingMismatch);
        }
        let full = TypedView {
            encoding,
            img_width: self.width,
            img_height: self.height,
            rect: CropRect::full(self.width, self.height),
        };
        match crop {
            None => Ok(full),
            Some(c) => {
                let rect = c.validate_for(self.width, self.height)?;
                Ok(full.cropped_to(rect))
            },
        }
    }

    /// Base address of one row of a view's window: row `y` of the window
    /// maps to stored row `top + y`.
    pub fn row_address(&self, v: &TypedView, y: u32) -> (a: u64)
        requires
            self.wf(),
            v.encoding == self.spec_encoding(),
            v.img_width == self.spec_width(),
            v.img_height == self.spec_height(),
            v.spec_wf(),
            y < v.rect.height,
        ensures
            a == self.spec_row_addrs()[v.rect.top + y],
    {
        self.row_addrs[(v.rect.top + y) as usize]
    }
}

} // verus!
