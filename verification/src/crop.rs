//! Rectangular crop boxes in pixel units.  A crop box is validated against
//! the image's own dimensions before use and only ever narrows the iteration
//! window.

use vstd::prelude::*;

use crate::error::ImageError;

verus! {

/// A rectangle in pixel units: `left`/`top` name the first column and row
/// inside the window, `width`/`height` its extent.
#[derive(Clone, Copy, Debug, PartialEq, Eq, Structural)]
pub struct CropRect {
    /// First column of the window.
    pub left: u32,
    /// First row of the window.
    pub top: u32,
    /// Number of columns of the window; never zero once validated.
    pub width: u32,
    /// Number of rows of the window; never zero once validated.
    pub height: u32,
}

impl CropRect {
    /// The rectangle is non-empty and lies fully inside an image of
    /// `img_width` by `img_height` pixels.
    pub open spec fn spec_valid_for(self, img_width: int, img_height: int) -> bool {
        &&& self.width > 0
        &&& self.height > 0
        &&& self.left + self.width <= img_width
        &&& self.top + self.height <= img_height
    }

    /// The full window of an image: every row and every column.
    pub open spec fn spec_full(img_width: u32, img_height: u32) -> CropRect {
        CropRect { left: 0, top: 0, width: img_width, height: img_height }
    }

    /// Builds the full window of an image.
    pub fn full(img_width: u32, img_height: u32) -> (r: CropRect)
        ensures
            r == Self::spec_full(img_width, img_height),
    {
        CropRect { left: 0, top: 0, width: img_width, height: img_height }
    }

    /// Decides whether the rectangle lies fully inside the given image
    /// extents with a non-zero size.
    pub fn is_valid_for(&self, img_width: u32, img_height: u32) -> (ok: bool)
        ensures
            ok == self.spec_valid_for(img_width as int, img_height as int),
    {
        self.width > 0 && self.height > 0 && self.left as u64 + self.width as u64
            <= img_width as u64 && self.top as u64 + self.height as u64 <= img_height as u64
    }

    /// Validates the rectangle against the image extents: a rectangle that
    /// resolves to zero width or height, or lies partially or fully outside
    /// the bounds, is rejected with `InvalidCropBox`.
    pub fn validate_for(&self, img_width: u32, img_height: u32) -> (r: Result<CropRect, ImageError>)
        ensures
            r is Ok <==> self.spec_valid_for(img_width as int, img_height as int),
            r is Ok ==> r == Ok::<CropRect, ImageError>(*self),
            r is Err ==> r == Err::<CropRect, ImageError>(ImageError::InvalidCropBox),
    {
        if self.is_valid_for(img_width, img_height) {
            Ok(*self)
        } else {
            Err(ImageError::InvalidCropBox)
        }
    }
}

} // verus!
