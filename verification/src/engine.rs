//! The engine handles: thin verified shells around the stateful resize and
//! alpha machinery of the `fast_image_resize` crate.  The shells check the
//! view-level rules — matching encodings, a crop window inside the source —
//! before any call crosses into the engine, pre-extract crop windows with
//! the verified copy operation, and surface every engine failure verbatim
//! as an `EngineError`.
//!
//! Mutual exclusion between callers sharing one engine instance is the
//! host layer's affair: it wraps an engine in its lock and maps a poisoned
//! lock to `LockPoisoned`.  Inside this crate, `&mut self` makes exclusive
//! access a type-system fact.

use vstd::prelude::*;

use fast_image_resize as fir;

use crate::encoding::{lemma_byte_width_positive, PixelEncoding};
use crate::error::ImageError;
use crate::owned::ImageBuffer;
use crate::settings::{cpu_level_to_code, CpuLevel, FilterKind, ResizeAlgChoice, ResizeSettings};

verus! {

#[verifier::external_type_specification]
#[verifier::external_body]
/// Declares the engine's resizer state for use in verified signatures.
pub struct ExResizer(fir::Resizer);

#[verifier::external_type_specification]
#[verifier::external_body]
/// Declares the engine's alpha multiply/divide state for use in verified
/// signatures.
pub struct ExMulDiv(fir::MulDiv);

#[verifier::external_type_specification]
#[verifier::external_body]
/// Declares the engine's pixel-type tag for use in verified signatures.
pub struct ExPixelType(fir::PixelType);

#[verifier::external_type_specification]
#[verifier::external_body]
/// Declares the engine's CPU-extension tag for use in verified signatures.
pub struct ExCpuExtensions(fir::CpuExtensions);

#[verifier::external_type_specification]
#[verifier::external_body]
/// Declares the engine's filter-type tag for use in verified signatures.
pub struct ExFilterType(fir::FilterType);

#[verifier::external_type_specification]
#[verifier::external_body]
/// Declares the engine's algorithm choice for use in verified signatures.
pub struct ExResizeAlg(fir::ResizeAlg);

/// Relies on fast_image_resize::PixelType: selects the variant with the
/// encoding's channel layout, one for one.
#[verifier::external_body]
fn to_fir_pixel_type(e: PixelEncoding) -> fir::PixelType {
    match e {
        PixelEncoding::U8 => fir::PixelType::U8,
        PixelEncoding::U8x2 => fir::PixelType::U8x2,
        PixelEncoding::U8x3 => fir::PixelType::U8x3,
        PixelEncoding::U8x4 => fir::PixelType::U8x4,
        PixelEncoding::U16 => fir::PixelType::U16,
        PixelEncoding::U16x2 => fir::PixelType::U16x2,
        PixelEncoding::U16x3 => fir::PixelType::U16x3,
        PixelEncoding::U16x4 => fir::PixelType::U16x4,
        PixelEncoding::I32 => fir::PixelType::I32,
        PixelEncoding::F32 => fir::PixelType::F32,
        PixelEncoding::F32x2 => fir::PixelType::F32x2,
        PixelEncoding::F32x3 => fir::PixelType::F32x3,
        PixelEncoding::F32x4 => fir::PixelType::F32x4,
    }
}

/// Relies on fast_image_resize::FilterType: selects the variant with the
/// filter's name, one for one.
#[verifier::external_body]
fn to_fir_filter(f: FilterKind) -> fir::FilterType {
    match f {
        FilterKind::Box => fir::FilterType::Box,
        FilterKind::Bilinear => fir::FilterType::Bilinear,
        FilterKind::CatmullRom => fir::FilterType::CatmullRom,
        FilterKind::Mitchell => fir::FilterType::Mitchell,
        FilterKind::Lanczos3 => fir::FilterType::Lanczos3,
        FilterKind::Gaussian => fir::FilterType::Gaussian,
    }
}

/// Relies on fast_image_resize::ResizeAlg: selects the variant with the
/// choice's shape, moving the filter and multiplicity over.
#[verifier::external_body]
fn to_fir_alg(alg: &ResizeAlgChoice) -> fir::ResizeAlg {
    match alg {
        ResizeAlgChoice::Nearest => fir::ResizeAlg::Nearest,
        ResizeAlgChoice::Convolution(f) => fir::ResizeAlg::Convolution(to_fir_filter(*f)),
        ResizeAlgChoice::SuperSampling(f, m) => fir::ResizeAlg::SuperSampling(to_fir_filter(*f), *m),
    }
}

/// Relies on fast_image_resize::Resizer::new: a fresh resizer with
/// auto-detected CPU extensions.
#[verifier::external_body]
fn fir_resizer_new() -> fir::Resizer {
    fir::Resizer::new()
}

/// Relies on fast_image_resize::MulDiv::new: fresh alpha machinery with
/// auto-detected CPU extensions.
#[verifier::external_body]
fn fir_mul_div_new() -> fir::MulDiv {
    fir::MulDiv::new()
}

/// Relies on fast_image_resize::Resizer::cpu_extensions: reads the
/// resizer's active CPU-extension tag.
#[verifier::external_body]
fn fir_resizer_cpu_extensions(r: &fir::Resizer) -> fir::CpuExtensions {
    r.cpu_extensions()
}

/// Relies on fast_image_resize::MulDiv::cpu_extensions: reads the alpha
/// machinery's active CPU-extension tag.
#[verifier::external_body]
fn fir_mul_div_cpu_extensions(m: &fir::MulDiv) -> fir::CpuExtensions {
    m.cpu_extensions()
}

/// Relies on fast_image_resize::CpuExtensions: names this target's
/// variants as CPU levels, one for one.
#[verifier::external_body]
fn cpu_level_of(e: fir::CpuExtensions) -> CpuLevel {
    match e {
        fir::CpuExtensions::None => CpuLevel::Scalar,
        fir::CpuExtensions::Sse4_1 => CpuLevel::Sse41,
        fir::CpuExtensions::Avx2 => CpuLevel::Avx2,
    }
}

/// The encodings whose pixels the alpha machinery accepts: the two- and
/// four-channel layouts, whose last channel is alpha.
pub open spec fn spec_alpha_capable(e: PixelEncoding) -> bool {
    ||| e == PixelEncoding::U8x2
    ||| e == PixelEncoding::U8x4
    ||| e == PixelEncoding::U16x2
    ||| e == PixelEncoding::U16x4
    ||| e == PixelEncoding::F32x2
    ||| e == PixelEncoding::F32x4
}

/// Relies on fast_image_resize::Resizer::resize: resamples the source
/// image into the destination image, with no engine-side cropping.  The
/// destination keeps its extents, encoding and length on every outcome,
/// because the engine writes through a borrowed slice of its bytes and
/// nothing else is touched.  For the four 8-bit encodings the call cannot
/// fail: the image constructors reject only undersized buffers — ruled
/// out by well-formedness — or misaligned ones, and the 8-bit pixel types
/// have one-byte alignment; past construction, with matching pixel types
/// and no cropping, the engine's resample paths return no error.  For the
/// wider encodings alignment depends on the buffer's address, so only
/// geometry is promised.  When the two images share their extents the
/// engine takes its copy path — whatever the algorithm — and the
/// destination ends as an exact byte copy of the source.
#[verifier::external_body]
fn fir_resize(
    resizer: &mut fir::Resizer,
    src: &ImageBuffer,
    dst: &mut ImageBuffer,
    encoding: PixelEncoding,
    alg: fir::ResizeAlg,
    use_alpha: bool,
) -> (r: Result<(), String>)
    requires
        src@.wf(),
        old(dst)@.wf(),
        src@.encoding == encoding,
        old(dst)@.encoding == encoding,
    ensures
        final(dst)@.width == old(dst)@.width,
        final(dst)@.height == old(dst)@.height,
        final(dst)@.encoding == old(dst)@.encoding,
        final(dst)@.data.len() == old(dst)@.data.len(),
        encoding.spec_channel_bytes() == 1 ==> r is Ok,
        encoding.spec_channel_bytes() == 1 && src@.width == old(dst)@.width && src@.height == old(
            dst,
        )@.height ==> final(dst)@.data == src@.data,
{
    let pixel_type = to_fir_pixel_type(encoding);
    let options = fir::ResizeOptions::new().resize_alg(alg).use_alpha(use_alpha);
    let src_img = fir::images::ImageRef::new(src.width, src.height, &src.data, pixel_type)
        .map_err(|e| e.to_string())?;
    let mut dst_img =
        fir::images::Image::from_slice_u8(dst.width, dst.height, &mut dst.data, pixel_type)
            .map_err(|e| e.to_string())?;
    resizer.resize(&src_img, &mut dst_img, Some(&options)).map_err(|e| e.to_string())
}

/// Relies on fast_image_resize::MulDiv::multiply_alpha: multiplies the
/// source's color channels by its alpha channel into the destination.  The
/// destination keeps its extents, encoding and length on every outcome,
/// because the engine writes through a borrowed slice of its bytes and
/// nothing else is touched.  For the two 8-bit alpha-capable encodings the
/// call cannot fail: construction succeeds at one-byte alignment with
/// well-formed buffers of equal extents, and the 8-bit kernels return no
/// error.  An encoding without alpha support always fails.  For the wider
/// alpha-capable encodings alignment depends on the buffer's address, so
/// neither outcome is promised.
#[verifier::external_body]
fn fir_multiply_alpha(
    mul_div: &fir::MulDiv,
    src: &ImageBuffer,
    dst: &mut ImageBuffer,
    encoding: PixelEncoding,
) -> (r: Result<(), String>)
    requires
        src@.wf(),
        old(dst)@.wf(),
        src@.encoding == encoding,
        old(dst)@.encoding == encoding,
        src@.width == old(dst)@.width,
        src@.height == old(dst)@.height,
    ensures
        final(dst)@.width == old(dst)@.width,
        final(dst)@.height == old(dst)@.height,
        final(dst)@.encoding == old(dst)@.encoding,
        final(dst)@.data.len() == old(dst)@.data.len(),
        encoding == PixelEncoding::U8x2 || encoding == PixelEncoding::U8x4 ==> r is Ok,
        !spec_alpha_capable(encoding) ==> r is Err,
{
    let pixel_type = to_fir_pixel_type(encoding);
    let src_img = fir::images::ImageRef::new(src.width, src.height, &src.data, pixel_type)
        .map_err(|e| e.to_string())?;
    let mut dst_img =
        fir::images::Image::from_slice_u8(dst.width, dst.height, &mut dst.data, pixel_type)
            .map_err(|e| e.to_string())?;
    mul_div.multiply_alpha(&src_img, &mut dst_img).map_err(|e| e.to_string())
}

/// Relies on fast_image_resize::MulDiv::divide_alpha: divides the source's
/// color channels by its alpha channel into the destination, under the
/// same outcome analysis as the multiplication: geometry preserved always,
/// success owed for the two 8-bit alpha-capable encodings, failure owed
/// for encodings without alpha support.
#[verifier::external_body]
fn fir_divide_alpha(
    mul_div: &fir::MulDiv,
    src: &ImageBuffer,
    dst: &mut ImageBuffer,
    encoding: PixelEncoding,
) -> (r: Result<(), String>)
    requires
        src@.wf(),
        old(dst)@.wf(),
        src@.encoding == encoding,
        old(dst)@.encoding == encoding,
        src@.width == old(dst)@.width,
        src@.height == old(dst)@.height,
    ensures
        final(dst)@.width == old(dst)@.width,
        final(dst)@.height == old(dst)@.height,
        final(dst)@.encoding == old(dst)@.encoding,
        final(dst)@.data.len() == old(dst)@.data.len(),
        encoding == PixelEncoding::U8x2 || encoding == PixelEncoding::U8x4 ==> r is Ok,
        !spec_alpha_capable(encoding) ==> r is Err,
{
    let pixel_type = to_fir_pixel_type(encoding);
    let src_img = fir::images::ImageRef::new(src.width, src.height, &src.data, pixel_type)
        .map_err(|e| e.to_string())?;
    let mut dst_img =
        fir::images::Image::from_slice_u8(dst.width, dst.height, &mut dst.data, pixel_type)
            .map_err(|e| e.to_string())?;
    mul_div.divide_alpha(&src_img, &mut dst_img).map_err(|e| e.to_string())
}

/// Relies on fast_image_resize::MulDiv::multiply_alpha_inplace: multiplies
/// the image's color channels by its alpha channel in place.  The image
/// keeps its extents, encoding and length on every outcome; success owed
/// for the two 8-bit alpha-capable encodings, failure owed for encodings
/// without alpha support, as for the two-image multiplication.
#[verifier::external_body]
fn fir_multiply_alpha_inplace(
    mul_div: &fir::MulDiv,
    img: &mut ImageBuffer,
    encoding: PixelEncoding,
) -> (r: Result<(), String>)
    requires
        old(img)@.wf(),
        old(img)@.encoding == encoding,
    ensures
        final(img)@.width == old(img)@.width,
        final(img)@.height == old(img)@.height,
        final(img)@.encoding == old(img)@.encoding,
        final(img)@.data.len() == old(img)@.data.len(),
        encoding == PixelEncoding::U8x2 || encoding == PixelEncoding::U8x4 ==> r is Ok,
        !spec_alpha_capable(encoding) ==> r is Err,
{
    let pixel_type = to_fir_pixel_type(encoding);
    let mut fir_img =
        fir::images::Image::from_slice_u8(img.width, img.height, &mut img.data, pixel_type)
            .map_err(|e| e.to_string())?;
    mul_div.multiply_alpha_inplace(&mut fir_img).map_err(|e| e.to_string())
}

/// Relies on fast_image_resize::MulDiv::divide_alpha_inplace: divides the
/// image's color channels by its alpha channel in place, under the same
/// outcome analysis as the in-place multiplication.
#[verifier::external_body]
fn fir_divide_alpha_inplace(
    mul_div: &fir::MulDiv,
    img: &mut ImageBuffer,
    encoding: PixelEncoding,
) -> (r: Result<(), String>)
    requires
        old(img)@.wf(),
        old(img)@.encoding == encoding,
    ensures
        final(img)@.width == old(img)@.width,
        final(img)@.height == old(img)@.height,
        final(img)@.encoding == old(img)@.encoding,
        final(img)@.data.len() == old(img)@.data.len(),
        encoding == PixelEncoding::U8x2 || encoding == PixelEncoding::U8x4 ==> r is Ok,
        !spec_alpha_capable(encoding) ==> r is Err,
{
    let pixel_type = to_fir_pixel_type(encoding);
    let mut fir_img =
        fir::images::Image::from_slice_u8(img.width, img.height, &mut img.data, pixel_type)
            .map_err(|e| e.to_string())?;
    mul_div.divide_alpha_inplace(&mut fir_img).map_err(|e| e.to_string())
}

/// Left edge of the source window a resize with these settings samples:
/// the crop window's origin, or zero without one.
pub open spec fn spec_crop_left(s: ResizeSettings) -> int {
    match s.crop {
        Option::None => 0,
        Option::Some(c) => c.left as int,
    }
}

/// Top edge of the source window a resize with these settings samples:
/// the crop window's origin, or zero without one.
pub open spec fn spec_crop_top(s: ResizeSettings) -> int {
    match s.crop {
        Option::None => 0,
        Option::Some(c) => c.top as int,
    }
}

/// The resize engine handle: owns the stateful resizer and checks the
/// view-level rules before every call into it.
pub struct ResizeEngine {
    resizer: fir::Resizer,
}

impl ResizeEngine {
    /// A fresh resize engine with auto-detected CPU extensions.
    pub fn new() -> ResizeEngine {
        ResizeEngine { resizer: fir_resizer_new() }
    }

    /// The stable code of the engine's active CPU feature level.  The
    /// level is machine state, so nothing more is promised of it.
    pub fn get_cpu_extensions(&self) -> u8 {
        cpu_level_to_code(cpu_level_of(fir_resizer_cpu_extensions(&self.resizer)))
    }

    /// Exclusive access to the inner resizer, for the host layer's calls
    /// that this crate does not model (the unsafe CPU-extension override).
    pub fn resizer_mut(&mut self) -> &mut fir::Resizer {
        &mut self.resizer
    }

    /// Resizes the source image into the destination image, which keeps
    /// its own extents; an optional crop window of the settings narrows
    /// the source first.
    ///
    /// The two images must share their encoding — there is no implicit
    /// conversion (`EncodingMismatch`) — and a crop window must lie inside
    /// the source (`InvalidCropBox`).  A window is applied by extracting
    /// exactly its pixels with the verified copy before resampling, so
    /// iteration never leaves the window.  Any failure the engine itself
    /// reports is surfaced verbatim as `EngineError`; for the 8-bit
    /// encodings the engine cannot fail, and at unchanged scale — a window
    /// with the destination's own extents — every destination pixel ends
    /// as an exact copy of its window pixel.
    pub fn resize(&mut self, src: &ImageBuffer, dst: &mut ImageBuffer, settings: &ResizeSettings)
        -> (r: Result<(), ImageError>)
        requires
            src@.wf(),
            old(dst)@.wf(),
        ensures
            final(dst)@.wf(),
            final(dst)@.width == old(dst)@.width,
            final(dst)@.height == old(dst)@.height,
            final(dst)@.encoding == old(dst)@.encoding,
            final(dst)@.data.len() == old(dst)@.data.len(),
            src@.encoding != old(dst)@.encoding ==> r == Err::<(), ImageError>(
                ImageError::EncodingMismatch,
            ) && final(dst)@ == old(dst)@,
            settings.crop matches Some(c) ==> (src@.encoding == old(dst)@.encoding
                && !c.spec_valid_for(src@.width, src@.height) ==> r == Err::<(), ImageError>(
                ImageError::InvalidCropBox,
            ) && final(dst)@ == old(dst)@),
            r is Err ==> (r == Err::<(), ImageError>(ImageError::EncodingMismatch) || r == Err::<
                (),
                ImageError,
            >(ImageError::InvalidCropBox) || r matches Err(ImageError::EngineError(_))),
            src@.encoding == old(dst)@.encoding && (settings.crop matches Some(c)
                ==> c.spec_valid_for(src@.width, src@.height)) ==> (r is Ok || r matches Err(
                ImageError::EngineError(_),
            )),
            src@.encoding == old(dst)@.encoding && src@.encoding.spec_channel_bytes() == 1 && (
            settings.crop matches Some(c) ==> c.spec_valid_for(src@.width, src@.height)) ==> r
                is Ok,
            src@.encoding == old(dst)@.encoding && src@.encoding.spec_channel_bytes() == 1
                && (match settings.crop {
                Option::None => src@.width == old(dst)@.width && src@.height == old(dst)@.height,
                Option::Some(c) => c.spec_valid_for(src@.width, src@.height) && c.width == old(
                    dst,
                )@.width && c.height == old(dst)@.height,
            }) ==> forall|x: int, y: int|
                0 <= x < old(dst)@.width && 0 <= y < old(dst)@.height ==> final(dst)@.pixel(x, y)
                    == src@.pixel(spec_crop_left(*settings) + x, spec_crop_top(*settings) + y),
    {
        if src.encoding() != dst.encoding() {
            return Err(ImageError::EncodingMismatch);
        }
        let alg = to_fir_alg(&settings.alg);
        let outcome: Result<(), String> = match settings.crop {
            Some(c) => {
                let sv = match src.view_for(src.encoding(), Some(c)) {
                    Ok(v) => v,
                    Err(e) => {
                        return Err(e);
                    },
                };
                proof {
                    let b = src@.bw();
                    lemma_byte_width_positive(src@.encoding);
                    assert(c.width * c.height * b <= src@.width * src@.height * b)
                        by (nonlinear_arith)
                        requires
                            0 < c.width <= src@.width,
                            0 < c.height <= src@.height,
                            0 < b,
                    ;
                }
                // The exec length pins src@.data.len() <= usize::MAX, so the
                // window's byte size is addressable and `create` must succeed.
                let src_len = src.byte_len();
                let mut tmp = match ImageBuffer::create(c.width, c.height, src.encoding(), None) {
                    Ok(t) => t,
                    Err(e) => {
                        proof {
                            assert(false);
                        }
                        return Err(e);
                    },
                };
                let tv = tmp.read_view();
                match ImageBuffer::copy_view(src, &sv, &mut tmp, &tv) {
                    Ok(_) => (),
                    Err(e) => {
                        proof {
                            assert(false);
                        }
                        return Err(e);
                    },
                };
                let res = fir_resize(
                    &mut self.resizer,
                    &tmp,
                    dst,
                    src.encoding(),
                    alg,
                    settings.use_alpha,
                );
                proof {
                    if src@.encoding.spec_channel_bytes() == 1 && c.width == old(dst)@.width
                        && c.height == old(dst)@.height {
                        assert forall|x: int, y: int|
                            0 <= x < old(dst)@.width && 0 <= y < old(dst)@.height implies dst@.pixel(
                            x,
                            y,
                        ) == src@.pixel(c.left + x, c.top + y) by {
                            assert(dst@.data == tmp@.data);
                            assert(tmp@.pixel(x, y) == src@.pixel(c.left + x, c.top + y));
                        }
                    }
                }
                res
            },
            None => fir_resize(
                &mut self.resizer,
                src,
                dst,
                src.encoding(),
                alg,
                settings.use_alpha,
            ),
        };
        match outcome {
            Ok(_) => Ok(()),
            Err(msg) => Err(ImageError::EngineError(msg)),
        }
    }
}

/// The alpha engine handle: owns the stateful multiply/divide machinery
/// and checks the view-level rules before every call into it.
pub struct AlphaEngine {
    mul_div: fir::MulDiv,
}

impl AlphaEngine {
    /// Fresh alpha machinery with auto-detected CPU extensions.
    pub fn new() -> AlphaEngine {
        AlphaEngine { mul_div: fir_mul_div_new() }
    }

    /// The stable code of the engine's active CPU feature level.  The
    /// level is machine state, so nothing more is promised of it.
    pub fn get_cpu_extensions(&self) -> u8 {
        cpu_level_to_code(cpu_level_of(fir_mul_div_cpu_extensions(&self.mul_div)))
    }

    /// Exclusive access to the inner machinery, for the host layer's calls
    /// that this crate does not model (the unsafe CPU-extension override
    /// and operations on foreign-owned pixel rows).
    pub fn mul_div_mut(&mut self) -> &mut fir::MulDiv {
        &mut self.mul_div
    }

    /// Shared access to the inner machinery, for the host layer's
    /// operations on foreign-owned pixel rows.
    pub fn mul_div(&self) -> &fir::MulDiv {
        &self.mul_div
    }

    /// Multiplies the source's color channels by its alpha channel into
    /// the destination.  The images must share encoding
    /// (`EncodingMismatch`) and extents (`InvalidDimension`); any failure
    /// the engine itself reports is surfaced verbatim as `EngineError`.
    /// The two 8-bit alpha-capable encodings cannot fail; encodings
    /// without alpha support always fail.
    pub fn multiply_alpha(&self, src: &ImageBuffer, dst: &mut ImageBuffer) -> (r: Result<
        (),
        ImageError,
    >)
        requires
            src@.wf(),
            old(dst)@.wf(),
        ensures
            final(dst)@.wf(),
            final(dst)@.width == old(dst)@.width,
            final(dst)@.height == old(dst)@.height,
            final(dst)@.encoding == old(dst)@.encoding,
            final(dst)@.data.len() == old(dst)@.data.len(),
            src@.encoding != old(dst)@.encoding ==> r == Err::<(), ImageError>(
                ImageError::EncodingMismatch,
            ) && final(dst)@ == old(dst)@,
            src@.encoding == old(dst)@.encoding && !(src@.width == old(dst)@.width && src@.height
                == old(dst)@.height) ==> r == Err::<(), ImageError>(ImageError::InvalidDimension)
                && final(dst)@ == old(dst)@,
            r is Err ==> (r == Err::<(), ImageError>(ImageError::EncodingMismatch) || r == Err::<
                (),
                ImageError,
            >(ImageError::InvalidDimension) || r matches Err(ImageError::EngineError(_))),
            src@.encoding == old(dst)@.encoding && src@.width == old(dst)@.width && src@.height
                == old(dst)@.height ==> {
                &&& (src@.encoding == PixelEncoding::U8x2 || src@.encoding == PixelEncoding::U8x4)
                    ==> r is Ok
                &&& !spec_alpha_capable(src@.encoding) ==> r matches Err(
                    ImageError::EngineError(_),
                )
            },
    {
        if src.encoding() != dst.encoding() {
            return Err(ImageError::EncodingMismatch);
        }
        if src.width() != dst.width() || src.height() != dst.height() {
            return Err(ImageError::InvalidDimension);
        }
        match fir_multiply_alpha(&self.mul_div, src, dst, src.encoding()) {
            Ok(_) => Ok(()),
            Err(msg) => Err(ImageError::EngineError(msg)),
        }
    }

    /// Divides the source's color channels by its alpha channel into the
    /// destination, under the same rules and owed outcomes as the
    /// multiplication.
    pub fn divide_alpha(&self, src: &ImageBuffer, dst: &mut ImageBuffer) -> (r: Result<
        (),
        ImageError,
    >)
        requires
            src@.wf(),
            old(dst)@.wf(),
        ensures
            final(dst)@.wf(),
            final(dst)@.width == old(dst)@.width,
            final(dst)@.height == old(dst)@.height,
            final(dst)@.encoding == old(dst)@.encoding,
            final(dst)@.data.len() == old(dst)@.data.len(),
            src@.encoding != old(dst)@.encoding ==> r == Err::<(), ImageError>(
                ImageError::EncodingMismatch,
            ) && final(dst)@ == old(dst)@,
            src@.encoding == old(dst)@.encoding && !(src@.width == old(dst)@.width && src@.height
                == old(dst)@.height) ==> r == Err::<(), ImageError>(ImageError::InvalidDimension)
                && final(dst)@ == old(dst)@,
            r is Err ==> (r == Err::<(), ImageError>(ImageError::EncodingMismatch) || r == Err::<
                (),
                ImageError,
            >(ImageError::InvalidDimension) || r matches Err(ImageError::EngineError(_))),
            src@.encoding == old(dst)@.encoding && src@.width == old(dst)@.width && src@.height
                == old(dst)@.height ==> {
                &&& (src@.encoding == PixelEncoding::U8x2 || src@.encoding == PixelEncoding::U8x4)
                    ==> r is Ok
                &&& !spec_alpha_capable(src@.encoding) ==> r matches Err(
                    ImageError::EngineError(_),
                )
            },
    {
        if src.encoding() != dst.encoding() {
            return Err(ImageError::EncodingMismatch);
        }
        if src.width() != dst.width() || src.height() != dst.height() {
            return Err(ImageError::InvalidDimension);
        }
        match fir_divide_alpha(&self.mul_div, src, dst, src.encoding()) {
            Ok(_) => Ok(()),
            Err(msg) => Err(ImageError::EngineError(msg)),
        }
    }

    /// Multiplies an image's color channels by its alpha channel in place.
    /// Any failure the engine itself reports is surfaced verbatim as
    /// `EngineError`; the two 8-bit alpha-capable encodings cannot fail,
    /// encodings without alpha support always fail.
    pub fn multiply_alpha_inplace(&self, img: &mut ImageBuffer) -> (r: Result<(), ImageError>)
        requires
            old(img)@.wf(),
        ensures
            final(img)@.wf(),
            final(img)@.width == old(img)@.width,
            final(img)@.height == old(img)@.height,
            final(img)@.encoding == old(img)@.encoding,
            final(img)@.data.len() == old(img)@.data.len(),
            r is Err ==> r matches Err(ImageError::EngineError(_)),
            old(img)@.encoding == PixelEncoding::U8x2 || old(img)@.encoding == PixelEncoding::U8x4
                ==> r is Ok,
            !spec_alpha_capable(old(img)@.encoding) ==> r matches Err(ImageError::EngineError(_)),
    {
        let encoding = img.encoding();
        match fir_multiply_alpha_inplace(&self.mul_div, img, encoding) {
            Ok(_) => Ok(()),
            Err(msg) => Err(ImageError::EngineError(msg)),
        }
    }

    /// Divides an image's color channels by its alpha channel in place,
    /// under the same owed outcomes as the in-place multiplication.
    pub fn divide_alpha_inplace(&self, img: &mut ImageBuffer) -> (r: Result<(), ImageError>)
        requires
            old(img)@.wf(),
        ensures
            final(img)@.wf(),
            final(img)@.width == old(img)@.width,
            final(img)@.height == old(img)@.height,
            final(img)@.encoding == old(img)@.encoding,
            final(img)@.data.len() == old(img)@.data.len(),
            r is Err ==> r matches Err(ImageError::EngineError(_)),
            old(img)@.encoding == PixelEncoding::U8x2 || old(img)@.encoding == PixelEncoding::U8x4
                ==> r is Ok,
            !spec_alpha_capable(old(img)@.encoding) ==> r matches Err(ImageError::EngineError(_)),
    {
        let encoding = img.encoding();
        match fir_divide_alpha_inplace(&self.mul_div, img, encoding) {
            Ok(_) => Ok(()),
            Err(msg) => Err(ImageError::EngineError(msg)),
        }
    }
}

} // verus!
