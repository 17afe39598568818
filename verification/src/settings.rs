//! Resize settings: the algorithm choice with its filter, the optional
//! source crop window, and the alpha toggle, together with the stable
//! small-integer codes callers use for them and for the engine's CPU
//! feature levels.

use vstd::prelude::*;

use crate::crop::CropRect;

verus! {

/// The convolution filters the engine offers.
#[derive(Clone, Copy, Debug, PartialEq, Eq, Structural)]
pub enum FilterKind {
    /// Box filter.
    Box,
    /// Bilinear filter.
    Bilinear,
    /// Catmull-Rom filter.
    CatmullRom,
    /// Mitchell filter.
    Mitchell,
    /// Lanczos filter with a window of three.
    Lanczos3,
    /// Gaussian filter.
    Gaussian,
}

/// The filter denoted by a stable code; unknown codes fall back to the box
/// filter.
pub open spec fn spec_filter_from_code(code: u8) -> FilterKind {
    match code {
        1u8 => FilterKind::Box,
        2u8 => FilterKind::Bilinear,
        3u8 => FilterKind::CatmullRom,
        4u8 => FilterKind::Mitchell,
        5u8 => FilterKind::Lanczos3,
        6u8 => FilterKind::Gaussian,
        _ => FilterKind::Box,
    }
}

/// The stable code of a filter.
pub open spec fn spec_filter_to_code(f: FilterKind) -> u8 {
    match f {
        FilterKind::Box => 1u8,
        FilterKind::Bilinear => 2u8,
        FilterKind::CatmullRom => 3u8,
        FilterKind::Mitchell => 4u8,
        FilterKind::Lanczos3 => 5u8,
        FilterKind::Gaussian => 6u8,
    }
}

/// Maps a stable code to its filter; unknown codes default to `Box`.
pub fn filter_from_code(code: u8) -> (f: FilterKind)
    ensures
        f == spec_filter_from_code(code),
{
    match code {
        1 => FilterKind::Box,
        2 => FilterKind::Bilinear,
        3 => FilterKind::CatmullRom,
        4 => FilterKind::Mitchell,
        5 => FilterKind::Lanczos3,
        6 => FilterKind::Gaussian,
        _ => FilterKind::Box,
    }
}

/// Maps a filter to its stable code.
pub fn filter_to_code(f: FilterKind) -> (code: u8)
    ensures
        code == spec_filter_to_code(f),
{
    match f {
        FilterKind::Box => 1,
        FilterKind::Bilinear => 2,
        FilterKind::CatmullRom => 3,
        FilterKind::Mitchell => 4,
        FilterKind::Lanczos3 => 5,
        FilterKind::Gaussian => 6,
    }
}

/// The filter code round-trip is total: every filter comes back unchanged
/// from its own stable code.
pub proof fn lemma_filter_code_round_trip(f: FilterKind)
    ensures
        spec_filter_from_code(spec_filter_to_code(f)) == f,
{
}

/// The resize algorithm choice.
#[derive(Clone, Copy, Debug, PartialEq, Eq, Structural)]
pub enum ResizeAlgChoice {
    /// Nearest-neighbour sampling.
    Nearest,
    /// Convolution with the named filter.
    Convolution(FilterKind),
    /// Supersampling with the named filter and the given multiplicity.
    SuperSampling(FilterKind, u8),
}

/// The `(algorithm, filter, multiplicity)` code triple of an algorithm
/// choice, as callers exchange it: nearest is `(1, 0, 2)`, convolution
/// `(2, filter, 2)`, supersampling `(3, filter, multiplicity)`.
pub open spec fn spec_alg_to_codes(alg: ResizeAlgChoice) -> (u8, u8, u8) {
    match alg {
        ResizeAlgChoice::Nearest => (1u8, 0u8, 2u8),
        ResizeAlgChoice::Convolution(f) => (2u8, spec_filter_to_code(f), 2u8),
        ResizeAlgChoice::SuperSampling(f, m) => (3u8, spec_filter_to_code(f), m),
    }
}

/// The algorithm choice a code triple denotes; unknown algorithm codes
/// fall back to nearest-neighbour sampling.
pub open spec fn spec_alg_from_codes(algorithm: u8, filter: u8, multiplicity: u8) -> ResizeAlgChoice {
    match algorithm {
        1u8 => ResizeAlgChoice::Nearest,
        2u8 => ResizeAlgChoice::Convolution(spec_filter_from_code(filter)),
        3u8 => ResizeAlgChoice::SuperSampling(spec_filter_from_code(filter), multiplicity),
        _ => ResizeAlgChoice::Nearest,
    }
}

/// Maps an algorithm choice to its code triple.
pub fn alg_to_codes(alg: ResizeAlgChoice) -> (codes: (u8, u8, u8))
    ensures
        codes == spec_alg_to_codes(alg),
{
    match alg {
        ResizeAlgChoice::Nearest => (1, 0, 2),
        ResizeAlgChoice::Convolution(f) => (2, filter_to_code(f), 2),
        ResizeAlgChoice::SuperSampling(f, m) => (3, filter_to_code(f), m),
    }
}

/// Maps a code triple to its algorithm choice; unknown algorithm codes
/// default to `Nearest`.
pub fn alg_from_codes(algorithm: u8, filter: u8, multiplicity: u8) -> (alg: ResizeAlgChoice)
    ensures
        alg == spec_alg_from_codes(algorithm, filter, multiplicity),
{
    match algorithm {
        1 => ResizeAlgChoice::Nearest,
        2 => ResizeAlgChoice::Convolution(filter_from_code(filter)),
        3 => ResizeAlgChoice::SuperSampling(filter_from_code(filter), multiplicity),
        _ => ResizeAlgChoice::Nearest,
    }
}

/// The algorithm code round-trip is total: every algorithm choice comes
/// back unchanged from its own code triple.
pub proof fn lemma_alg_code_round_trip(alg: ResizeAlgChoice)
    ensures
        ({
            let (a, f, m) = spec_alg_to_codes(alg);
            spec_alg_from_codes(a, f, m) == alg
        }),
{
    match alg {
        ResizeAlgChoice::Nearest => {},
        ResizeAlgChoice::Convolution(f) => {
            lemma_filter_code_round_trip(f);
        },
        ResizeAlgChoice::SuperSampling(f, m) => {
            lemma_filter_code_round_trip(f);
        },
    }
}

/// Options for one resize operation: the algorithm, an optional crop
/// window over the source in pixel units, and whether the alpha channel is
/// premultiplied around the resampling.
#[derive(Clone, Copy, Debug, PartialEq, Eq, Structural)]
pub struct ResizeSettings {
    /// The resampling algorithm.
    pub alg: ResizeAlgChoice,
    /// An optional source crop window, validated against the source image
    /// before use.
    pub crop: Option<CropRect>,
    /// Whether to multiply and divide by the alpha channel around the
    /// resampling.
    pub use_alpha: bool,
}

impl ResizeSettings {
    /// The default settings: Lanczos convolution, no cropping, alpha
    /// handling on.
    pub open spec fn spec_default() -> ResizeSettings {
        ResizeSettings {
            alg: ResizeAlgChoice::Convolution(FilterKind::Lanczos3),
            crop: None,
            use_alpha: true,
        }
    }

    /// Builds the default settings.
    pub fn new() -> (s: ResizeSettings)
        ensures
            s == Self::spec_default(),
    {
        ResizeSettings {
            alg: ResizeAlgChoice::Convolution(FilterKind::Lanczos3),
            crop: None,
            use_alpha: true,
        }
    }

    /// An identical, independent copy of the settings.
    pub fn copy(&self) -> (s: ResizeSettings)
        ensures
            s == *self,
    {
        *self
    }

    /// The algorithm's code triple.
    pub fn get_resize_alg(&self) -> (codes: (u8, u8, u8))
        ensures
            codes == spec_alg_to_codes(self.alg),
    {
        alg_to_codes(self.alg)
    }

    /// The settings with the algorithm replaced by the one the code triple
    /// denotes.
    pub fn set_resize_alg(&self, algorithm: u8, filter: u8, multiplicity: u8) -> (s: ResizeSettings)
        ensures
            s.alg == spec_alg_from_codes(algorithm, filter, multiplicity),
            s.crop == self.crop,
            s.use_alpha == self.use_alpha,
    {
        ResizeSettings { alg: alg_from_codes(algorithm, filter, multiplicity), ..*self }
    }

    /// The source crop window, if one is set.
    pub fn get_crop_box(&self) -> (c: Option<CropRect>)
        ensures
            c == self.crop,
    {
        self.crop
    }

    /// The settings with the source crop window replaced.
    pub fn set_crop_box(&self, left: u32, top: u32, width: u32, height: u32) -> (s: ResizeSettings)
        ensures
            s.crop == Some(CropRect { left, top, width, height }),
            s.alg == self.alg,
            s.use_alpha == self.use_alpha,
    {
        ResizeSettings { crop: Some(CropRect { left, top, width, height }), ..*self }
    }

    /// Whether alpha handling is on.
    pub fn get_use_alpha(&self) -> (v: bool)
        ensures
            v == self.use_alpha,
    {
        self.use_alpha
    }

    /// The settings with alpha handling switched on or off.
    pub fn set_use_alpha(&self, v: bool) -> (s: ResizeSettings)
        ensures
            s.use_alpha == v,
            s.alg == self.alg,
            s.crop == self.crop,
    {
        ResizeSettings { use_alpha: v, ..*self }
    }
}

/// The engine's CPU feature levels: automatic detection, plain scalar
/// code, or one of the SIMD extension sets.
#[derive(Clone, Copy, Debug, PartialEq, Eq, Structural)]
pub enum CpuLevel {
    /// Let the engine pick the best level the machine offers.
    Auto,
    /// Scalar code without SIMD extensions.
    Scalar,
    /// The baseline x86-64 SIMD extension set.
    Sse41,
    /// The wider x86-64 SIMD extension set.
    Avx2,
    /// The arm64 SIMD extension set.
    Neon,
}

/// The CPU level a stable code denotes; unknown codes fall back to
/// automatic detection.
pub open spec fn spec_cpu_level_from_code(code: u8) -> CpuLevel {
    match code {
        1u8 => CpuLevel::Scalar,
        2u8 => CpuLevel::Sse41,
        3u8 => CpuLevel::Avx2,
        4u8 => CpuLevel::Neon,
        _ => CpuLevel::Auto,
    }
}

/// The stable code of a CPU level; automatic detection has no code of its
/// own and reports zero.
pub open spec fn spec_cpu_level_to_code(level: CpuLevel) -> u8 {
    match level {
        CpuLevel::Auto => 0u8,
        CpuLevel::Scalar => 1u8,
        CpuLevel::Sse41 => 2u8,
        CpuLevel::Avx2 => 3u8,
        CpuLevel::Neon => 4u8,
    }
}

/// Maps a stable code to its CPU level; unknown codes default to `Auto`.
pub fn cpu_level_from_code(code: u8) -> (l: CpuLevel)
    ensures
        l == spec_cpu_level_from_code(code),
{
    match code {
        1 => CpuLevel::Scalar,
        2 => CpuLevel::Sse41,
        3 => CpuLevel::Avx2,
        4 => CpuLevel::Neon,
        _ => CpuLevel::Auto,
    }
}

/// Maps a CPU level to its stable code.
pub fn cpu_level_to_code(level: CpuLevel) -> (code: u8)
    ensures
        code == spec_cpu_level_to_code(level),
{
    match level {
        CpuLevel::Auto => 0,
        CpuLevel::Scalar => 1,
        CpuLevel::Sse41 => 2,
        CpuLevel::Avx2 => 3,
        CpuLevel::Neon => 4,
    }
}

/// The CPU level code round-trip is total on the concrete levels: every
/// level but automatic detection comes back unchanged from its own code.
pub proof fn lemma_cpu_level_code_round_trip(level: CpuLevel)
    requires
        level != CpuLevel::Auto,
    ensures
        spec_cpu_level_from_code(spec_cpu_level_to_code(level)) == level,
{
}

} // verus!
