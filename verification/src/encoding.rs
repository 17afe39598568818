//! Closed registry of the supported pixel encodings: channel count,
//! per-channel byte width and the stable small-integer codes used by callers.

use vstd::prelude::*;

verus! {

/// One of the supported pixel layouts.  Exactly one encoding is active per
/// image for its whole lifetime.
#[derive(Clone, Copy, Debug, PartialEq, Eq, Structural)]
pub enum PixelEncoding {
    /// 1 channel, 8-bit integer.
    U8,
    /// 2 channels, 8-bit integer.
    U8x2,
    /// 3 channels, 8-bit integer.
    U8x3,
    /// 4 channels, 8-bit integer.
    U8x4,
    /// 1 channel, 16-bit integer.
    U16,
    /// 2 channels, 16-bit integer.
    U16x2,
    /// 3 channels, 16-bit integer.
    U16x3,
    /// 4 channels, 16-bit integer.
    U16x4,
    /// 1 channel, 32-bit integer.
    I32,
    /// 1 channel, 32-bit float.
    F32,
    /// 2 channels, 32-bit float.
    F32x2,
    /// 3 channels, 32-bit float.
    F32x3,
    /// 4 channels, 32-bit float.
    F32x4,
}

impl PixelEncoding {
    /// Number of channels of the encoding.
    pub open spec fn spec_channels(self) -> nat {
        match self {
            PixelEncoding::U8 => 1,
            PixelEncoding::U8x2 => 2,
            PixelEncoding::U8x3 => 3,
            PixelEncoding::U8x4 => 4,
            PixelEncoding::U16 => 1,
            PixelEncoding::U16x2 => 2,
            PixelEncoding::U16x3 => 3,
            PixelEncoding::U16x4 => 4,
            PixelEncoding::I32 => 1,
            PixelEncoding::F32 => 1,
            PixelEncoding::F32x2 => 2,
            PixelEncoding::F32x3 => 3,
            PixelEncoding::F32x4 => 4,
        }
    }

    /// Width in bytes of one channel of the encoding.
    pub open spec fn spec_channel_bytes(self) -> nat {
        match self {
            PixelEncoding::U8 => 1,
            PixelEncoding::U8x2 => 1,
            PixelEncoding::U8x3 => 1,
            PixelEncoding::U8x4 => 1,
            PixelEncoding::U16 => 2,
            PixelEncoding::U16x2 => 2,
            PixelEncoding::U16x3 => 2,
            PixelEncoding::U16x4 => 2,
            PixelEncoding::I32 => 4,
            PixelEncoding::F32 => 4,
            PixelEncoding::F32x2 => 4,
            PixelEncoding::F32x3 => 4,
            PixelEncoding::F32x4 => 4,
        }
    }

    /// Width in bytes of one whole pixel of the encoding.
    pub open spec fn spec_byte_width(self) -> nat {
        self.spec_channels() * self.spec_channel_bytes()
    }

    /// Executable pixel width in bytes.
    pub fn byte_width(&self) -> (w: usize)
        ensures
            w == self.spec_byte_width(),
            1 <= w <= 16,
    {
        match self {
            PixelEncoding::U8 => 1,
            PixelEncoding::U8x2 => 2,
            PixelEncoding::U8x3 => 3,
            PixelEncoding::U8x4 => 4,
            PixelEncoding::U16 => 2,
            PixelEncoding::U16x2 => 4,
            PixelEncoding::U16x3 => 6,
            PixelEncoding::U16x4 => 8,
            PixelEncoding::I32 => 4,
            PixelEncoding::F32 => 4,
            PixelEncoding::F32x2 => 8,
            PixelEncoding::F32x3 => 12,
            PixelEncoding::F32x4 => 16,
        }
    }

    /// Executable channel count.
    pub fn channels(&self) -> (c: usize)
        ensures
            c == self.spec_channels(),
    {
        match self {
            PixelEncoding::U8 => 1,
            PixelEncoding::U8x2 => 2,
            PixelEncoding::U8x3 => 3,
            PixelEncoding::U8x4 => 4,
            PixelEncoding::U16 => 1,
            PixelEncoding::U16x2 => 2,
            PixelEncoding::U16x3 => 3,
            PixelEncoding::U16x4 => 4,
            PixelEncoding::I32 => 1,
            PixelEncoding::F32 => 1,
            PixelEncoding::F32x2 => 2,
            PixelEncoding::F32x3 => 3,
            PixelEncoding::F32x4 => 4,
        }
    }
}

/// The encoding denoted by a stable small-integer code.  Unrecognized codes
/// fall back to the 4-channel 8-bit encoding; this permissive default is
/// deliberate and kept for compatibility with existing callers.
pub open spec fn spec_encoding_from_code(code: u8) -> PixelEncoding {
    match code {
        1u8 => PixelEncoding::U8,
        2u8 => PixelEncoding::U8x2,
        3u8 => PixelEncoding::U8x3,
        4u8 => PixelEncoding::U8x4,
        5u8 => PixelEncoding::U16,
        6u8 => PixelEncoding::U16x2,
        7u8 => PixelEncoding::U16x3,
        8u8 => PixelEncoding::U16x4,
        9u8 => PixelEncoding::I32,
        10u8 => PixelEncoding::F32,
        11u8 => PixelEncoding::F32x2,
        12u8 => PixelEncoding::F32x3,
        13u8 => PixelEncoding::F32x4,
        _ => PixelEncoding::U8x4,
    }
}

/// The stable code of an encoding.
pub open spec fn spec_encoding_to_code(e: PixelEncoding) -> u8 {
    match e {
        PixelEncoding::U8 => 1u8,
        PixelEncoding::U8x2 => 2u8,
        PixelEncoding::U8x3 => 3u8,
        PixelEncoding::U8x4 => 4u8,
        PixelEncoding::U16 => 5u8,
        PixelEncoding::U16x2 => 6u8,
        PixelEncoding::U16x3 => 7u8,
        PixelEncoding::U16x4 => 8u8,
        PixelEncoding::I32 => 9u8,
        PixelEncoding::F32 => 10u8,
        PixelEncoding::F32x2 => 11u8,
        PixelEncoding::F32x3 => 12u8,
        PixelEncoding::F32x4 => 13u8,
    }
}

/// Maps a stable code to its encoding; unknown codes default to `U8x4`.
pub fn encoding_from_code(code: u8) -> (e: PixelEncoding)
    ensures
        e == spec_encoding_from_code(code),
{
    match code {
        1 => PixelEncoding::U8,
        2 => PixelEncoding::U8x2,
        3 => PixelEncoding::U8x3,
        4 => PixelEncoding::U8x4,
        5 => PixelEncoding::U16,
        6 => PixelEncoding::U16x2,
        7 => PixelEncoding::U16x3,
        8 => PixelEncoding::U16x4,
        9 => PixelEncoding::I32,
        10 => PixelEncoding::F32,
        11 => PixelEncoding::F32x2,
        12 => PixelEncoding::F32x3,
        13 => PixelEncoding::F32x4,
        _ => PixelEncoding::U8x4,
    }
}

/// Maps an encoding to its stable code.
pub fn encoding_to_code(e: PixelEncoding) -> (code: u8)
    ensures
        code == spec_encoding_to_code(e),
{
    match e {
        PixelEncoding::U8 => 1,
        PixelEncoding::U8x2 => 2,
        PixelEncoding::U8x3 => 3,
        PixelEncoding::U8x4 => 4,
        PixelEncoding::U16 => 5,
        PixelEncoding::U16x2 => 6,
        PixelEncoding::U16x3 => 7,
        PixelEncoding::U16x4 => 8,
        PixelEncoding::I32 => 9,
        PixelEncoding::F32 => 10,
        PixelEncoding::F32x2 => 11,
        PixelEncoding::F32x3 => 12,
        PixelEncoding::F32x4 => 13,
    }
}

/// Every encoding's pixel width lies between one and sixteen bytes.
pub proof fn lemma_byte_width_positive(e: PixelEncoding)
    ensures
        1 <= e.spec_byte_width() <= 16,
{
}

/// The code round-trip is total: every encoding comes back unchanged from
/// its own stable code.
pub proof fn lemma_encoding_code_round_trip(e: PixelEncoding)
    ensures
        spec_encoding_from_code(spec_encoding_to_code(e)) == e,
{
}

} // verus!
