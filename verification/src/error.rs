//! Error taxonomy of the view and interop layer.  Every failure is reported
//! as a typed value carrying a human-readable message; nothing is silently
//! swallowed except the two documented fallbacks (unknown encoding codes
//! default, and a mode-tag write on a detached handle is a no-op).

use vstd::prelude::*;

verus! {

/// A typed failure of the view or interop layer.
#[derive(Clone, Debug, PartialEq, Eq)]
pub enum ImageError {
    /// A width or height was zero, or the buffer size overflows.
    InvalidDimension,
    /// A supplied byte sequence was smaller than the buffer requires.
    BufferTooSmall,
    /// A foreign image reported a color mode outside the supported set.
    UnsupportedMode,
    /// The handle or capsule a foreign object exposes could not be unwrapped.
    InteropError,
    /// The foreign object's descriptor is gone or cannot be reread.
    UnknownMode,
    /// The foreign object was collected; the handle is detached.
    HandleDetached,
    /// A crop rectangle was empty or lies outside the image bounds.
    InvalidCropBox,
    /// A requested encoding does not match the one stored for the image.
    EncodingMismatch,
    /// A prior panic left the engine lock poisoned; fatal for that engine.
    LockPoisoned,
    /// A failure reported by the numeric engine, surfaced verbatim.
    EngineError(String),
}

impl ImageError {
    /// Human-readable description of the failure.
    pub fn message(&self) -> (msg: String)
        ensures
            self matches ImageError::EngineError(m) ==> msg@ == m@,
    {
        match self {
            ImageError::InvalidDimension => {
                "Image width and height must be greater than zero".to_owned()
            },
            ImageError::BufferTooSmall => {
                "Size of the supplied buffer is smaller than the image requires".to_owned()
            },
            ImageError::UnsupportedMode => "Not supported mode of the foreign image".to_owned(),
            ImageError::InteropError => {
                "Unable to unwrap the internal structure of the foreign image".to_owned()
            },
            ImageError::UnknownMode => "Unknown mode of the foreign image".to_owned(),
            ImageError::HandleDetached => {
                "The foreign image was collected and the handle is detached".to_owned()
            },
            ImageError::InvalidCropBox => {
                "The crop box is empty or lies outside the image bounds".to_owned()
            },
            ImageError::EncodingMismatch => {
                "The requested encoding does not match the stored one".to_owned()
            },
            ImageError::LockPoisoned => {
                "The engine lock is poisoned by an earlier panic".to_owned()
            },
            ImageError::EngineError(msg) => msg.clone(),
        }
    }
}

} // verus!
