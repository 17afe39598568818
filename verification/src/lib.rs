//! Pixel-view abstraction and foreign-buffer interop layer.
//!
//! The crate derives typed views over three kinds of pixel storage — a
//! self-owned contiguous buffer, an externally supplied table of row
//! addresses, and the private pixel table of a foreign, garbage-collected
//! image object — applies optional rectangular cropping, and coordinates
//! access to the stateful resize/alpha engine of the `fast_image_resize`
//! crate.

pub mod bridge;
pub mod crop;
pub mod encoding;
pub mod engine;
pub mod error;
pub mod foreign_rows;
pub mod owned;
pub mod settings;
pub mod view;
