//! An on-demand image transformation library: validates request parameters,
//! derives a deterministic cache key, decides how a fetched image is resized
//! and re-encoded, and reports every failure through a closed error taxonomy.

pub mod cache;
pub mod cache_key;
pub mod decimal;
pub mod error;
pub mod image_processor;
pub mod pipeline;
pub mod sniff;
pub mod text;

pub use cache_key::generate_cache_key;
pub use pipeline::ErrorResponse;
pub use pipeline::ImageParams;
pub use sniff::guess_content_type;

use vstd::prelude::*;

verus! {

/// Largest width, in pixels, that a request may ask for.
pub const MAX_WIDTH: u32 = 3840;

/// Quality used when the request names none.
pub const DEFAULT_QUALITY: u8 = 75;

/// Hard ceiling on the number of bytes accepted from a source image.
pub const MAX_IMAGE_SIZE: usize = 50 * 1024 * 1024;

} // verus!
