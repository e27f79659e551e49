//! Theme discovery and caching: a read-through cache of the last known-good
//! theme snapshot with time-based validity and scoped invalidation, and the
//! pure logic of a tolerant, memoizing theme loader (titles, classification,
//! color sources, preview images, aggregation of per-theme outcomes).

pub mod color_cache;
pub mod config;
pub mod error;
pub mod image;
pub mod loader;
pub mod naming;
pub mod palette;
pub mod sources;
pub mod text;
pub mod theme;
pub mod theme_cache;
pub mod title;
