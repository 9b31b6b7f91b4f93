//! Rendering core for a small GPU renderer: a pipeline registry that binds
//! each renderable primitive kind to a compiled draw pipeline, and a glyph
//! run builder that turns shaped line layouts into grouped, quantized,
//! cache-keyed glyph batches.

pub mod cache_key;
pub mod fixed;
pub mod glyph;
pub mod gpu;
pub mod metrics;
pub mod registry;
pub mod runs;
