//! Color encoding and texture sampling for an image-synthesis pipeline.
//!
//! The library converts between 8-bit gamma-encoded pixel bytes and linear
//! light intensities, bit-exact against a fixed pair of reference tables,
//! and addresses texels of a decoded raster.  Linear intensities are
//! carried as the raw bit patterns of IEEE 754 binary64 values, so that
//! every conversion, comparison and addressing step is ordinary integer
//! code and is verified; the floating-point blending arithmetic itself
//! lives with the callers.

pub mod fbits;
pub mod codec;
pub mod color;
pub mod texture;
