//! Conversion of raw display-capture buffers into encoder-ready HDR images.
//!
//! The pipeline validates and decodes a raw per-pixel buffer, packs the
//! quantized SDR and HDR layers in raster order, and computes the
//! content-light-level metadata that an HDR container carries. All of the
//! byte-exact logic lives here; per-sample floating-point color transforms
//! and codec invocation are left to the host integration.

pub mod api;
pub mod decode;
pub mod error;
pub mod light;
pub mod mode;
pub mod pack;
pub mod pixel;
pub mod screenshot;
