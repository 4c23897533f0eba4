//! Core raster primitives for a ray-tracing renderer: a dense 2D canvas of
//! pixels addressed in row-major order, and a binary PPM (P6) encoder that
//! turns a canvas of 8-bit RGB triples into an image byte buffer.

pub mod canvas;
pub mod ppm;
pub mod rgb;
