//! Escape-time rendering of the Mandelbrot set over a rectangular region of
//! the complex plane.
//!
//! The library holds the discrete side of the computation: parsing the
//! delimiter-separated numeric pairs that describe an image, turning per-pixel
//! escape outcomes into grayscale intensities, and filling a row-major raster
//! buffer. The floating-point iteration itself is carried out by the caller,
//! which hands each pixel's escape outcome to [`render::render`].

pub mod parse;
pub mod render;
