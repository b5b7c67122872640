//! A drawing backend for charts on a vector-graphics rendering context.
//!
//! A chart is drawn from a few primitives on whole pixels: pixels, lines,
//! rectangles, paths, circles and polygons. A rendering context fills and
//! strokes shapes of a continuous plane. This library decides, for each
//! primitive, what the context is asked to do: which shape, at which
//! coordinates, in which colour. It makes no call into a rendering context
//! itself. Each function of [`PietBackend`] answers with the call to make,
//! and whoever holds the context makes it.
//!
//! Strokes run through the middles of pixels, so that a stroke one pixel
//! wide covers whole pixels; fills run from corner to corner. The
//! [`geometry`] module holds both conventions, [`path`] the assembly of
//! paths, [`color`] the conversion of colours, and [`binary64`] the reading
//! of an opacity that arrives as a floating-point bit pattern.

pub mod backend;
pub mod binary64;
pub mod color;
pub mod error;
pub mod geometry;
pub mod path;
pub mod render;

pub use backend::PietBackend;
pub use error::Error;
