//! Frames for pictures: the layout of a picture on a larger canvas, the
//! classification of every canvas pixel, and the compositing of the framed
//! picture, all in exact integer arithmetic.
pub mod cli;
pub mod color;
pub mod config;
pub mod decimal;
pub mod errors;
pub mod file_collector;
pub mod frame;
pub mod geometry;
pub mod plain;
pub mod ratio;
pub mod text;

pub use plain::{add_border, BorderWidth};
