//! Album export: embeds descriptions and GPS positions of catalogued photos
//! into the Exif block of their image files.
//!
//! Angles are held as integers in millionths of a degree, the unit in which
//! the catalog stores them, so every conversion here is exact.

pub mod config;
pub mod exif_util;
pub mod fliker_config;
pub mod paths;
pub mod vec_extension;
