//! The records of an exported photo catalog.

pub mod albums;
pub mod photo_item;
pub mod utils;
