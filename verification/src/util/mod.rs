//! Utilities: paths and temporary paths.

pub mod path;
pub mod temp;
