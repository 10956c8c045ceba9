//! What the program reads from its surroundings: configuration and file names.

pub mod config;
pub mod filesystem;
pub mod scan;
