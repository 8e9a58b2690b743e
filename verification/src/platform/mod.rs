//! Platform backends.

pub mod ios;
