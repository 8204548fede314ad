//! The directory scanner: the photos that stand directly in one directory.

pub mod laws;
pub mod model;
pub mod record;
pub mod session;
