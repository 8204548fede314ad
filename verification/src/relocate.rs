//! The safe relocator: files of a containment directory are moved, one by one,
//! into a folder beside it, under names that overwrite nothing.

pub mod laws;
pub mod model;
pub mod session;
