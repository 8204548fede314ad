//! Sans-I/O core of a photo import tool: a directory inventory and a safe bulk
//! relocation of files into a sibling folder.
//!
//! The library never touches the file system. Each operation is a session that
//! names the next file-system request and is advanced with the reply to it; the
//! caller performs the requests. Every decision in between is made here.

pub mod clock;
pub mod message;
pub mod name;
pub mod outcome;
pub mod path;
pub mod probe;
pub mod relocate;
pub mod scan;
pub mod text;

