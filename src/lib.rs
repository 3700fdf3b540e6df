//! Locating the root of an mzr workspace: the nearest enclosing directory
//! that holds an `.mzr` metadata directory, a fallback suggestion taken from
//! the nearest git checkout, and the decisions of the interactive flow that
//! creates a new metadata directory.
//!
//! The library never touches the filesystem itself. It names the paths whose
//! existence must be probed, and it decides from the answers.
use vstd::prelude::*;

pub mod paths;
pub mod top_dirs;
pub mod laws;
