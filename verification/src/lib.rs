//! Library of a command-line scaffolder for minimal Python projects.
//!
//! Everything the tool decides or renders is computed here: the derived
//! version strings, the catalog of rendered files with their contents, the
//! cache-cleaning and deletion decisions, and the command lines handed to the
//! external environment manager. The thin binary around this library performs
//! the actual file writes, removals and process launches.

pub mod actions;
pub mod plan;
pub mod templates;
pub mod version;
