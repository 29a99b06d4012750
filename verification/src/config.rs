//! Global credentials and per-project settings.

use vstd::prelude::*;

pub mod global;
pub mod project;

verus! {

/// What was found at the place where a configuration file is kept.
#[derive(Debug, Clone, PartialEq, Eq)]
pub enum ConfigFile<T> {
    /// There is no file.
    Absent,
    /// The file is there but could not be read.
    Unreadable(String),
    /// The file was read but is not a valid configuration.
    Malformed(String),
    /// The file holds this configuration.
    Parsed(T),
}

} // verus!
