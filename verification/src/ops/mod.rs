//! The operations that a menu can start on the repository.

pub mod stash;
