//! What a menu offers besides its operations.

pub mod arg;
