//! Looking a user's identifier up by name, in two flavours: one that gives a
//! reason when the name is unknown, and one that only signals absence.
//!
//! A name is known exactly when it begins with the marker character. Every
//! known name maps to the same identifier.

pub mod decimal;
pub mod fallible;
pub mod marker;
pub mod optional;
