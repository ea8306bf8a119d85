//! Platform-specific collection: an operating system with a full process model.
pub mod os;
