//! One collection step per metric category.
pub mod components;
pub mod cpu;
pub mod disk;
pub mod memory;
pub mod network;
pub mod processes;
pub mod system;
