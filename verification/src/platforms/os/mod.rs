//! Collection on an operating system.
pub mod collector;
pub mod methods;
