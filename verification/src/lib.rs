//! Translation of internal failures into a small outward-facing error
//! taxonomy, and rendering of that taxonomy into HTTP status and body.

pub mod convert;
pub mod error;
mod outside;
