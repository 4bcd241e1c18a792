//! Courses: the root entities of the hierarchy.

pub mod anchor;
pub mod catalog_anchor;
pub mod entry;
pub mod handlers;
pub mod validation;
