//! Sections: the children of courses.

pub mod anchor;
pub mod entry;
pub mod handlers;
pub mod validation;
