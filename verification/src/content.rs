//! Contents: the learning resources inside sections.

pub mod entry;
pub mod handlers;
pub mod validation;
