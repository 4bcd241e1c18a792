//! The catalog anchor: a singleton record acting as the root index of all
//! courses.
//!
//! Its payload is constant, so in a content-addressed store every commit of
//! it resolves to the same address; committing it on first use and every use
//! thereafter is therefore idempotent. Catalog links to course anchors are
//! never removed, even when a course is deleted: enumeration results are a
//! candidate list that callers must re-validate.

use vstd::prelude::*;

verus! {

/// The singleton catalog anchor record. It carries no payload: its identity
/// is its kind.
#[derive(Clone, Copy, Debug, PartialEq, Eq, Structural)]
pub struct CourseCatalogAnchor {}

impl CourseCatalogAnchor {
    pub fn new() -> (a: CourseCatalogAnchor) {
        CourseCatalogAnchor {}
    }
}

} // verus!
