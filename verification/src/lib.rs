//! A verified course-management library built on a content-addressed,
//! append-only record store.
//!
//! Entities (courses, sections, contents) are immutable records. A stable
//! anchor record acts as each entity's permanent identifier; a single link
//! from the anchor points at the current version of the data record.
//! Updating an entity writes a new record and repoints that link; deleting
//! an entity removes only its anchor, orphaning the data records.
//!
//! Every write is subject to authorization validation: pure functions that
//! decide, from the record, its previous version and the set of signers,
//! whether the write is legal. Those functions are meant to be re-run
//! independently by every replica of the store.
//!
//! The crate is organised around a verified in-memory model of the
//! content-addressed store (`store`), shared resolution and validation
//! helpers (`helper`), the replica-side validator entry points
//! (`validation`), one module per entity kind — `course`, `section`,
//! `content` — holding its records, operations and validation rules, and
//! the protocol laws proved once and for all in `laws`.

pub mod content;
pub mod course;
pub mod error;
pub mod helper;
pub mod laws;
pub mod section;
pub mod store;
pub mod validation;
