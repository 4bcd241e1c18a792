//! The failure taxonomy shared by every operation of the library.

use vstd::prelude::*;

verus! {

/// A reason for which the authorization validator rejects a write outright,
/// independently of who signed it.
#[derive(Clone, Copy, Debug, PartialEq, Eq, Structural)]
pub enum Rejection {
    /// A title exceeds the allowed length.
    TitleTooLong,
    /// A modify transition was attempted on an anchor, which is
    /// create-or-delete only.
    AnchorModifyAttempted,
    /// A link's endpoints are inconsistent: they belong to different
    /// teachers, or tie a section to a foreign course.
    CrossOwnerLink,
    /// A delete transition was attempted on the catalog anchor, which is
    /// permanent once created.
    CatalogDeleteAttempted,
}

/// A typed failure returned to the immediate caller. Nothing is retried
/// internally.
#[derive(Clone, Copy, Debug, PartialEq, Eq, Structural)]
pub enum ApiError {
    /// An address does not resolve to a record of the expected kind.
    NotFound,
    /// A create was attempted under a parent anchor with no resolvable
    /// current record.
    ParentDeleted,
    /// An update or delete was attempted against an anchor with no
    /// resolvable current record.
    EntityDeleted,
    /// The signer set excludes the required owner.
    Unauthorized,
    /// An update attempted to change the owning teacher or the structural
    /// parent of an entity.
    ImmutableFieldChanged,
    /// The authorization validator rejected the write.
    ValidationRejected(Rejection),
    /// An anchor resolves to a number of current-record links other than
    /// one. Signals a validation bug or a concurrent-write race; detected
    /// at read time, never resolved silently.
    CorruptLinkState,
}

impl ApiError {
    /// A human-readable description of the failure, suitable for display.
    pub fn message(&self) -> &'static str {
        match self {
            ApiError::NotFound => "the address does not resolve to an entry of the expected kind",
            ApiError::ParentDeleted => "the parent of the new entry has been deleted",
            ApiError::EntityDeleted => "the entry has been deleted",
            ApiError::Unauthorized => "only the teacher may perform this action",
            ApiError::ImmutableFieldChanged => {
                "the teacher and the structural parent of an entry can never change"
            },
            ApiError::ValidationRejected(Rejection::TitleTooLong) => "the title is too long",
            ApiError::ValidationRejected(Rejection::AnchorModifyAttempted) => {
                "an anchor entry can only be created or deleted, never modified"
            },
            ApiError::ValidationRejected(Rejection::CrossOwnerLink) => {
                "the linked entries do not belong to the same teacher and course"
            },
            ApiError::ValidationRejected(Rejection::CatalogDeleteAttempted) => {
                "the catalog anchor entry can never be deleted"
            },
            ApiError::CorruptLinkState => {
                "the anchor does not have exactly one link to a current entry"
            },
        }
    }
}

} // verus!
