//! The authorization validator for section records and section anchors.

use vstd::prelude::*;

use crate::error::ApiError;
use crate::error::Rejection;
use crate::helper;
use crate::helper::byte_len;
use crate::section::anchor::SectionAnchor;
use crate::section::anchor::SectionAnchorV;
use crate::section::entry::Section;
use crate::section::entry::SectionV;
use crate::section::entry::MAX_TITLE_LEN;
use crate::store::Address;
use crate::store::Record;
use crate::store::RecordV;
use crate::store::Store;
use crate::store::StoreV;
use crate::validation::LinkOp;

verus! {

/// The verdict on creating a section record.
pub open spec fn create_spec(entry: SectionV, sources: Seq<Address>) -> Result<(), ApiError> {
    if !sources.contains(entry.teacher_address) {
        Err(ApiError::Unauthorized)
    } else if byte_len(entry.title) > MAX_TITLE_LEN {
        Err(ApiError::ValidationRejected(Rejection::TitleTooLong))
    } else {
        Ok(())
    }
}

/// Validates creating a section record: only the teacher of the owning
/// course may sign, and the title must fit.
pub fn create(entry: &Section, validation_data_sources: &Vec<Address>) -> (r: Result<(), ApiError>)
    ensures
        r == create_spec(entry@, validation_data_sources@),
{
    helper::validate_only_teacher_can_do(&entry.teacher_address, validation_data_sources)?;
    helper::validate_entity_title(entry.title.as_str(), MAX_TITLE_LEN)
}

/// The verdict on modifying a section record. Changes to the immutable
/// fields — the teacher and the owning course — are rejected before
/// anything else is looked at, whoever signed.
pub open spec fn modify_spec(new_entry: SectionV, old_entry: SectionV, sources: Seq<Address>) -> Result<
    (),
    ApiError,
> {
    if old_entry.teacher_address != new_entry.teacher_address {
        Err(ApiError::ImmutableFieldChanged)
    } else if old_entry.course_address != new_entry.course_address {
        Err(ApiError::ImmutableFieldChanged)
    } else if !sources.contains(old_entry.teacher_address) {
        Err(ApiError::Unauthorized)
    } else if byte_len(new_entry.title) > MAX_TITLE_LEN {
        Err(ApiError::ValidationRejected(Rejection::TitleTooLong))
    } else {
        Ok(())
    }
}

/// Validates modifying a section record: ownership and the owning course
/// are immutable, only the owning teacher may sign, and the new title must
/// fit.
pub fn modify(
    new_entry: &Section,
    old_entry: &Section,
    validation_data_sources: &Vec<Address>,
) -> (r: Result<(), ApiError>)
    ensures
        r == modify_spec(new_entry@, old_entry@, validation_data_sources@),
{
    helper::validate_no_teacher_change(old_entry.teacher_address, new_entry.teacher_address)?;
    if new_entry.course_address != old_entry.course_address {
        return Err(ApiError::ImmutableFieldChanged);
    }
    helper::validate_only_teacher_can_do(&old_entry.teacher_address, validation_data_sources)?;
    helper::validate_entity_title(new_entry.title.as_str(), MAX_TITLE_LEN)
}

/// The verdict on deleting a section record.
pub open spec fn delete_spec(entry: SectionV, sources: Seq<Address>) -> Result<(), ApiError> {
    if !sources.contains(entry.teacher_address) {
        Err(ApiError::Unauthorized)
    } else {
        Ok(())
    }
}

/// Validates deleting a section record: only the owning teacher may sign.
pub fn delete(entry: &Section, validation_data_sources: &Vec<Address>) -> (r: Result<(), ApiError>)
    ensures
        r == delete_spec(entry@, validation_data_sources@),
{
    helper::validate_only_teacher_can_do(&entry.teacher_address, validation_data_sources)
}

/// The verdict on creating a section anchor.
pub open spec fn anchor_create_spec(entry: SectionAnchorV, sources: Seq<Address>) -> Result<
    (),
    ApiError,
> {
    if !sources.contains(entry.teacher_address) {
        Err(ApiError::Unauthorized)
    } else if byte_len(entry.title) > MAX_TITLE_LEN {
        Err(ApiError::ValidationRejected(Rejection::TitleTooLong))
    } else {
        Ok(())
    }
}

/// Validates creating a section anchor: only the teacher of the owning
/// course may sign, and the title must fit.
pub fn anchor_create(
    entry: &SectionAnchor,
    validation_data_sources: &Vec<Address>,
) -> (r: Result<(), ApiError>)
    ensures
        r == anchor_create_spec(entry@, validation_data_sources@),
{
    helper::validate_only_teacher_can_do(&entry.teacher_address, validation_data_sources)?;
    helper::validate_entity_title(entry.title.as_str(), MAX_TITLE_LEN)
}

/// Rejects every modification of a section anchor: anchors are created or
/// deleted, never modified, whatever the payload and whoever signed.
pub fn anchor_modify() -> (r: Result<(), ApiError>)
    ensures
        r == Err::<(), ApiError>(ApiError::ValidationRejected(Rejection::AnchorModifyAttempted)),
{
    Err(ApiError::ValidationRejected(Rejection::AnchorModifyAttempted))
}

/// The verdict on deleting a section anchor.
pub open spec fn anchor_delete_spec(entry: SectionAnchorV, sources: Seq<Address>) -> Result<
    (),
    ApiError,
> {
    if !sources.contains(entry.teacher_address) {
        Err(ApiError::Unauthorized)
    } else {
        Ok(())
    }
}

/// Validates deleting a section anchor: only the owning teacher may sign.
pub fn anchor_delete(
    entry: &SectionAnchor,
    validation_data_sources: &Vec<Address>,
) -> (r: Result<(), ApiError>)
    ensures
        r == anchor_delete_spec(entry@, validation_data_sources@),
{
    helper::validate_only_teacher_can_do(&entry.teacher_address, validation_data_sources)
}

/// The verdict on adding or removing a link from a section anchor to a
/// section record.
pub open spec fn anchor_to_section_link_spec(
    s: StoreV,
    op: LinkOp,
    base: Address,
    target: Address,
    author: Address,
) -> Result<(), ApiError> {
    match s.get(base) {
        Some(RecordV::SectionAnchor(b)) => match op {
            LinkOp::Add => match s.get(target) {
                Some(RecordV::Section(t)) => if b.teacher_address != t.teacher_address {
                    Err(ApiError::ValidationRejected(Rejection::CrossOwnerLink))
                } else if author != b.teacher_address {
                    Err(ApiError::Unauthorized)
                } else if b.course_address != t.course_address {
                    Err(ApiError::ValidationRejected(Rejection::CrossOwnerLink))
                } else {
                    Ok(())
                },
                _ => Err(ApiError::NotFound),
            },
            LinkOp::Remove => if author != b.teacher_address {
                Err(ApiError::Unauthorized)
            } else {
                Ok(())
            },
        },
        _ => Err(ApiError::NotFound),
    }
}

/// Validates a current-record link of a section anchor. Adding one requires
/// that anchor and section belong to the same teacher and to the same
/// course, and that the author is that teacher. Removing one requires only
/// that the author owns the anchor, since the target may already be gone.
pub fn anchor_to_section_link(
    store: &Store,
    op: LinkOp,
    base: Address,
    target: Address,
    author: Address,
) -> (r: Result<(), ApiError>)
    ensures
        r == anchor_to_section_link_spec(store@, op, base, target, author),
{
    let b = match store.get(base) {
        Some(Record::SectionAnchor(b)) => b,
        _ => {
            return Err(ApiError::NotFound);
        },
    };
    match op {
        LinkOp::Add => {
            let t = match store.get(target) {
                Some(Record::Section(t)) => t,
                _ => {
                    return Err(ApiError::NotFound);
                },
            };
            if b.teacher_address != t.teacher_address {
                Err(ApiError::ValidationRejected(Rejection::CrossOwnerLink))
            } else if author != b.teacher_address {
                Err(ApiError::Unauthorized)
            } else if b.course_address != t.course_address {
                Err(ApiError::ValidationRejected(Rejection::CrossOwnerLink))
            } else {
                Ok(())
            }
        },
        LinkOp::Remove => {
            if author != b.teacher_address {
                Err(ApiError::Unauthorized)
            } else {
                Ok(())
            }
        },
    }
}

} // verus!
