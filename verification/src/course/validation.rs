//! The authorization validator for course records, course anchors and the
//! catalog anchor.
//!
//! These functions are pure and deterministic: every replica re-runs them
//! against its own view of the store, given the set of signers of the
//! write, and must reach the same verdict.

use vstd::prelude::*;

use crate::course::anchor::CourseAnchor;
use crate::course::anchor::CourseAnchorV;
use crate::course::entry::Course;
use crate::course::entry::CourseV;
use crate::course::entry::MAX_TITLE_LEN;
use crate::error::ApiError;
use crate::error::Rejection;
use crate::helper;
use crate::helper::byte_len;
use crate::store::Address;
use crate::store::Record;
use crate::store::RecordV;
use crate::store::Store;
use crate::store::StoreV;
use crate::validation::LinkOp;

verus! {

/// The verdict on creating a course record.
pub open spec fn create_spec(entry: CourseV, sources: Seq<Address>) -> Result<(), ApiError> {
    if !sources.contains(entry.teacher_address) {
        Err(ApiError::Unauthorized)
    } else if byte_len(entry.title) > MAX_TITLE_LEN {
        Err(ApiError::ValidationRejected(Rejection::TitleTooLong))
    } else {
        Ok(())
    }
}

/// Validates creating a course record: only the recorded teacher may sign,
/// and the title must fit.
pub fn create(entry: &Course, validation_data_sources: &Vec<Address>) -> (r: Result<(), ApiError>)
    ensures
        r == create_spec(entry@, validation_data_sources@),
{
    helper::validate_only_teacher_can_do(&entry.teacher_address, validation_data_sources)?;
    helper::validate_entity_title(entry.title.as_str(), MAX_TITLE_LEN)
}

/// The verdict on modifying a course record. A teacher change is rejected
/// before anything else is looked at, whoever signed.
pub open spec fn modify_spec(new_entry: CourseV, old_entry: CourseV, sources: Seq<Address>) -> Result<
    (),
    ApiError,
> {
    if old_entry.teacher_address != new_entry.teacher_address {
        Err(ApiError::ImmutableFieldChanged)
    } else if !sources.contains(old_entry.teacher_address) {
        Err(ApiError::Unauthorized)
    } else if byte_len(new_entry.title) > MAX_TITLE_LEN {
        Err(ApiError::ValidationRejected(Rejection::TitleTooLong))
    } else {
        Ok(())
    }
}

/// Validates modifying a course record: ownership is immutable, only the
/// owning teacher may sign, and the new title must fit.
pub fn modify(
    new_entry: &Course,
    old_entry: &Course,
    validation_data_sources: &Vec<Address>,
) -> (r: Result<(), ApiError>)
    ensures
        r == modify_spec(new_entry@, old_entry@, validation_data_sources@),
{
    helper::validate_no_teacher_change(old_entry.teacher_address, new_entry.teacher_address)?;
    helper::validate_only_teacher_can_do(&old_entry.teacher_address, validation_data_sources)?;
    helper::validate_entity_title(new_entry.title.as_str(), MAX_TITLE_LEN)
}

/// The verdict on deleting a course record.
pub open spec fn delete_spec(entry: CourseV, sources: Seq<Address>) -> Result<(), ApiError> {
    if !sources.contains(entry.teacher_address) {
        Err(ApiError::Unauthorized)
    } else {
        Ok(())
    }
}

/// Validates deleting a course record: only the owning teacher may sign.
pub fn delete(entry: &Course, validation_data_sources: &Vec<Address>) -> (r: Result<(), ApiError>)
    ensures
        r == delete_spec(entry@, validation_data_sources@),
{
    helper::validate_only_teacher_can_do(&entry.teacher_address, validation_data_sources)
}

/// The verdict on creating a course anchor.
pub open spec fn anchor_create_spec(entry: CourseAnchorV, sources: Seq<Address>) -> Result<
    (),
    ApiError,
> {
    if !sources.contains(entry.teacher_address) {
        Err(ApiError::Unauthorized)
    } else if byte_len(entry.title) > MAX_TITLE_LEN {
        Err(ApiError::ValidationRejected(Rejection::TitleTooLong))
    } else {
        Ok(())
    }
}

/// Validates creating a course anchor: only the recorded teacher may sign,
/// and the title must fit.
pub fn anchor_create(
    entry: &CourseAnchor,
    validation_data_sources: &Vec<Address>,
) -> (r: Result<(), ApiError>)
    ensures
        r == anchor_create_spec(entry@, validation_data_sources@),
{
    helper::validate_only_teacher_can_do(&entry.teacher_address, validation_data_sources)?;
    helper::validate_entity_title(entry.title.as_str(), MAX_TITLE_LEN)
}

/// Rejects every modification of a course anchor: anchors are created or
/// deleted, never modified, whatever the payload and whoever signed.
pub fn anchor_modify() -> (r: Result<(), ApiError>)
    ensures
        r == Err::<(), ApiError>(ApiError::ValidationRejected(Rejection::AnchorModifyAttempted)),
{
    Err(ApiError::ValidationRejected(Rejection::AnchorModifyAttempted))
}

/// The verdict on deleting a course anchor.
pub open spec fn anchor_delete_spec(entry: CourseAnchorV, sources: Seq<Address>) -> Result<
    (),
    ApiError,
> {
    if !sources.contains(entry.teacher_address) {
        Err(ApiError::Unauthorized)
    } else {
        Ok(())
    }
}

/// Validates deleting a course anchor: only the owning teacher may sign.
pub fn anchor_delete(
    entry: &CourseAnchor,
    validation_data_sources: &Vec<Address>,
) -> (r: Result<(), ApiError>)
    ensures
        r == anchor_delete_spec(entry@, validation_data_sources@),
{
    helper::validate_only_teacher_can_do(&entry.teacher_address, validation_data_sources)
}

/// Accepts every creation of the catalog anchor: anyone may commit it, and
/// there is nothing in it to check.
pub fn catalog_create() -> (r: Result<(), ApiError>)
    ensures
        r == Ok::<(), ApiError>(()),
{
    Ok(())
}

/// Rejects every modification of the catalog anchor.
pub fn catalog_modify() -> (r: Result<(), ApiError>)
    ensures
        r == Err::<(), ApiError>(ApiError::ValidationRejected(Rejection::AnchorModifyAttempted)),
{
    Err(ApiError::ValidationRejected(Rejection::AnchorModifyAttempted))
}

/// Rejects every deletion of the catalog anchor: the catalog is permanent.
pub fn catalog_delete() -> (r: Result<(), ApiError>)
    ensures
        r == Err::<(), ApiError>(ApiError::ValidationRejected(Rejection::CatalogDeleteAttempted)),
{
    Err(ApiError::ValidationRejected(Rejection::CatalogDeleteAttempted))
}

/// The verdict on adding or removing a link from a course anchor to a
/// course record.
pub open spec fn anchor_to_course_link_spec(
    s: StoreV,
    op: LinkOp,
    base: Address,
    target: Address,
    author: Address,
) -> Result<(), ApiError> {
    match s.get(base) {
        Some(RecordV::CourseAnchor(b)) => match op {
            LinkOp::Add => match s.get(target) {
                Some(RecordV::Course(t)) => if b.teacher_address != t.teacher_address {
                    Err(ApiError::ValidationRejected(Rejection::CrossOwnerLink))
                } else if author != b.teacher_address {
                    Err(ApiError::Unauthorized)
                } else {
                    Ok(())
                },
                _ => Err(ApiError::NotFound),
            },
            LinkOp::Remove => if author != b.teacher_address {
                Err(ApiError::Unauthorized)
            } else {
                Ok(())
            },
        },
        _ => Err(ApiError::NotFound),
    }
}

/// Validates a current-record link of a course anchor. Adding one requires
/// that the anchor and the course belong to the same teacher — rejecting
/// cross-teacher relinking — and that the author is that teacher. Removing
/// one requires only that the author owns the anchor, since the target may
/// already be gone.
pub fn anchor_to_course_link(
    store: &Store,
    op: LinkOp,
    base: Address,
    target: Address,
    author: Address,
) -> (r: Result<(), ApiError>)
    ensures
        r == anchor_to_course_link_spec(store@, op, base, target, author),
{
    let b = match store.get(base) {
        Some(Record::CourseAnchor(b)) => b,
        _ => {
            return Err(ApiError::NotFound);
        },
    };
    match op {
        LinkOp::Add => {
            let t = match store.get(target) {
                Some(Record::Course(t)) => t,
                _ => {
                    return Err(ApiError::NotFound);
                },
            };
            if b.teacher_address != t.teacher_address {
                Err(ApiError::ValidationRejected(Rejection::CrossOwnerLink))
            } else if author != b.teacher_address {
                Err(ApiError::Unauthorized)
            } else {
                Ok(())
            }
        },
        LinkOp::Remove => {
            if author != b.teacher_address {
                Err(ApiError::Unauthorized)
            } else {
                Ok(())
            }
        },
    }
}

} // verus!
