//! The authorization validator for content records.

use vstd::prelude::*;

use crate::content::entry::Content;
use crate::content::entry::ContentV;
use crate::error::ApiError;
use crate::helper;
use crate::store::Address;

verus! {

/// The verdict on creating a content record.
pub open spec fn create_spec(entry: ContentV, sources: Seq<Address>) -> Result<(), ApiError> {
    if !sources.contains(entry.teacher_address) {
        Err(ApiError::Unauthorized)
    } else {
        Ok(())
    }
}

/// Validates creating a content record: only the teacher of the owning
/// course may sign.
pub fn create(entry: &Content, validation_data_sources: &Vec<Address>) -> (r: Result<(), ApiError>)
    ensures
        r == create_spec(entry@, validation_data_sources@),
{
    helper::validate_only_teacher_can_do(&entry.teacher_address, validation_data_sources)
}

/// The verdict on modifying a content record. Changes to the immutable
/// fields — the teacher and the owning section — are rejected before
/// anything else is looked at, whoever signed.
pub open spec fn modify_spec(new_entry: ContentV, old_entry: ContentV, sources: Seq<Address>) -> Result<
    (),
    ApiError,
> {
    if old_entry.teacher_address != new_entry.teacher_address {
        Err(ApiError::ImmutableFieldChanged)
    } else if old_entry.section_anchor_address != new_entry.section_anchor_address {
        Err(ApiError::ImmutableFieldChanged)
    } else if !sources.contains(old_entry.teacher_address) {
        Err(ApiError::Unauthorized)
    } else {
        Ok(())
    }
}

/// Validates modifying a content record: ownership and the owning section
/// are immutable, and only the owning teacher may sign.
pub fn modify(
    new_entry: &Content,
    old_entry: &Content,
    validation_data_sources: &Vec<Address>,
) -> (r: Result<(), ApiError>)
    ensures
        r == modify_spec(new_entry@, old_entry@, validation_data_sources@),
{
    helper::validate_no_teacher_change(old_entry.teacher_address, new_entry.teacher_address)?;
    if new_entry.section_anchor_address != old_entry.section_anchor_address {
        return Err(ApiError::ImmutableFieldChanged);
    }
    helper::validate_only_teacher_can_do(&old_entry.teacher_address, validation_data_sources)
}

/// The verdict on deleting a content record.
pub open spec fn delete_spec(entry: ContentV, sources: Seq<Address>) -> Result<(), ApiError> {
    if !sources.contains(entry.teacher_address) {
        Err(ApiError::Unauthorized)
    } else {
        Ok(())
    }
}

/// Validates deleting a content record: only the owning teacher may sign.
pub fn delete(entry: &Content, validation_data_sources: &Vec<Address>) -> (r: Result<(), ApiError>)
    ensures
        r == delete_spec(entry@, validation_data_sources@),
{
    helper::validate_only_teacher_can_do(&entry.teacher_address, validation_data_sources)
}

} // verus!
