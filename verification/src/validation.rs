//! The replica-side entry points of the authorization validator: one
//! dispatch over the kind of the record and the transition it undergoes,
//! and one over the kind of a link.
//!
//! The state machine is uniform. Data records move from nothing to live by
//! a create, stay live through modifies, and end in a terminal gone state
//! by a delete; a modify of a gone entity never reaches the validator,
//! because the store resolves no current record for it. Anchors know only
//! create and delete: their modify transition is rejected unconditionally,
//! and the catalog anchor cannot even be deleted.

use vstd::prelude::*;

use crate::content;
use crate::course;
use crate::error::ApiError;
use crate::error::Rejection;
use crate::section;
use crate::store::Address;
use crate::store::LinkKind;
use crate::store::Record;
use crate::store::RecordV;
use crate::store::Store;
use crate::store::StoreV;

verus! {

/// Whether a link is being added or removed.
#[derive(Clone, Copy, Debug, PartialEq, Eq, Structural)]
pub enum LinkOp {
    Add,
    Remove,
}

/// A record transition submitted to the validator: the write as one replica
/// sees it, with the previous version where there is one.
#[derive(Debug)]
pub enum RecordTransition {
    Create { new: Record },
    Modify { new: Record, old: Record },
    Delete { old: Record },
}

/// The mathematical value of a `RecordTransition`.
#[verifier::ext_equal]
pub enum TransitionV {
    Create { new: RecordV },
    Modify { new: RecordV, old: RecordV },
    Delete { old: RecordV },
}

impl View for RecordTransition {
    type V = TransitionV;

    open spec fn view(&self) -> TransitionV {
        match self {
            RecordTransition::Create { new } => TransitionV::Create { new: new@ },
            RecordTransition::Modify { new, old } => TransitionV::Modify { new: new@, old: old@ },
            RecordTransition::Delete { old } => TransitionV::Delete { old: old@ },
        }
    }
}

/// The verdict of the validator on a record transition, by kind and
/// transition. A modify whose versions are of different kinds is rejected:
/// the kind of a record is as immutable as its owner.
pub open spec fn validate_record_spec(t: TransitionV, sources: Seq<Address>) -> Result<
    (),
    ApiError,
> {
    match t {
        TransitionV::Create { new } => match new {
            RecordV::Catalog => Ok(()),
            RecordV::CourseAnchor(a) => course::validation::anchor_create_spec(a, sources),
            RecordV::Course(c) => course::validation::create_spec(c, sources),
            RecordV::SectionAnchor(a) => section::validation::anchor_create_spec(a, sources),
            RecordV::Section(s) => section::validation::create_spec(s, sources),
            RecordV::Content(c) => content::validation::create_spec(c, sources),
        },
        TransitionV::Modify { new, old } => match old {
            RecordV::Catalog => Err(ApiError::ValidationRejected(Rejection::AnchorModifyAttempted)),
            RecordV::CourseAnchor(_) => Err(
                ApiError::ValidationRejected(Rejection::AnchorModifyAttempted),
            ),
            RecordV::SectionAnchor(_) => Err(
                ApiError::ValidationRejected(Rejection::AnchorModifyAttempted),
            ),
            RecordV::Course(o) => match new {
                RecordV::Course(n) => course::validation::modify_spec(n, o, sources),
                _ => Err(ApiError::ImmutableFieldChanged),
            },
            RecordV::Section(o) => match new {
                RecordV::Section(n) => section::validation::modify_spec(n, o, sources),
                _ => Err(ApiError::ImmutableFieldChanged),
            },
            RecordV::Content(o) => match new {
                RecordV::Content(n) => content::validation::modify_spec(n, o, sources),
                _ => Err(ApiError::ImmutableFieldChanged),
            },
        },
        TransitionV::Delete { old } => match old {
            RecordV::Catalog => Err(ApiError::ValidationRejected(Rejection::CatalogDeleteAttempted)),
            RecordV::CourseAnchor(a) => course::validation::anchor_delete_spec(a, sources),
            RecordV::Course(c) => course::validation::delete_spec(c, sources),
            RecordV::SectionAnchor(a) => section::validation::anchor_delete_spec(a, sources),
            RecordV::Section(s) => section::validation::delete_spec(s, sources),
            RecordV::Content(c) => content::validation::delete_spec(c, sources),
        },
    }
}

/// Whether a record is an anchor: a course anchor, a section anchor or the
/// catalog anchor.
pub open spec fn is_anchor(r: RecordV) -> bool {
    r is Catalog || r is CourseAnchor || r is SectionAnchor
}

/// The owning teacher recorded on a record; the catalog anchor has none.
pub open spec fn record_owner(r: RecordV) -> Option<Address> {
    match r {
        RecordV::Catalog => None,
        RecordV::CourseAnchor(a) => Some(a.teacher_address),
        RecordV::Course(c) => Some(c.teacher_address),
        RecordV::SectionAnchor(a) => Some(a.teacher_address),
        RecordV::Section(s) => Some(s.teacher_address),
        RecordV::Content(c) => Some(c.teacher_address),
    }
}

/// The structural parent recorded on a record: the owning course of a
/// section, the owning section of a content. Courses and anchors of
/// courses have none.
pub open spec fn record_parent(r: RecordV) -> Option<Address> {
    match r {
        RecordV::Catalog => None,
        RecordV::CourseAnchor(_) => None,
        RecordV::Course(_) => None,
        RecordV::SectionAnchor(a) => Some(a.course_address),
        RecordV::Section(s) => Some(s.course_address),
        RecordV::Content(c) => Some(c.section_anchor_address),
    }
}

/// Re-derives whether a record transition is legal, from the record, its
/// previous version where there is one, and the set of signers. Every
/// replica runs this independently and reaches the same verdict.
///
/// A modify of any anchor is rejected unconditionally, independent of the
/// payload and of the signers.
pub fn validate_record(t: &RecordTransition, sources: &Vec<Address>) -> (r: Result<(), ApiError>)
    ensures
        r == validate_record_spec(t@, sources@),
        (t@ matches TransitionV::Modify { old, .. } && is_anchor(old)) ==> r == Err::<
            (),
            ApiError,
        >(ApiError::ValidationRejected(Rejection::AnchorModifyAttempted)),
        (t@ matches TransitionV::Modify { new, old } && !is_anchor(old) && (record_owner(new)
            != record_owner(old) || record_parent(new) != record_parent(old))) ==> r == Err::<
            (),
            ApiError,
        >(ApiError::ImmutableFieldChanged),
{
    match t {
        RecordTransition::Create { new } => match new {
            Record::Catalog(_) => course::validation::catalog_create(),
            Record::CourseAnchor(a) => course::validation::anchor_create(a, sources),
            Record::Course(c) => course::validation::create(c, sources),
            Record::SectionAnchor(a) => section::validation::anchor_create(a, sources),
            Record::Section(s) => section::validation::create(s, sources),
            Record::Content(c) => content::validation::create(c, sources),
        },
        RecordTransition::Modify { new, old } => match old {
            Record::Catalog(_) => course::validation::catalog_modify(),
            Record::CourseAnchor(_) => course::validation::anchor_modify(),
            Record::SectionAnchor(_) => section::validation::anchor_modify(),
            Record::Course(o) => match new {
                Record::Course(n) => course::validation::modify(n, o, sources),
                _ => Err(ApiError::ImmutableFieldChanged),
            },
            Record::Section(o) => match new {
                Record::Section(n) => section::validation::modify(n, o, sources),
                _ => Err(ApiError::ImmutableFieldChanged),
            },
            Record::Content(o) => match new {
                Record::Content(n) => content::validation::modify(n, o, sources),
                _ => Err(ApiError::ImmutableFieldChanged),
            },
        },
        RecordTransition::Delete { old } => match old {
            Record::Catalog(_) => course::validation::catalog_delete(),
            Record::CourseAnchor(a) => course::validation::anchor_delete(a, sources),
            Record::Course(c) => course::validation::delete(c, sources),
            Record::SectionAnchor(a) => section::validation::anchor_delete(a, sources),
            Record::Section(s) => section::validation::delete(s, sources),
            Record::Content(c) => content::validation::delete(c, sources),
        },
    }
}

/// The verdict of the validator on a link operation, by link kind. Only
/// the two current-record link kinds carry conditions; every other kind is
/// unconditionally accepted, as the membership and containment links are
/// guarded by the operations that write them.
pub open spec fn validate_link_spec(
    s: StoreV,
    op: LinkOp,
    base: Address,
    target: Address,
    kind: LinkKind,
    author: Address,
) -> Result<(), ApiError> {
    match kind {
        LinkKind::AnchorToCourse => course::validation::anchor_to_course_link_spec(
            s,
            op,
            base,
            target,
            author,
        ),
        LinkKind::AnchorToSection => section::validation::anchor_to_section_link_spec(
            s,
            op,
            base,
            target,
            author,
        ),
        _ => Ok(()),
    }
}

/// Re-derives whether a link operation is legal, from the replica's view of
/// the store and the author of the operation.
pub fn validate_link(
    store: &Store,
    op: LinkOp,
    base: Address,
    target: Address,
    kind: LinkKind,
    author: Address,
) -> (r: Result<(), ApiError>)
    ensures
        r == validate_link_spec(store@, op, base, target, kind, author),
{
    match kind {
        LinkKind::AnchorToCourse => course::validation::anchor_to_course_link(
            store,
            op,
            base,
            target,
            author,
        ),
        LinkKind::AnchorToSection => section::validation::anchor_to_section_link(
            store,
            op,
            base,
            target,
            author,
        ),
        _ => Ok(()),
    }
}

} // verus!
