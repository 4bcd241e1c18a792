//! The section anchor: the stable, content-derived identity record of a
//! section.

use vstd::prelude::*;

use crate::store::Address;

verus! {

/// The anchor record of a section. Besides the uniqueness-establishing
/// fields it stores the address of the owning course anchor and the
/// teacher's address redundantly, so that authorization checks need no graph
/// walk.
#[derive(Debug, PartialEq)]
pub struct SectionAnchor {
    pub title: String,
    /// Address of the course anchor this section belongs to; never changes.
    pub course_address: Address,
    pub timestamp: u64,
    pub teacher_address: Address,
}

/// The mathematical value of a `SectionAnchor`.
#[verifier::ext_equal]
pub struct SectionAnchorV {
    pub title: Seq<char>,
    pub course_address: Address,
    pub timestamp: u64,
    pub teacher_address: Address,
}

impl View for SectionAnchor {
    type V = SectionAnchorV;

    open spec fn view(&self) -> SectionAnchorV {
        SectionAnchorV {
            title: self.title@,
            course_address: self.course_address,
            timestamp: self.timestamp,
            teacher_address: self.teacher_address,
        }
    }
}

impl SectionAnchor {
    pub fn new(
        title: String,
        course_address: Address,
        timestamp: u64,
        teacher_address: Address,
    ) -> (a: SectionAnchor)
        ensures
            a@ == (SectionAnchorV { title: title@, course_address, timestamp, teacher_address }),
    {
        SectionAnchor { title, course_address, timestamp, teacher_address }
    }
}

impl Clone for SectionAnchor {
    fn clone(&self) -> (a: Self)
        ensures
            a@ == self@,
    {
        SectionAnchor {
            title: self.title.clone(),
            course_address: self.course_address,
            timestamp: self.timestamp,
            teacher_address: self.teacher_address,
        }
    }
}

} // verus!
