//! The section data record: the mutable-by-versioning payload of a section.

use vstd::prelude::*;

use crate::store::Address;

verus! {

/// Longest allowed title, in bytes of its UTF-8 encoding.
pub const MAX_TITLE_LEN: usize = 200;

/// The data record of a section. A new record is written on every update;
/// the section anchor links to the current one. The teacher's address is
/// stored redundantly so that authorization checks need no graph walk.
#[derive(Debug, PartialEq)]
pub struct Section {
    pub title: String,
    /// Address of the course anchor this section belongs to; never changes.
    pub course_address: Address,
    pub timestamp: u64,
    /// Back-reference to the anchor that identifies this section.
    pub anchor_address: Address,
    pub teacher_address: Address,
}

/// The mathematical value of a `Section`.
#[verifier::ext_equal]
pub struct SectionV {
    pub title: Seq<char>,
    pub course_address: Address,
    pub timestamp: u64,
    pub anchor_address: Address,
    pub teacher_address: Address,
}

impl View for Section {
    type V = SectionV;

    open spec fn view(&self) -> SectionV {
        SectionV {
            title: self.title@,
            course_address: self.course_address,
            timestamp: self.timestamp,
            anchor_address: self.anchor_address,
            teacher_address: self.teacher_address,
        }
    }
}

impl Section {
    pub fn new(
        title: String,
        course_address: Address,
        timestamp: u64,
        anchor_address: Address,
        teacher_address: Address,
    ) -> (s: Section)
        ensures
            s@ == (SectionV {
                title: title@,
                course_address,
                timestamp,
                anchor_address,
                teacher_address,
            }),
    {
        Section { title, course_address, timestamp, anchor_address, teacher_address }
    }
}

impl Clone for Section {
    fn clone(&self) -> (s: Self)
        ensures
            s@ == self@,
    {
        Section {
            title: self.title.clone(),
            course_address: self.course_address,
            timestamp: self.timestamp,
            anchor_address: self.anchor_address,
            teacher_address: self.teacher_address,
        }
    }
}

} // verus!
