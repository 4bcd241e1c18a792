//! The course data record: the mutable-by-versioning payload of a course.

use vstd::prelude::*;

use crate::store::Address;

verus! {

/// Longest allowed title, in bytes of its UTF-8 encoding.
pub const MAX_TITLE_LEN: usize = 200;

/// The data record of a course. A new record is written on every update; the
/// course anchor links to the current one.
#[derive(Debug, PartialEq)]
pub struct Course {
    pub title: String,
    pub sections: Vec<Address>,
    pub teacher_address: Address,
    pub timestamp: u64,
    /// Back-reference to the anchor that identifies this course.
    pub anchor_address: Address,
}

/// The mathematical value of a `Course`.
#[verifier::ext_equal]
pub struct CourseV {
    pub title: Seq<char>,
    pub sections: Seq<Address>,
    pub teacher_address: Address,
    pub timestamp: u64,
    pub anchor_address: Address,
}

impl View for Course {
    type V = CourseV;

    open spec fn view(&self) -> CourseV {
        CourseV {
            title: self.title@,
            sections: self.sections@,
            teacher_address: self.teacher_address,
            timestamp: self.timestamp,
            anchor_address: self.anchor_address,
        }
    }
}

impl Course {
    pub fn new(
        title: String,
        sections: Vec<Address>,
        teacher_address: Address,
        timestamp: u64,
        anchor_address: Address,
    ) -> (c: Course)
        ensures
            c@ == (CourseV {
                title: title@,
                sections: sections@,
                teacher_address,
                timestamp,
                anchor_address,
            }),
    {
        Course { title, sections, teacher_address, timestamp, anchor_address }
    }
}

impl Clone for Course {
    fn clone(&self) -> (c: Self)
        ensures
            c@ == self@,
    {
        Course {
            title: self.title.clone(),
            sections: crate::helper::clone_addresses(&self.sections),
            teacher_address: self.teacher_address,
            timestamp: self.timestamp,
            anchor_address: self.anchor_address,
        }
    }
}

} // verus!
