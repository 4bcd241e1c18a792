//! The course anchor: the stable, content-derived identity record of a
//! course.

use vstd::prelude::*;

use crate::store::Address;

verus! {

/// The anchor record of a course. Its fields only establish the uniqueness
/// of the course; they are never displayed and never modified. The anchor's
/// address is the course's permanent public identifier.
#[derive(Debug, PartialEq)]
pub struct CourseAnchor {
    pub title: String,
    pub teacher_address: Address,
    pub timestamp: u64,
}

/// The mathematical value of a `CourseAnchor`.
#[verifier::ext_equal]
pub struct CourseAnchorV {
    pub title: Seq<char>,
    pub teacher_address: Address,
    pub timestamp: u64,
}

impl View for CourseAnchor {
    type V = CourseAnchorV;

    open spec fn view(&self) -> CourseAnchorV {
        CourseAnchorV {
            title: self.title@,
            teacher_address: self.teacher_address,
            timestamp: self.timestamp,
        }
    }
}

impl CourseAnchor {
    pub fn new(title: String, teacher_address: Address, timestamp: u64) -> (a: CourseAnchor)
        ensures
            a@ == (CourseAnchorV { title: title@, teacher_address, timestamp }),
    {
        CourseAnchor { title, teacher_address, timestamp }
    }
}

impl Clone for CourseAnchor {
    fn clone(&self) -> (a: Self)
        ensures
            a@ == self@,
    {
        CourseAnchor {
            title: self.title.clone(),
            teacher_address: self.teacher_address,
            timestamp: self.timestamp,
        }
    }
}

} // verus!
