//! The content data record: a learning resource inside a section.
//!
//! Contents have no anchor of their own: the section anchor links directly
//! to each current content record, and contents are addressed by record
//! address.

use vstd::prelude::*;

use crate::store::Address;

verus! {

/// The data record of a content. The teacher's address is stored redundantly
/// so that authorization checks need no graph walk.
#[derive(Debug, PartialEq)]
pub struct Content {
    pub name: String,
    pub url: String,
    pub description: String,
    pub timestamp: u64,
    /// Address of the section anchor this content belongs to; never changes.
    pub section_anchor_address: Address,
    pub teacher_address: Address,
}

/// The mathematical value of a `Content`.
#[verifier::ext_equal]
pub struct ContentV {
    pub name: Seq<char>,
    pub url: Seq<char>,
    pub description: Seq<char>,
    pub timestamp: u64,
    pub section_anchor_address: Address,
    pub teacher_address: Address,
}

impl View for Content {
    type V = ContentV;

    open spec fn view(&self) -> ContentV {
        ContentV {
            name: self.name@,
            url: self.url@,
            description: self.description@,
            timestamp: self.timestamp,
            section_anchor_address: self.section_anchor_address,
            teacher_address: self.teacher_address,
        }
    }
}

impl Content {
    pub fn new(
        name: String,
        section_anchor_address: Address,
        url: String,
        timestamp: u64,
        description: String,
        teacher_address: Address,
    ) -> (c: Content)
        ensures
            c@ == (ContentV {
                name: name@,
                url: url@,
                description: description@,
                timestamp,
                section_anchor_address,
                teacher_address,
            }),
    {
        Content { name, url, description, timestamp, section_anchor_address, teacher_address }
    }
}

impl Clone for Content {
    fn clone(&self) -> (c: Self)
        ensures
            c@ == self@,
    {
        Content {
            name: self.name.clone(),
            url: self.url.clone(),
            description: self.description.clone(),
            timestamp: self.timestamp,
            section_anchor_address: self.section_anchor_address,
            teacher_address: self.teacher_address,
        }
    }
}

} // verus!
