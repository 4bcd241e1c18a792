//! The operations on sections: the versioned create / get-latest / update /
//! delete protocol, under a parent course.

use vstd::prelude::*;

use crate::course;
use crate::course::entry::CourseV;
use crate::error::ApiError;
use crate::helper;
use crate::helper::byte_len;
use crate::section::entry::MAX_TITLE_LEN;
use crate::section::anchor::SectionAnchor;
use crate::section::anchor::SectionAnchorV;
use crate::section::entry::Section;
use crate::section::entry::SectionV;
use crate::section::validation;
use crate::store::has_room;
use crate::store::Address;
use crate::store::Link;
use crate::store::LinkKind;
use crate::store::Record;
use crate::store::RecordV;
use crate::store::Store;
use crate::store::StoreV;

verus! {

/// The store and result of creating a section titled `title` under the
/// course at `course_anchor_address`, signed by `agent`.
///
/// The parent course must resolve to a current record — a deleted course
/// accepts no new sections — and the new section inherits the course's
/// teacher. The anchor and the first record are committed, the anchor is
/// linked to the record, and the course anchor is linked to the new
/// section anchor.
pub open spec fn create_spec(
    s: StoreV,
    agent: Address,
    title: Seq<char>,
    course_anchor_address: Address,
    timestamp: u64,
) -> (StoreV, Result<Address, ApiError>) {
    match course::handlers::latest_course(s, course_anchor_address) {
        Err(e) => (s, Err(e)),
        Ok(opt) => match opt {
            None => (s, Err(ApiError::ParentDeleted)),
            Some((previous_course, _)) => {
                let anchor = SectionAnchorV {
                    title,
                    course_address: course_anchor_address,
                    timestamp,
                    teacher_address: previous_course.teacher_address,
                };
                match validation::anchor_create_spec(anchor, seq![agent]) {
                    Err(e) => (s, Err(e)),
                    Ok(_) => {
                        let s1 = s.put(RecordV::SectionAnchor(anchor));
                        let section_anchor_address = s.put_addr(RecordV::SectionAnchor(anchor));
                        let section = SectionV {
                            title,
                            course_address: course_anchor_address,
                            timestamp,
                            anchor_address: section_anchor_address,
                            teacher_address: previous_course.teacher_address,
                        };
                        let s2 = s1.put(RecordV::Section(section));
                        let new_section_address = s1.put_addr(RecordV::Section(section));
                        let s3 = s2.add_link(
                            Link {
                                base: section_anchor_address,
                                target: new_section_address,
                                kind: LinkKind::AnchorToSection,
                            },
                        );
                        let added = course::handlers::add_section_spec(
                            s3,
                            course_anchor_address,
                            section_anchor_address,
                        );
                        match added.1 {
                            Ok(_) => (added.0, Ok(section_anchor_address)),
                            Err(e) => (added.0, Err(e)),
                        }
                    },
                }
            },
        },
    }
}

/// Creates a section under a course. Fails when the course no longer has a
/// current record, or when the acting agent is not the course's teacher.
/// Returns the section anchor address, the section's permanent handle.
pub fn create(
    store: &mut Store,
    acting_agent: Address,
    title: String,
    course_anchor_address: &Address,
    timestamp: u64,
) -> (r: Result<Address, ApiError>)
    requires
        has_room(old(store)@, 2),
    ensures
        final(store)@ == create_spec(
            old(store)@,
            acting_agent,
            title@,
            *course_anchor_address,
            timestamp,
        ).0,
        r == create_spec(old(store)@, acting_agent, title@, *course_anchor_address, timestamp).1,
        course::handlers::latest_course(old(store)@, *course_anchor_address) == Ok::<
            Option<(CourseV, Address)>,
            ApiError,
        >(None) ==> r == Err::<Address, ApiError>(ApiError::ParentDeleted) && final(store)@ == old(
            store,
        )@,
        (course::handlers::latest_course(old(store)@, *course_anchor_address) matches Ok(
            Some((course, _)),
        ) && acting_agent != course.teacher_address) ==> r == Err::<Address, ApiError>(
            ApiError::Unauthorized,
        ) && final(store)@ == old(store)@,
{
    proof {
        assert(seq![acting_agent][0] == acting_agent);
    }
    let latest_course_result = course::handlers::get_latest_course(store, course_anchor_address)?;
    match latest_course_result {
        Some((previous_course, _previous_course_address)) => {
            let mut sources: Vec<Address> = Vec::new();
            sources.push(acting_agent);
            proof {
                assert(sources@ =~= seq![acting_agent]);
            }
            let section_anchor = SectionAnchor::new(
                title.clone(),
                *course_anchor_address,
                timestamp,
                previous_course.teacher_address,
            );
            if let Err(e) = validation::anchor_create(&section_anchor, &sources) {
                return Err(e);
            }
            let section_anchor_address = store.put(Record::SectionAnchor(section_anchor));
            let new_section = Section::new(
                title,
                *course_anchor_address,
                timestamp,
                section_anchor_address,
                previous_course.teacher_address,
            );
            let new_section_address = store.put(Record::Section(new_section));
            store.put_link(section_anchor_address, new_section_address, LinkKind::AnchorToSection);
            course::handlers::add_section(store, course_anchor_address, &section_anchor_address)?;
            Ok(section_anchor_address)
        },
        None => Err(ApiError::ParentDeleted),
    }
}

/// What resolving the current section of a section anchor yields.
pub open spec fn latest_section(s: StoreV, section_anchor_address: Address) -> Result<
    Option<(SectionV, Address)>,
    ApiError,
> {
    match helper::latest_data(s, section_anchor_address, LinkKind::AnchorToSection) {
        Ok(opt) => match opt {
            Some((rec, addr)) => match rec {
                RecordV::Section(sec) => Ok(Some((sec, addr))),
                _ => Err(ApiError::NotFound),
            },
            None => Ok(None),
        },
        Err(e) => Err(e),
    }
}

/// Resolves the current section record and its address from a section
/// anchor. The empty result means the section was deleted or never
/// existed.
pub fn get_latest_section(store: &Store, section_anchor_address: &Address) -> (r: Result<
    Option<(Section, Address)>,
    ApiError,
>)
    ensures
        ({
            let expected = latest_section(store@, *section_anchor_address);
            match r {
                Ok(Some((sec, addr))) => expected == Ok::<Option<(SectionV, Address)>, ApiError>(
                    Some((sec@, addr)),
                ),
                Ok(None) => expected == Ok::<Option<(SectionV, Address)>, ApiError>(None),
                Err(e) => expected == Err::<Option<(SectionV, Address)>, ApiError>(e),
            }
        }),
{
    match helper::get_latest_data_entry(store, *section_anchor_address, LinkKind::AnchorToSection)? {
        Some((rec, addr)) => match rec {
            Record::Section(sec) => Ok(Some((sec, addr))),
            _ => Err(ApiError::NotFound),
        },
        None => Ok(None),
    }
}

/// Resolves the current section record from a section anchor, dropping the
/// record address.
pub fn get_latest_section_entry(store: &Store, section_anchor_address: Address) -> (r: Result<
    Option<Section>,
    ApiError,
>)
    ensures
        ({
            let expected = latest_section(store@, section_anchor_address);
            match r {
                Ok(Some(sec)) => expected matches Ok(Some((sv, _))) && sec@ == sv,
                Ok(None) => expected == Ok::<Option<(SectionV, Address)>, ApiError>(None),
                Err(e) => expected == Err::<Option<(SectionV, Address)>, ApiError>(e),
            }
        }),
{
    match get_latest_section(store, &section_anchor_address)? {
        Some((section_entry, _section_entry_address)) => Ok(Some(section_entry)),
        None => Ok(None),
    }
}

/// The store and result of updating the section at
/// `section_anchor_address` to a new title at `timestamp`, signed by
/// `agent`. The new record carries the course, the anchor reference and
/// the teacher forward unchanged.
pub open spec fn update_spec(
    s: StoreV,
    agent: Address,
    title: Seq<char>,
    section_anchor_address: Address,
    timestamp: u64,
) -> (StoreV, Result<Address, ApiError>) {
    match latest_section(s, section_anchor_address) {
        Err(e) => (s, Err(e)),
        Ok(opt) => match opt {
            None => (s, Err(ApiError::EntityDeleted)),
            Some((previous_section, previous_section_address)) => {
                let new_section = SectionV {
                    title,
                    course_address: previous_section.course_address,
                    timestamp,
                    anchor_address: previous_section.anchor_address,
                    teacher_address: previous_section.teacher_address,
                };
                match validation::modify_spec(new_section, previous_section, seq![agent]) {
                    Err(e) => (s, Err(e)),
                    Ok(_) => {
                        let s1 = s.put(RecordV::Section(new_section));
                        let new_section_address = s.put_addr(RecordV::Section(new_section));
                        let s2 = s1.remove_link(
                            Link {
                                base: section_anchor_address,
                                target: previous_section_address,
                                kind: LinkKind::AnchorToSection,
                            },
                        );
                        let s3 = s2.add_link(
                            Link {
                                base: section_anchor_address,
                                target: new_section_address,
                                kind: LinkKind::AnchorToSection,
                            },
                        );
                        (s3, Ok(section_anchor_address))
                    },
                }
            },
        },
    }
}

/// Updates the title of a section: writes a new record carrying every
/// immutable field forward and repoints the anchor's link at it. Returns
/// the anchor address, which callers keep using as the section's handle.
pub fn update(
    store: &mut Store,
    acting_agent: Address,
    title: String,
    section_anchor_address: &Address,
    timestamp: u64,
) -> (r: Result<Address, ApiError>)
    requires
        has_room(old(store)@, 1),
    ensures
        final(store)@ == update_spec(
            old(store)@,
            acting_agent,
            title@,
            *section_anchor_address,
            timestamp,
        ).0,
        r == update_spec(old(store)@, acting_agent, title@, *section_anchor_address, timestamp).1,
        latest_section(old(store)@, *section_anchor_address) == Ok::<
            Option<(SectionV, Address)>,
            ApiError,
        >(None) ==> r == Err::<Address, ApiError>(ApiError::EntityDeleted) && final(store)@ == old(
            store,
        )@,
        (latest_section(old(store)@, *section_anchor_address) matches Ok(Some((prev, _)))
            && acting_agent != prev.teacher_address) ==> r == Err::<Address, ApiError>(
            ApiError::Unauthorized,
        ) && final(store)@ == old(store)@,
        (latest_section(old(store)@, *section_anchor_address) matches Ok(Some((prev, _)))
            && acting_agent == prev.teacher_address && byte_len(title@) <= MAX_TITLE_LEN) ==> r
            == Ok::<Address, ApiError>(*section_anchor_address),
{
    proof {
        assert(seq![acting_agent][0] == acting_agent);
    }
    let latest_section_result = get_latest_section(store, section_anchor_address)?;
    match latest_section_result {
        Some((previous_section, previous_section_address)) => {
            let new_section = Section::new(
                title,
                previous_section.course_address,
                timestamp,
                previous_section.anchor_address,
                previous_section.teacher_address,
            );
            let mut sources: Vec<Address> = Vec::new();
            sources.push(acting_agent);
            proof {
                assert(sources@ =~= seq![acting_agent]);
            }
            validation::modify(&new_section, &previous_section, &sources)?;
            let new_section_address = store.put(Record::Section(new_section));
            store.remove_link(
                *section_anchor_address,
                previous_section_address,
                LinkKind::AnchorToSection,
            );
            store.put_link(*section_anchor_address, new_section_address, LinkKind::AnchorToSection);
            Ok(*section_anchor_address)
        },
        None => Err(ApiError::EntityDeleted),
    }
}

/// The store and result of deleting the section at
/// `section_anchor_address`, signed by `agent`.
///
/// Only the anchor record is removed; the section records and every link —
/// including the course's containment link, which now dangles — stay by
/// design and must be filtered by readers.
pub open spec fn delete_spec(s: StoreV, agent: Address, section_anchor_address: Address) -> (
    StoreV,
    Result<Address, ApiError>,
) {
    match s.get(section_anchor_address) {
        None => (s, Err(ApiError::EntityDeleted)),
        Some(rec) => match rec {
            RecordV::SectionAnchor(anchor) => match validation::anchor_delete_spec(
                anchor,
                seq![agent],
            ) {
                Err(e) => (s, Err(e)),
                Ok(_) => (s.remove(section_anchor_address), Ok(section_anchor_address)),
            },
            _ => (s, Err(ApiError::NotFound)),
        },
    }
}

/// Deletes a section by removing only its anchor record. A section whose
/// anchor no longer resolves cannot be deleted again: the repeated delete
/// fails rather than silently succeeding.
pub fn delete(store: &mut Store, acting_agent: Address, section_anchor_address: Address) -> (r:
    Result<Address, ApiError>)
    ensures
        final(store)@ == delete_spec(old(store)@, acting_agent, section_anchor_address).0,
        r == delete_spec(old(store)@, acting_agent, section_anchor_address).1,
        latest_section(old(store)@, section_anchor_address) == Ok::<
            Option<(SectionV, Address)>,
            ApiError,
        >(None) ==> r == Err::<Address, ApiError>(ApiError::EntityDeleted) && final(store)@ == old(
            store,
        )@,
        (old(store)@.get(section_anchor_address) matches Some(RecordV::SectionAnchor(anchor))
            && acting_agent != anchor.teacher_address) ==> r == Err::<Address, ApiError>(
            ApiError::Unauthorized,
        ) && final(store)@ == old(store)@,
        (old(store)@.get(section_anchor_address) matches Some(RecordV::SectionAnchor(anchor))
            && acting_agent == anchor.teacher_address) ==> r == Ok::<Address, ApiError>(
            section_anchor_address,
        ) && final(store)@ == old(store)@.remove(section_anchor_address),
{
    proof {
        assert(seq![acting_agent][0] == acting_agent);
    }
    let section_anchor = match store.get(section_anchor_address) {
        None => {
            return Err(ApiError::EntityDeleted);
        },
        Some(Record::SectionAnchor(anchor)) => anchor.clone(),
        Some(_) => {
            return Err(ApiError::NotFound);
        },
    };
    let mut sources: Vec<Address> = Vec::new();
    sources.push(acting_agent);
    proof {
        assert(sources@ =~= seq![acting_agent]);
    }
    validation::anchor_delete(&section_anchor, &sources)?;
    let _removed = store.remove_entry(section_anchor_address);
    Ok(section_anchor_address)
}

} // verus!
