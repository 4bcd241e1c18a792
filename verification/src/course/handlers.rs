//! The operations on courses: the versioned create / get-latest / update /
//! delete protocol, the catalog, membership and the containment of
//! sections.
//!
//! Every operation takes the store and the address of the acting agent
//! explicitly; the acting agent is the sole signer of the writes the
//! operation performs, and each write is validated exactly as every
//! replica of the store would re-validate it.

use vstd::prelude::*;

use crate::course::anchor::CourseAnchor;
use crate::course::anchor::CourseAnchorV;
use crate::course::catalog_anchor::CourseCatalogAnchor;
use crate::course::entry::Course;
use crate::course::entry::CourseV;
use crate::course::entry::MAX_TITLE_LEN;
use crate::course::validation;
use crate::error::ApiError;
use crate::error::Rejection;
use crate::helper;
use crate::helper::byte_len;
use crate::store::Address;
use crate::store::Link;
use crate::store::LinkKind;
use crate::store::Record;
use crate::store::RecordV;
use crate::store::Store;
use crate::store::has_room;
use crate::store::StoreV;

verus! {

/// The store and result of creating a course titled `title` by `agent`.
///
/// Nothing is written when the title is rejected. Otherwise the catalog
/// anchor is committed (idempotently), then the course anchor, then the
/// course record, and the three links are added: anchor to record, catalog
/// to anchor, and teacher to anchor.
pub open spec fn create_spec(s: StoreV, agent: Address, title: Seq<char>, timestamp: u64) -> (
    StoreV,
    Result<Address, ApiError>,
) {
    let anchor = CourseAnchorV { title, teacher_address: agent, timestamp };
    match validation::anchor_create_spec(anchor, seq![agent]) {
        Err(e) => (s, Err(e)),
        Ok(_) => {
            let s1 = s.put(RecordV::Catalog);
            let catalog_address = s.put_addr(RecordV::Catalog);
            let s2 = s1.put(RecordV::CourseAnchor(anchor));
            let anchor_address = s1.put_addr(RecordV::CourseAnchor(anchor));
            let course = CourseV {
                title,
                sections: Seq::empty(),
                teacher_address: agent,
                timestamp,
                anchor_address,
            };
            let s3 = s2.put(RecordV::Course(course));
            let record_address = s2.put_addr(RecordV::Course(course));
            let s4 = s3.add_link(
                Link { base: anchor_address, target: record_address, kind: LinkKind::AnchorToCourse },
            );
            let s5 = s4.add_link(
                Link { base: catalog_address, target: anchor_address, kind: LinkKind::CatalogToCourse },
            );
            let s6 = s5.add_link(
                Link { base: agent, target: anchor_address, kind: LinkKind::TeacherToCourse },
            );
            (s6, Ok(anchor_address))
        },
    }
}

/// Creates a course: writes its anchor and its first record, links the
/// anchor to the record, registers the anchor in the catalog, and links the
/// teacher to the anchor. Returns the anchor address, the course's
/// permanent handle.
pub fn create(store: &mut Store, acting_agent: Address, title: String, timestamp: u64) -> (r:
    Result<Address, ApiError>)
    requires
        has_room(old(store)@, 3),
    ensures
        final(store)@ == create_spec(old(store)@, acting_agent, title@, timestamp).0,
        r == create_spec(old(store)@, acting_agent, title@, timestamp).1,
        byte_len(title@) > MAX_TITLE_LEN ==> r == Err::<Address, ApiError>(
            ApiError::ValidationRejected(Rejection::TitleTooLong),
        ) && final(store)@ == old(store)@,
        byte_len(title@) <= MAX_TITLE_LEN ==> r is Ok,
{
    proof {
        assert(seq![acting_agent][0] == acting_agent);
    }
    let mut sources: Vec<Address> = Vec::new();
    sources.push(acting_agent);
    proof {
        assert(sources@ =~= seq![acting_agent]);
    }
    let course_anchor = CourseAnchor::new(title.clone(), acting_agent, timestamp);
    if let Err(e) = validation::anchor_create(&course_anchor, &sources) {
        return Err(e);
    }
    let catalog_address = store.put(Record::Catalog(CourseCatalogAnchor::new()));
    let course_anchor_address = store.put(Record::CourseAnchor(course_anchor));
    let new_course = Course::new(title, Vec::new(), acting_agent, timestamp, course_anchor_address);
    let new_course_address = store.put(Record::Course(new_course));
    store.put_link(course_anchor_address, new_course_address, LinkKind::AnchorToCourse);
    store.put_link(catalog_address, course_anchor_address, LinkKind::CatalogToCourse);
    store.put_link(acting_agent, course_anchor_address, LinkKind::TeacherToCourse);
    Ok(course_anchor_address)
}

/// What resolving the current course of a course anchor yields.
pub open spec fn latest_course(s: StoreV, course_anchor_address: Address) -> Result<
    Option<(CourseV, Address)>,
    ApiError,
> {
    match helper::latest_data(s, course_anchor_address, LinkKind::AnchorToCourse) {
        Ok(opt) => match opt {
            Some((rec, addr)) => match rec {
                RecordV::Course(c) => Ok(Some((c, addr))),
                _ => Err(ApiError::NotFound),
            },
            None => Ok(None),
        },
        Err(e) => Err(e),
    }
}

/// Resolves the current course record and its address from a course
/// anchor. The empty result means the course was deleted or never existed.
pub fn get_latest_course(store: &Store, course_anchor_address: &Address) -> (r: Result<
    Option<(Course, Address)>,
    ApiError,
>)
    ensures
        ({
            let expected = latest_course(store@, *course_anchor_address);
            match r {
                Ok(Some((c, addr))) => expected == Ok::<Option<(CourseV, Address)>, ApiError>(
                    Some((c@, addr)),
                ),
                Ok(None) => expected == Ok::<Option<(CourseV, Address)>, ApiError>(None),
                Err(e) => expected == Err::<Option<(CourseV, Address)>, ApiError>(e),
            }
        }),
{
    match helper::get_latest_data_entry(store, *course_anchor_address, LinkKind::AnchorToCourse)? {
        Some((rec, addr)) => match rec {
            Record::Course(c) => Ok(Some((c, addr))),
            _ => Err(ApiError::NotFound),
        },
        None => Ok(None),
    }
}

/// Resolves the current course record from a course anchor, dropping the
/// record address.
pub fn get_latest_course_entry(store: &Store, course_anchor_address: Address) -> (r: Result<
    Option<Course>,
    ApiError,
>)
    ensures
        ({
            let expected = latest_course(store@, course_anchor_address);
            match r {
                Ok(Some(c)) => expected matches Ok(Some((cv, _))) && c@ == cv,
                Ok(None) => expected == Ok::<Option<(CourseV, Address)>, ApiError>(None),
                Err(e) => expected == Err::<Option<(CourseV, Address)>, ApiError>(e),
            }
        }),
{
    match get_latest_course(store, &course_anchor_address)? {
        Some((course_entry, _course_entry_address)) => Ok(Some(course_entry)),
        None => Ok(None),
    }
}

/// The store and returned address of repointing a course anchor: the new
/// record is committed, the link to the previous record is removed, and a
/// link to the new record is added.
pub open spec fn commit_update_spec(
    s: StoreV,
    course: CourseV,
    previous_course_address: Address,
    course_anchor_address: Address,
) -> (StoreV, Address) {
    let s1 = s.put(RecordV::Course(course));
    let new_course_address = s.put_addr(RecordV::Course(course));
    let s2 = s1.remove_link(
        Link {
            base: course_anchor_address,
            target: previous_course_address,
            kind: LinkKind::AnchorToCourse,
        },
    );
    let s3 = s2.add_link(
        Link {
            base: course_anchor_address,
            target: new_course_address,
            kind: LinkKind::AnchorToCourse,
        },
    );
    (s3, course_anchor_address)
}

/// Commits an updated course record and repoints the anchor's
/// current-record link from the previous record to the new one.
fn commit_update(
    store: &mut Store,
    course: Course,
    previous_course_address: Address,
    course_anchor_address: Address,
) -> (r: Address)
    requires
        has_room(old(store)@, 1),
    ensures
        final(store)@ == commit_update_spec(
            old(store)@,
            course@,
            previous_course_address,
            course_anchor_address,
        ).0,
        r == commit_update_spec(
            old(store)@,
            course@,
            previous_course_address,
            course_anchor_address,
        ).1,
{
    let new_course_address = store.put(Record::Course(course));
    store.remove_link(course_anchor_address, previous_course_address, LinkKind::AnchorToCourse);
    store.put_link(course_anchor_address, new_course_address, LinkKind::AnchorToCourse);
    course_anchor_address
}

/// The store and result of updating the course at `course_anchor_address`
/// to a new title at `timestamp`, signed by `agent`.
///
/// The new record carries the sections, the teacher and the anchor
/// reference of the previous record forward unchanged. A course whose
/// anchor no longer resolves cannot be updated.
pub open spec fn update_spec(
    s: StoreV,
    agent: Address,
    title: Seq<char>,
    course_anchor_address: Address,
    timestamp: u64,
) -> (StoreV, Result<Address, ApiError>) {
    match latest_course(s, course_anchor_address) {
        Err(e) => (s, Err(e)),
        Ok(opt) => match opt {
            None => (s, Err(ApiError::EntityDeleted)),
            Some((previous_course, previous_course_address)) => {
                let new_course = CourseV {
                    title,
                    sections: previous_course.sections,
                    teacher_address: previous_course.teacher_address,
                    timestamp,
                    anchor_address: previous_course.anchor_address,
                };
                match validation::modify_spec(new_course, previous_course, seq![agent]) {
                    Err(e) => (s, Err(e)),
                    Ok(_) => {
                        let committed = commit_update_spec(
                            s,
                            new_course,
                            previous_course_address,
                            course_anchor_address,
                        );
                        (committed.0, Ok(committed.1))
                    },
                }
            },
        },
    }
}

/// Updates the title of a course: writes a new record carrying every
/// immutable field forward and repoints the anchor's link at it. Returns
/// the anchor address, which callers keep using as the course's handle.
pub fn update(
    store: &mut Store,
    acting_agent: Address,
    title: String,
    course_anchor_address: &Address,
    timestamp: u64,
) -> (r: Result<Address, ApiError>)
    requires
        has_room(old(store)@, 1),
    ensures
        final(store)@ == update_spec(
            old(store)@,
            acting_agent,
            title@,
            *course_anchor_address,
            timestamp,
        ).0,
        r == update_spec(old(store)@, acting_agent, title@, *course_anchor_address, timestamp).1,
        latest_course(old(store)@, *course_anchor_address) == Ok::<
            Option<(CourseV, Address)>,
            ApiError,
        >(None) ==> r == Err::<Address, ApiError>(ApiError::EntityDeleted) && final(store)@ == old(
            store,
        )@,
        (latest_course(old(store)@, *course_anchor_address) matches Ok(Some((prev, _)))
            && acting_agent != prev.teacher_address) ==> r == Err::<Address, ApiError>(
            ApiError::Unauthorized,
        ) && final(store)@ == old(store)@,
        (latest_course(old(store)@, *course_anchor_address) matches Ok(Some((prev, _)))
            && acting_agent == prev.teacher_address && byte_len(title@) <= MAX_TITLE_LEN) ==> r
            == Ok::<Address, ApiError>(*course_anchor_address),
{
    proof {
        assert(seq![acting_agent][0] == acting_agent);
    }
    let latest_course_result = get_latest_course(store, course_anchor_address)?;
    match latest_course_result {
        Some((previous_course, previous_course_address)) => {
            let new_course = Course::new(
                title,
                helper::clone_addresses(&previous_course.sections),
                previous_course.teacher_address,
                timestamp,
                previous_course.anchor_address,
            );
            let mut sources: Vec<Address> = Vec::new();
            sources.push(acting_agent);
            proof {
                assert(sources@ =~= seq![acting_agent]);
            }
            validation::modify(&new_course, &previous_course, &sources)?;
            let r = commit_update(
                store,
                new_course,
                previous_course_address,
                *course_anchor_address,
            );
            Ok(r)
        },
        None => Err(ApiError::EntityDeleted),
    }
}

/// The store and result of deleting the course at `course_anchor_address`,
/// signed by `agent`.
///
/// Only the anchor record is removed. The course records stay as permanent
/// orphans, and every link — catalog, membership, containment, even the
/// anchor's own current-record link — is left dangling by design; callers
/// must filter.
pub open spec fn delete_spec(s: StoreV, agent: Address, course_anchor_address: Address) -> (
    StoreV,
    Result<Address, ApiError>,
) {
    match s.get(course_anchor_address) {
        None => (s, Err(ApiError::EntityDeleted)),
        Some(rec) => match rec {
            RecordV::CourseAnchor(anchor) => match validation::anchor_delete_spec(
                anchor,
                seq![agent],
            ) {
                Err(e) => (s, Err(e)),
                Ok(_) => (s.remove(course_anchor_address), Ok(course_anchor_address)),
            },
            _ => (s, Err(ApiError::NotFound)),
        },
    }
}

/// Deletes a course by removing only its anchor record. A course whose
/// anchor no longer resolves cannot be deleted again: the repeated delete
/// fails rather than silently succeeding.
pub fn delete(store: &mut Store, acting_agent: Address, course_anchor_address: Address) -> (r:
    Result<Address, ApiError>)
    ensures
        final(store)@ == delete_spec(old(store)@, acting_agent, course_anchor_address).0,
        r == delete_spec(old(store)@, acting_agent, course_anchor_address).1,
        latest_course(old(store)@, course_anchor_address) == Ok::<
            Option<(CourseV, Address)>,
            ApiError,
        >(None) ==> r == Err::<Address, ApiError>(ApiError::EntityDeleted) && final(store)@ == old(
            store,
        )@,
        (old(store)@.get(course_anchor_address) matches Some(RecordV::CourseAnchor(anchor))
            && acting_agent != anchor.teacher_address) ==> r == Err::<Address, ApiError>(
            ApiError::Unauthorized,
        ) && final(store)@ == old(store)@,
        (old(store)@.get(course_anchor_address) matches Some(RecordV::CourseAnchor(anchor))
            && acting_agent == anchor.teacher_address) ==> r == Ok::<Address, ApiError>(
            course_anchor_address,
        ) && final(store)@ == old(store)@.remove(course_anchor_address),
{
    proof {
        assert(seq![acting_agent][0] == acting_agent);
    }
    let course_anchor = match store.get(course_anchor_address) {
        None => {
            return Err(ApiError::EntityDeleted);
        },
        Some(Record::CourseAnchor(anchor)) => anchor.clone(),
        Some(_) => {
            return Err(ApiError::NotFound);
        },
    };
    let mut sources: Vec<Address> = Vec::new();
    sources.push(acting_agent);
    proof {
        assert(sources@ =~= seq![acting_agent]);
    }
    validation::anchor_delete(&course_anchor, &sources)?;
    let _removed = store.remove_entry(course_anchor_address);
    Ok(course_anchor_address)
}

/// The candidate list of every course ever created: the targets of the
/// catalog anchor's links. Stale entries of deleted courses remain listed.
pub open spec fn all_courses(s: StoreV) -> Seq<Address> {
    match s.find(RecordV::Catalog) {
        Some(catalog_address) => s.link_targets(catalog_address, LinkKind::CatalogToCourse),
        None => Seq::empty(),
    }
}

/// Lists the anchor addresses of all courses ever registered in the
/// catalog. Entries are never removed, even when a course is deleted:
/// every address must be re-resolved before use.
pub fn list_all_courses(store: &Store) -> (r: Result<Vec<Address>, ApiError>)
    ensures
        r matches Ok(v) && v@ == all_courses(store@),
{
    match store.find_addr(&Record::Catalog(CourseCatalogAnchor::new())) {
        Some(catalog_address) => Ok(store.get_links(catalog_address, LinkKind::CatalogToCourse)),
        None => Ok(Vec::new()),
    }
}

/// Lists the anchor addresses of the courses the acting agent teaches.
pub fn get_my_courses(store: &Store, acting_agent: Address) -> (r: Result<Vec<Address>, ApiError>)
    ensures
        r matches Ok(v) && v@ == store@.link_targets(acting_agent, LinkKind::TeacherToCourse),
{
    Ok(store.get_links(acting_agent, LinkKind::TeacherToCourse))
}

/// Lists the anchor addresses of the courses the acting agent enrolled in.
pub fn get_my_enrolled_courses(store: &Store, acting_agent: Address) -> (r: Result<
    Vec<Address>,
    ApiError,
>)
    ensures
        r matches Ok(v) && v@ == store@.link_targets(acting_agent, LinkKind::StudentToCourse),
{
    Ok(store.get_links(acting_agent, LinkKind::StudentToCourse))
}

/// Lists the agents enrolled in the course at `course_anchor_address`.
pub fn get_students(store: &Store, course_anchor_address: Address) -> (r: Result<
    Vec<Address>,
    ApiError,
>)
    ensures
        r matches Ok(v) && v@ == store@.link_targets(
            course_anchor_address,
            LinkKind::CourseToStudent,
        ),
{
    Ok(store.get_links(course_anchor_address, LinkKind::CourseToStudent))
}

/// The store and result of enrolling `agent` in the course at
/// `course_anchor_address`: the paired membership links are added together.
pub open spec fn enrol_spec(s: StoreV, agent: Address, course_anchor_address: Address) -> (
    StoreV,
    Result<Address, ApiError>,
) {
    match s.get(course_anchor_address) {
        Some(RecordV::CourseAnchor(_)) => {
            let s1 = s.add_link(
                Link { base: agent, target: course_anchor_address, kind: LinkKind::StudentToCourse },
            );
            let s2 = s1.add_link(
                Link { base: course_anchor_address, target: agent, kind: LinkKind::CourseToStudent },
            );
            (s2, Ok(course_anchor_address))
        },
        _ => (s, Err(ApiError::NotFound)),
    }
}

/// Enrols the acting agent in a course: creates the bidirectional pair of
/// membership links, so the agent can list their courses and the course
/// can list its students. Any agent may enrol themselves — open enrollment
/// is the policy, not a gap — but the course anchor must resolve.
pub fn enrol_in_course(store: &mut Store, acting_agent: Address, course_anchor_address: Address) -> (r:
    Result<Address, ApiError>)
    ensures
        final(store)@ == enrol_spec(old(store)@, acting_agent, course_anchor_address).0,
        r == enrol_spec(old(store)@, acting_agent, course_anchor_address).1,
        r is Ok ==> final(store)@.links.contains(
            Link { base: acting_agent, target: course_anchor_address, kind: LinkKind::StudentToCourse },
        ) && final(store)@.links.contains(
            Link { base: course_anchor_address, target: acting_agent, kind: LinkKind::CourseToStudent },
        ),
{
    match store.get(course_anchor_address) {
        Some(Record::CourseAnchor(_)) => {},
        _ => {
            return Err(ApiError::NotFound);
        },
    }
    store.put_link(acting_agent, course_anchor_address, LinkKind::StudentToCourse);
    store.put_link(course_anchor_address, acting_agent, LinkKind::CourseToStudent);
    proof {
        let s0 = old(store)@;
        let l1 = Link {
            base: acting_agent,
            target: course_anchor_address,
            kind: LinkKind::StudentToCourse,
        };
        let l2 = Link {
            base: course_anchor_address,
            target: acting_agent,
            kind: LinkKind::CourseToStudent,
        };
        let s1 = s0.add_link(l1);
        if !s0.links.contains(l1) {
            assert(s1.links.last() == l1);
        }
        assert(s1.links.contains(l1));
        let s2 = s1.add_link(l2);
        if !s1.links.contains(l2) {
            assert(s2.links.last() == l2);
            let i = choose|i: int| 0 <= i < s1.links.len() && s1.links[i] == l1;
            assert(s2.links[i] == l1);
        }
        assert(s2.links.contains(l2));
        assert(s2.links.contains(l1));
    }
    Ok(course_anchor_address)
}

/// The store and result of adding a containment link from a course anchor
/// to a section anchor. Both ends must resolve as anchors of their kinds.
/// Adding the same child twice is absorbed by the store: links are
/// content-addressed, so no duplicate containment link can accumulate.
pub open spec fn add_section_spec(
    s: StoreV,
    course_anchor_address: Address,
    section_anchor_address: Address,
) -> (StoreV, Result<Address, ApiError>) {
    match (s.get(course_anchor_address), s.get(section_anchor_address)) {
        (Some(RecordV::CourseAnchor(_)), Some(RecordV::SectionAnchor(_))) => (
            s.add_link(
                Link {
                    base: course_anchor_address,
                    target: section_anchor_address,
                    kind: LinkKind::CourseToSection,
                },
            ),
            Ok(course_anchor_address),
        ),
        _ => (s, Err(ApiError::NotFound)),
    }
}

/// Adds the containment link from a course anchor to a section anchor,
/// after checking that both resolve.
pub fn add_section(
    store: &mut Store,
    course_anchor_address: &Address,
    section_anchor_address: &Address,
) -> (r: Result<Address, ApiError>)
    ensures
        final(store)@ == add_section_spec(
            old(store)@,
            *course_anchor_address,
            *section_anchor_address,
        ).0,
        r == add_section_spec(old(store)@, *course_anchor_address, *section_anchor_address).1,
{
    match store.get(*course_anchor_address) {
        Some(Record::CourseAnchor(_)) => {},
        _ => {
            return Err(ApiError::NotFound);
        },
    }
    match store.get(*section_anchor_address) {
        Some(Record::SectionAnchor(_)) => {},
        _ => {
            return Err(ApiError::NotFound);
        },
    }
    store.put_link(*course_anchor_address, *section_anchor_address, LinkKind::CourseToSection);
    Ok(*course_anchor_address)
}

/// The store and result of removing the containment link from a course
/// anchor to a section anchor. Both ends must resolve as anchors of their
/// kinds.
pub open spec fn delete_section_spec(
    s: StoreV,
    course_anchor_address: Address,
    section_anchor_address: Address,
) -> (StoreV, Result<Address, ApiError>) {
    match (s.get(course_anchor_address), s.get(section_anchor_address)) {
        (Some(RecordV::CourseAnchor(_)), Some(RecordV::SectionAnchor(_))) => (
            s.remove_link(
                Link {
                    base: course_anchor_address,
                    target: section_anchor_address,
                    kind: LinkKind::CourseToSection,
                },
            ),
            Ok(course_anchor_address),
        ),
        _ => (s, Err(ApiError::NotFound)),
    }
}

/// Removes the containment link from a course anchor to a section anchor,
/// after checking that both resolve.
pub fn delete_section(
    store: &mut Store,
    course_anchor_address: &Address,
    section_anchor_address: &Address,
) -> (r: Result<Address, ApiError>)
    ensures
        final(store)@ == delete_section_spec(
            old(store)@,
            *course_anchor_address,
            *section_anchor_address,
        ).0,
        r == delete_section_spec(old(store)@, *course_anchor_address, *section_anchor_address).1,
{
    match store.get(*course_anchor_address) {
        Some(Record::CourseAnchor(_)) => {},
        _ => {
            return Err(ApiError::NotFound);
        },
    }
    match store.get(*section_anchor_address) {
        Some(Record::SectionAnchor(_)) => {},
        _ => {
            return Err(ApiError::NotFound);
        },
    }
    store.remove_link(*course_anchor_address, *section_anchor_address, LinkKind::CourseToSection);
    Ok(*course_anchor_address)
}

} // verus!
