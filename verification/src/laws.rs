//! The laws of the anchor-indirection versioning protocol, proved once and
//! for all over the transition functions of the handlers.

use vstd::prelude::*;

use crate::course;
use crate::course::anchor::CourseAnchorV;
use crate::course::entry::CourseV;
use crate::course::entry::MAX_TITLE_LEN;
use crate::error::ApiError;
use crate::helper::byte_len;
use crate::section;
use crate::section::anchor::SectionAnchorV;
use crate::section::entry::SectionV;
use crate::store::find_slot;
use crate::store::lemma_contains_target;
use crate::store::lemma_find_slot;
use crate::store::lemma_find_slot_same_values;
use crate::store::lemma_find_stable;
use crate::store::lemma_put_fresh;
use crate::store::lemma_put_get;
use crate::store::lemma_targets_add_link;
use crate::store::lemma_targets_without;
use crate::store::without_address;
use crate::store::has_room;
use crate::store::Address;
use crate::store::Link;
use crate::store::LinkKind;
use crate::store::RecordV;
use crate::store::StoreV;

verus! {

/// After a course is created, resolving its anchor returns exactly the
/// just-created payload, at a record address distinct from the anchor
/// address, through exactly one current-record link; and the anchor
/// address stands in the catalog's candidate list of all courses.
///
/// The course must be new — no record with the anchor's or the first
/// record's content may be committed yet, and no stray current-record
/// link may sit at the address the anchor will receive. A store built by
/// the operations of this library from fresh input satisfies all three.
pub proof fn lemma_create_course_then_get_latest(
    s: StoreV,
    agent: Address,
    title: Seq<char>,
    timestamp: u64,
)
    requires
        has_room(s, 3),
        byte_len(title) <= MAX_TITLE_LEN,
        s.find(
            RecordV::CourseAnchor(CourseAnchorV { title, teacher_address: agent, timestamp }),
        ) is None,
        ({
            let anchor = CourseAnchorV { title, teacher_address: agent, timestamp };
            let s1 = s.put(RecordV::Catalog);
            let anchor_address = s1.put_addr(RecordV::CourseAnchor(anchor));
            let course = CourseV {
                title,
                sections: Seq::empty(),
                teacher_address: agent,
                timestamp,
                anchor_address,
            };
            &&& s.find(RecordV::Course(course)) is None
            &&& s.link_targets(anchor_address, LinkKind::AnchorToCourse) == Seq::<Address>::empty()
        }),
    ensures
        ({
            let outcome = course::handlers::create_spec(s, agent, title, timestamp);
            let anchor = CourseAnchorV { title, teacher_address: agent, timestamp };
            let s1 = s.put(RecordV::Catalog);
            let anchor_address = s1.put_addr(RecordV::CourseAnchor(anchor));
            let s2 = s1.put(RecordV::CourseAnchor(anchor));
            let course = CourseV {
                title,
                sections: Seq::empty(),
                teacher_address: agent,
                timestamp,
                anchor_address,
            };
            let record_address = s2.put_addr(RecordV::Course(course));
            &&& outcome.1 == Ok::<Address, ApiError>(anchor_address)
            &&& record_address != anchor_address
            &&& course::handlers::latest_course(outcome.0, anchor_address) == Ok::<
                Option<(CourseV, Address)>,
                ApiError,
            >(Some((course, record_address)))
            &&& outcome.0.link_targets(anchor_address, LinkKind::AnchorToCourse) == seq![
                record_address,
            ]
            &&& course::handlers::all_courses(outcome.0).contains(anchor_address)
        }),
{
    let anchor = CourseAnchorV { title, teacher_address: agent, timestamp };
    let arec = RecordV::CourseAnchor(anchor);
    assert(seq![agent][0] == agent);
    let s1 = s.put(RecordV::Catalog);
    lemma_find_slot(s.slots, RecordV::Catalog);
    lemma_put_fresh(s, RecordV::Catalog, arec);
    lemma_find_slot(s1.slots, arec);
    let anchor_address = s1.put_addr(arec);
    assert(anchor_address.0 == s1.slots.len() + 1);
    let s2 = s1.put(arec);
    let course = CourseV {
        title,
        sections: Seq::empty(),
        teacher_address: agent,
        timestamp,
        anchor_address,
    };
    let crec = RecordV::Course(course);
    lemma_find_slot(s.slots, crec);
    lemma_put_fresh(s, RecordV::Catalog, crec);
    lemma_put_fresh(s1, arec, crec);
    lemma_find_slot(s2.slots, crec);
    let record_address = s2.put_addr(crec);
    assert(record_address.0 == s2.slots.len() + 1);
    let s3 = s2.put(crec);
    lemma_put_get(s1, arec);
    lemma_put_get(s2, crec);
    assert(s3.get(anchor_address) == Some(arec));
    assert(s3.get(record_address) == Some(crec));
    let link1 = Link {
        base: anchor_address,
        target: record_address,
        kind: LinkKind::AnchorToCourse,
    };
    assert(s3.links == s.links);
    assert(s3.link_targets(anchor_address, LinkKind::AnchorToCourse) == Seq::<Address>::empty());
    if s3.links.contains(link1) {
        lemma_contains_target(s3.links, link1);
    }
    let s4 = s3.add_link(link1);
    lemma_targets_add_link(s3, link1, anchor_address, LinkKind::AnchorToCourse);
    assert(s4.link_targets(anchor_address, LinkKind::AnchorToCourse) == Seq::<
        Address,
    >::empty().push(record_address));
    let catalog_address = s.put_addr(RecordV::Catalog);
    let link2 = Link {
        base: catalog_address,
        target: anchor_address,
        kind: LinkKind::CatalogToCourse,
    };
    let s5 = s4.add_link(link2);
    lemma_targets_add_link(s4, link2, anchor_address, LinkKind::AnchorToCourse);
    let link3 = Link { base: agent, target: anchor_address, kind: LinkKind::TeacherToCourse };
    let s6 = s5.add_link(link3);
    lemma_targets_add_link(s5, link3, anchor_address, LinkKind::AnchorToCourse);
    assert(s6.link_targets(anchor_address, LinkKind::AnchorToCourse) =~= seq![record_address]);
    assert(s6.get(anchor_address) == Some(arec));
    assert(s6.get(record_address) == Some(crec));
    assert(s6.link_targets(anchor_address, LinkKind::AnchorToCourse)[0] == record_address);
    // The catalog's address is stable through the later commits, so the
    // registration link it received is what the candidate list reads.
    if s.find(RecordV::Catalog) is None {
        lemma_find_slot(s1.slots, RecordV::Catalog);
        assert(s1.slots[s.slots.len() as int].value == RecordV::Catalog);
        assert(find_slot(s1.slots, RecordV::Catalog) is Some);
    }
    assert(s1.find(RecordV::Catalog) == Some(catalog_address));
    lemma_find_stable(s1, arec, RecordV::Catalog);
    lemma_find_stable(s2, crec, RecordV::Catalog);
    assert(s3.find(RecordV::Catalog) == Some(catalog_address));
    assert(s6.find(RecordV::Catalog) == Some(catalog_address));
    if !s4.links.contains(link2) {
        assert(s5.links.last() == link2);
    }
    assert(s5.links.contains(link2));
    if !s5.links.contains(link3) {
        let i = choose|i: int| 0 <= i < s5.links.len() && s5.links[i] == link2;
        assert(s6.links[i] == link2);
    }
    assert(s6.links.contains(link2));
    lemma_contains_target(s6.links, link2);
}

/// After the owning teacher updates a course, resolving its anchor
/// returns exactly the new payload, and exactly one current-record link
/// leaves the anchor — links never accumulate, however many updates are
/// made in succession, because the hypothesis of this law is exactly what
/// it re-establishes.
///
/// The updated record must not collide with the content of a removed
/// record; no store built by the operations of this library removes a
/// course record, so the hypothesis always holds there.
pub proof fn lemma_update_course_then_get_latest(
    s: StoreV,
    agent: Address,
    title: Seq<char>,
    course_anchor_address: Address,
    timestamp: u64,
)
    requires
        has_room(s, 1),
        byte_len(title) <= MAX_TITLE_LEN,
        course::handlers::latest_course(s, course_anchor_address) matches Ok(Some(_)),
        agent == (course::handlers::latest_course(
            s,
            course_anchor_address,
        )->Ok_0->Some_0).0.teacher_address,
        ({
            let prev = (course::handlers::latest_course(s, course_anchor_address)->Ok_0->Some_0).0;
            let new_course = CourseV {
                title,
                sections: prev.sections,
                teacher_address: prev.teacher_address,
                timestamp,
                anchor_address: prev.anchor_address,
            };
            s.find(RecordV::Course(new_course)) matches Some(ad) ==> s.get(ad) is Some
        }),
    ensures
        ({
            let outcome = course::handlers::update_spec(
                s,
                agent,
                title,
                course_anchor_address,
                timestamp,
            );
            let prev = (course::handlers::latest_course(s, course_anchor_address)->Ok_0->Some_0).0;
            let new_course = CourseV {
                title,
                sections: prev.sections,
                teacher_address: prev.teacher_address,
                timestamp,
                anchor_address: prev.anchor_address,
            };
            let new_address = s.put_addr(RecordV::Course(new_course));
            &&& outcome.1 == Ok::<Address, ApiError>(course_anchor_address)
            &&& course::handlers::latest_course(outcome.0, course_anchor_address) == Ok::<
                Option<(CourseV, Address)>,
                ApiError,
            >(Some((new_course, new_address)))
            &&& outcome.0.link_targets(course_anchor_address, LinkKind::AnchorToCourse) == seq![
                new_address,
            ]
        }),
{
    let a = course_anchor_address;
    let lr = course::handlers::latest_course(s, a);
    let prev = (lr->Ok_0->Some_0).0;
    let prev_address = (lr->Ok_0->Some_0).1;
    let ts = s.link_targets(a, LinkKind::AnchorToCourse);
    assert(ts.len() == 1 && ts[0] == prev_address);
    assert(ts =~= seq![prev_address]);
    assert(seq![agent][0] == agent);
    let new_course = CourseV {
        title,
        sections: prev.sections,
        teacher_address: prev.teacher_address,
        timestamp,
        anchor_address: prev.anchor_address,
    };
    let nrec = RecordV::Course(new_course);
    let s1 = s.put(nrec);
    let new_address = s.put_addr(nrec);
    lemma_put_get(s, nrec);
    lemma_find_slot(s.slots, nrec);
    assert(s1.get(new_address) == Some(nrec));
    assert(s1.get(a) == s.get(a));
    assert(s1.links == s.links);
    let l_old = Link { base: a, target: prev_address, kind: LinkKind::AnchorToCourse };
    let s2 = s1.remove_link(l_old);
    lemma_targets_without(s1.links, l_old, a, LinkKind::AnchorToCourse);
    assert(seq![prev_address].drop_last() =~= Seq::<Address>::empty());
    assert(without_address(Seq::<Address>::empty(), prev_address) =~= Seq::<Address>::empty());
    assert(without_address(seq![prev_address], prev_address) =~= Seq::<Address>::empty());
    assert(s2.link_targets(a, LinkKind::AnchorToCourse) =~= Seq::<Address>::empty());
    let l_new = Link { base: a, target: new_address, kind: LinkKind::AnchorToCourse };
    if s2.links.contains(l_new) {
        lemma_contains_target(s2.links, l_new);
    }
    let s3 = s2.add_link(l_new);
    lemma_targets_add_link(s2, l_new, a, LinkKind::AnchorToCourse);
    assert(s3.link_targets(a, LinkKind::AnchorToCourse) =~= seq![new_address]);
    assert(s3.get(a) == s.get(a));
    assert(s3.get(new_address) == Some(nrec));
    assert(s3.link_targets(a, LinkKind::AnchorToCourse)[0] == new_address);
}

/// After a section is created under a live course by that course's
/// teacher, resolving its anchor returns exactly the just-created payload,
/// at a record address distinct from the anchor address, through exactly
/// one current-record link; and the course anchor holds a containment
/// link to the new section anchor.
///
/// The section must be new, as for courses, and the parent address must
/// hold a course anchor record.
pub proof fn lemma_create_section_then_get_latest(
    s: StoreV,
    agent: Address,
    title: Seq<char>,
    course_anchor_address: Address,
    timestamp: u64,
)
    requires
        has_room(s, 2),
        byte_len(title) <= MAX_TITLE_LEN,
        s.get(course_anchor_address) matches Some(RecordV::CourseAnchor(_)),
        course::handlers::latest_course(s, course_anchor_address) matches Ok(Some(_)),
        agent == (course::handlers::latest_course(
            s,
            course_anchor_address,
        )->Ok_0->Some_0).0.teacher_address,
        s.find(
            RecordV::SectionAnchor(
                SectionAnchorV {
                    title,
                    course_address: course_anchor_address,
                    timestamp,
                    teacher_address: agent,
                },
            ),
        ) is None,
        ({
            let anchor = SectionAnchorV {
                title,
                course_address: course_anchor_address,
                timestamp,
                teacher_address: agent,
            };
            let section_anchor_address = s.put_addr(RecordV::SectionAnchor(anchor));
            let sec = SectionV {
                title,
                course_address: course_anchor_address,
                timestamp,
                anchor_address: section_anchor_address,
                teacher_address: agent,
            };
            &&& s.find(RecordV::Section(sec)) is None
            &&& s.link_targets(section_anchor_address, LinkKind::AnchorToSection) == Seq::<
                Address,
            >::empty()
        }),
    ensures
        ({
            let outcome = section::handlers::create_spec(
                s,
                agent,
                title,
                course_anchor_address,
                timestamp,
            );
            let anchor = SectionAnchorV {
                title,
                course_address: course_anchor_address,
                timestamp,
                teacher_address: agent,
            };
            let section_anchor_address = s.put_addr(RecordV::SectionAnchor(anchor));
            let s1 = s.put(RecordV::SectionAnchor(anchor));
            let sec = SectionV {
                title,
                course_address: course_anchor_address,
                timestamp,
                anchor_address: section_anchor_address,
                teacher_address: agent,
            };
            let record_address = s1.put_addr(RecordV::Section(sec));
            &&& outcome.1 == Ok::<Address, ApiError>(section_anchor_address)
            &&& record_address != section_anchor_address
            &&& section::handlers::latest_section(outcome.0, section_anchor_address) == Ok::<
                Option<(SectionV, Address)>,
                ApiError,
            >(Some((sec, record_address)))
            &&& outcome.0.link_targets(section_anchor_address, LinkKind::AnchorToSection) == seq![
                record_address,
            ]
            &&& outcome.0.links.contains(
                Link {
                    base: course_anchor_address,
                    target: section_anchor_address,
                    kind: LinkKind::CourseToSection,
                },
            )
        }),
{
    let ca = course_anchor_address;
    let course = (course::handlers::latest_course(s, ca)->Ok_0->Some_0).0;
    assert(course.teacher_address == agent);
    assert(seq![agent][0] == agent);
    let anchor = SectionAnchorV {
        title,
        course_address: ca,
        timestamp,
        teacher_address: agent,
    };
    let arec = RecordV::SectionAnchor(anchor);
    lemma_find_slot(s.slots, arec);
    let section_anchor_address = s.put_addr(arec);
    assert(section_anchor_address.0 == s.slots.len() + 1);
    let s1 = s.put(arec);
    let sec = SectionV {
        title,
        course_address: ca,
        timestamp,
        anchor_address: section_anchor_address,
        teacher_address: agent,
    };
    let srec = RecordV::Section(sec);
    lemma_find_slot(s.slots, srec);
    lemma_put_fresh(s, arec, srec);
    lemma_find_slot(s1.slots, srec);
    let record_address = s1.put_addr(srec);
    assert(record_address.0 == s1.slots.len() + 1);
    let s2 = s1.put(srec);
    lemma_put_get(s, arec);
    lemma_put_get(s1, srec);
    assert(s2.get(section_anchor_address) == Some(arec));
    assert(s2.get(record_address) == Some(srec));
    assert(s2.get(ca) == s.get(ca));
    let link1 = Link {
        base: section_anchor_address,
        target: record_address,
        kind: LinkKind::AnchorToSection,
    };
    assert(s2.links == s.links);
    if s2.links.contains(link1) {
        lemma_contains_target(s2.links, link1);
    }
    let s3 = s2.add_link(link1);
    lemma_targets_add_link(s2, link1, section_anchor_address, LinkKind::AnchorToSection);
    assert(s3.link_targets(section_anchor_address, LinkKind::AnchorToSection) =~= seq![
        record_address,
    ]);
    assert(s3.get(ca) == s.get(ca));
    assert(s3.get(section_anchor_address) == Some(arec));
    let link2 = Link { base: ca, target: section_anchor_address, kind: LinkKind::CourseToSection };
    let s4 = s3.add_link(link2);
    lemma_targets_add_link(s3, link2, section_anchor_address, LinkKind::AnchorToSection);
    assert(s4.links.contains(link2));
    assert(s4.link_targets(section_anchor_address, LinkKind::AnchorToSection) =~= seq![
        record_address,
    ]);
    assert(s4.get(section_anchor_address) == Some(arec));
    assert(s4.get(record_address) == Some(srec));
    assert(s4.link_targets(section_anchor_address, LinkKind::AnchorToSection)[0]
        == record_address);
}

/// After the owning teacher updates a section, resolving its anchor
/// returns exactly the new payload, and exactly one current-record link
/// leaves the anchor.
///
/// As for courses, the updated record must not collide with the content
/// of a removed record.
pub proof fn lemma_update_section_then_get_latest(
    s: StoreV,
    agent: Address,
    title: Seq<char>,
    section_anchor_address: Address,
    timestamp: u64,
)
    requires
        has_room(s, 1),
        byte_len(title) <= MAX_TITLE_LEN,
        section::handlers::latest_section(s, section_anchor_address) matches Ok(Some(_)),
        agent == (section::handlers::latest_section(
            s,
            section_anchor_address,
        )->Ok_0->Some_0).0.teacher_address,
        ({
            let prev = (section::handlers::latest_section(
                s,
                section_anchor_address,
            )->Ok_0->Some_0).0;
            let new_section = SectionV {
                title,
                course_address: prev.course_address,
                timestamp,
                anchor_address: prev.anchor_address,
                teacher_address: prev.teacher_address,
            };
            s.find(RecordV::Section(new_section)) matches Some(ad) ==> s.get(ad) is Some
        }),
    ensures
        ({
            let outcome = section::handlers::update_spec(
                s,
                agent,
                title,
                section_anchor_address,
                timestamp,
            );
            let prev = (section::handlers::latest_section(
                s,
                section_anchor_address,
            )->Ok_0->Some_0).0;
            let new_section = SectionV {
                title,
                course_address: prev.course_address,
                timestamp,
                anchor_address: prev.anchor_address,
                teacher_address: prev.teacher_address,
            };
            let new_address = s.put_addr(RecordV::Section(new_section));
            &&& outcome.1 == Ok::<Address, ApiError>(section_anchor_address)
            &&& section::handlers::latest_section(outcome.0, section_anchor_address) == Ok::<
                Option<(SectionV, Address)>,
                ApiError,
            >(Some((new_section, new_address)))
            &&& outcome.0.link_targets(section_anchor_address, LinkKind::AnchorToSection) == seq![
                new_address,
            ]
        }),
{
    let a = section_anchor_address;
    let lr = section::handlers::latest_section(s, a);
    let prev = (lr->Ok_0->Some_0).0;
    let prev_address = (lr->Ok_0->Some_0).1;
    let ts = s.link_targets(a, LinkKind::AnchorToSection);
    assert(ts.len() == 1 && ts[0] == prev_address);
    assert(ts =~= seq![prev_address]);
    assert(seq![agent][0] == agent);
    let new_section = SectionV {
        title,
        course_address: prev.course_address,
        timestamp,
        anchor_address: prev.anchor_address,
        teacher_address: prev.teacher_address,
    };
    let nrec = RecordV::Section(new_section);
    let s1 = s.put(nrec);
    let new_address = s.put_addr(nrec);
    lemma_put_get(s, nrec);
    lemma_find_slot(s.slots, nrec);
    assert(s1.get(new_address) == Some(nrec));
    assert(s1.get(a) == s.get(a));
    assert(s1.links == s.links);
    let l_old = Link { base: a, target: prev_address, kind: LinkKind::AnchorToSection };
    let s2 = s1.remove_link(l_old);
    lemma_targets_without(s1.links, l_old, a, LinkKind::AnchorToSection);
    assert(seq![prev_address].drop_last() =~= Seq::<Address>::empty());
    assert(without_address(Seq::<Address>::empty(), prev_address) =~= Seq::<Address>::empty());
    assert(without_address(seq![prev_address], prev_address) =~= Seq::<Address>::empty());
    assert(s2.link_targets(a, LinkKind::AnchorToSection) =~= Seq::<Address>::empty());
    let l_new = Link { base: a, target: new_address, kind: LinkKind::AnchorToSection };
    if s2.links.contains(l_new) {
        lemma_contains_target(s2.links, l_new);
    }
    let s3 = s2.add_link(l_new);
    lemma_targets_add_link(s2, l_new, a, LinkKind::AnchorToSection);
    assert(s3.link_targets(a, LinkKind::AnchorToSection) =~= seq![new_address]);
    assert(s3.get(a) == s.get(a));
    assert(s3.get(new_address) == Some(nrec));
    assert(s3.link_targets(a, LinkKind::AnchorToSection)[0] == new_address);
}

/// After a course is deleted, its address still stands in the catalog —
/// the candidate list of all courses is unchanged, staleness included —
/// while resolving the course itself now yields the empty result: callers
/// must filter the catalog through resolution.
pub proof fn lemma_catalog_stale_after_delete(
    s: StoreV,
    agent: Address,
    course_anchor_address: Address,
)
    requires
        course::handlers::delete_spec(s, agent, course_anchor_address).1 is Ok,
    ensures
        ({
            let s1 = course::handlers::delete_spec(s, agent, course_anchor_address).0;
            &&& course::handlers::all_courses(s1) == course::handlers::all_courses(s)
            &&& course::handlers::latest_course(s1, course_anchor_address) == Ok::<
                Option<(CourseV, Address)>,
                ApiError,
            >(None)
        }),
{
    let s1 = course::handlers::delete_spec(s, agent, course_anchor_address).0;
    assert(s1 == s.remove(course_anchor_address));
    assert(s1.links == s.links);
    lemma_find_slot_same_values(s.slots, s1.slots, RecordV::Catalog);
    assert(s1.get(course_anchor_address) is None);
}

/// The store after a sequence of title updates of one course, all signed
/// by `agent`, applied in order.
pub open spec fn apply_course_updates(
    s: StoreV,
    agent: Address,
    updates: Seq<(Seq<char>, u64)>,
    course_anchor_address: Address,
) -> StoreV
    decreases updates.len(),
{
    if updates.len() == 0 {
        s
    } else {
        let earlier = apply_course_updates(s, agent, updates.drop_last(), course_anchor_address);
        course::handlers::update_spec(
            earlier,
            agent,
            updates.last().0,
            course_anchor_address,
            updates.last().1,
        ).0
    }
}

/// Dead slots never hold a course record: courses are orphaned, never
/// removed. Every store built by the operations of this library keeps
/// this, since only anchors and contents are ever removed.
pub open spec fn no_dead_course_records(s: StoreV) -> bool {
    forall|j: int| 0 <= j < s.slots.len() && !s.slots[j].alive ==> !(#[trigger] s.slots[j].value
        is Course)
}

/// However many successive updates the owning teacher makes to a course,
/// resolving its anchor afterwards returns exactly the most recent
/// payload, and exactly one current-record link leaves the anchor: links
/// never accumulate.
pub proof fn lemma_successive_course_updates(
    s: StoreV,
    agent: Address,
    updates: Seq<(Seq<char>, u64)>,
    course_anchor_address: Address,
)
    requires
        s.slots.len() + updates.len() <= u64::MAX,
        no_dead_course_records(s),
        course::handlers::latest_course(s, course_anchor_address) matches Ok(Some(_)),
        agent == (course::handlers::latest_course(
            s,
            course_anchor_address,
        )->Ok_0->Some_0).0.teacher_address,
        forall|i: int| 0 <= i < updates.len() ==> byte_len(#[trigger] updates[i].0)
            <= MAX_TITLE_LEN,
    ensures
        ({
            let s1 = apply_course_updates(s, agent, updates, course_anchor_address);
            &&& course::handlers::latest_course(s1, course_anchor_address) matches Ok(Some(_))
            &&& (course::handlers::latest_course(
                s1,
                course_anchor_address,
            )->Ok_0->Some_0).0.teacher_address == agent
            &&& updates.len() > 0 ==> {
                let current = (course::handlers::latest_course(
                    s1,
                    course_anchor_address,
                )->Ok_0->Some_0).0;
                &&& current.title == updates.last().0
                &&& current.timestamp == updates.last().1
                &&& s1.link_targets(course_anchor_address, LinkKind::AnchorToCourse).len() == 1
            }
            &&& s1.slots.len() <= s.slots.len() + updates.len()
            &&& no_dead_course_records(s1)
        }),
    decreases updates.len(),
{
    if updates.len() > 0 {
        let a = course_anchor_address;
        let earlier_updates = updates.drop_last();
        lemma_successive_course_updates(s, agent, earlier_updates, a);
        let e = apply_course_updates(s, agent, earlier_updates, a);
        let title = updates.last().0;
        let timestamp = updates.last().1;
        assert(byte_len(title) <= MAX_TITLE_LEN);
        let eprev = (course::handlers::latest_course(e, a)->Ok_0->Some_0).0;
        let new_course = CourseV {
            title,
            sections: eprev.sections,
            teacher_address: eprev.teacher_address,
            timestamp,
            anchor_address: eprev.anchor_address,
        };
        let nrec = RecordV::Course(new_course);
        // The updated record can only collide with a live record: dead
        // course records do not exist.
        lemma_find_slot(e.slots, nrec);
        if e.find(nrec) is Some {
            let ad = e.find(nrec).unwrap();
            assert(e.slots[ad.0 - 1].value == nrec);
            assert(e.slots[ad.0 - 1].alive);
        }
        lemma_update_course_then_get_latest(e, agent, title, a, timestamp);
        let outcome = course::handlers::update_spec(e, agent, title, a, timestamp);
        assert(outcome.0.slots == e.put(nrec).slots);
        lemma_find_slot(e.slots, nrec);
        assert(outcome.0.slots.len() <= e.slots.len() + 1);
        assert(no_dead_course_records(outcome.0)) by {
            assert(forall|j: int| 0 <= j < e.slots.len() ==> outcome.0.slots[j] == e.slots[j]);
        }
    }
}

} // verus!
