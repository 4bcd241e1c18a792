//! Tests of the replicated authorization validator: the record-transition
//! dispatch, the link rules and the shared helpers.

use courses::course::anchor::CourseAnchor;
use courses::course::catalog_anchor::CourseCatalogAnchor;
use courses::course::entry::Course;
use courses::course::handlers as course_handlers;
use courses::course::validation as course_validation;
use courses::error::ApiError;
use courses::error::Rejection;
use courses::helper;
use courses::section::anchor::SectionAnchor;
use courses::section::entry::Section;
use courses::section::handlers as section_handlers;
use courses::section::validation as section_validation;
use courses::store::Address;
use courses::store::LinkKind;
use courses::store::Record;
use courses::store::Store;
use courses::validation::validate_link;
use courses::validation::validate_record;
use courses::validation::LinkOp;
use courses::validation::RecordTransition;

const TEACHER: Address = Address(7001);
const OTHER: Address = Address(7002);

fn course(teacher: Address) -> Course {
    Course::new("Algebra".to_string(), vec![], teacher, 100, Address(11))
}

#[test]
fn anchor_modify_is_rejected_unconditionally() {
    let rejected = Err(ApiError::ValidationRejected(Rejection::AnchorModifyAttempted));
    assert_eq!(course_validation::anchor_modify(), rejected);
    assert_eq!(section_validation::anchor_modify(), rejected);
    assert_eq!(course_validation::catalog_modify(), rejected);
    let anchor = CourseAnchor::new("Algebra".to_string(), TEACHER, 100);
    let changed = CourseAnchor::new("Other".to_string(), TEACHER, 100);
    let t = RecordTransition::Modify {
        new: Record::CourseAnchor(changed),
        old: Record::CourseAnchor(anchor),
    };
    // Whoever signs, however harmless the payload: always rejected.
    assert_eq!(validate_record(&t, &vec![TEACHER]), rejected);
    assert_eq!(validate_record(&t, &vec![OTHER]), rejected);
    assert_eq!(validate_record(&t, &vec![]), rejected);
    let t = RecordTransition::Modify {
        new: Record::Catalog(CourseCatalogAnchor::new()),
        old: Record::Catalog(CourseCatalogAnchor::new()),
    };
    assert_eq!(validate_record(&t, &vec![TEACHER]), rejected);
}

#[test]
fn catalog_delete_is_rejected_unconditionally() {
    let rejected = Err(ApiError::ValidationRejected(Rejection::CatalogDeleteAttempted));
    assert_eq!(course_validation::catalog_delete(), rejected);
    let t = RecordTransition::Delete {
        old: Record::Catalog(CourseCatalogAnchor::new()),
    };
    assert_eq!(validate_record(&t, &vec![TEACHER]), rejected);
}

#[test]
fn teacher_change_is_rejected_regardless_of_signer() {
    let t = RecordTransition::Modify {
        new: Record::Course(course(OTHER)),
        old: Record::Course(course(TEACHER)),
    };
    for sources in [vec![TEACHER], vec![OTHER], vec![TEACHER, OTHER], vec![]] {
        assert_eq!(
            validate_record(&t, &sources),
            Err(ApiError::ImmutableFieldChanged)
        );
    }
}

#[test]
fn section_course_change_is_rejected() {
    let old = Section::new("Ch1".to_string(), Address(11), 100, Address(21), TEACHER);
    let new = Section::new("Ch1".to_string(), Address(12), 100, Address(21), TEACHER);
    let t = RecordTransition::Modify {
        new: Record::Section(new),
        old: Record::Section(old),
    };
    assert_eq!(
        validate_record(&t, &vec![TEACHER]),
        Err(ApiError::ImmutableFieldChanged)
    );
}

#[test]
fn only_the_owner_may_write() {
    let t = RecordTransition::Delete {
        old: Record::Course(course(TEACHER)),
    };
    assert_eq!(validate_record(&t, &vec![OTHER]), Err(ApiError::Unauthorized));
    assert_eq!(validate_record(&t, &vec![OTHER, TEACHER]), Ok(()));
    let t = RecordTransition::Create {
        new: Record::Course(course(TEACHER)),
    };
    assert_eq!(validate_record(&t, &vec![OTHER]), Err(ApiError::Unauthorized));
    assert_eq!(validate_record(&t, &vec![TEACHER]), Ok(()));
}

#[test]
fn legal_modify_is_accepted() {
    let mut updated = course(TEACHER);
    updated.title = "Algebra II".to_string();
    let t = RecordTransition::Modify {
        new: Record::Course(updated),
        old: Record::Course(course(TEACHER)),
    };
    assert_eq!(validate_record(&t, &vec![TEACHER]), Ok(()));
}

#[test]
fn validate_entity_title_counts_utf8_bytes() {
    assert_eq!(helper::validate_entity_title(&"a".repeat(200), 200), Ok(()));
    assert_eq!(
        helper::validate_entity_title(&"a".repeat(201), 200),
        Err(ApiError::ValidationRejected(Rejection::TitleTooLong))
    );
    // 101 copies of a two-byte character take 202 bytes: over the bound,
    // although only 101 characters long.
    assert_eq!(
        helper::validate_entity_title(&"é".repeat(101), 200),
        Err(ApiError::ValidationRejected(Rejection::TitleTooLong))
    );
}

#[test]
fn validate_only_teacher_can_do_checks_membership() {
    assert_eq!(
        helper::validate_only_teacher_can_do(&TEACHER, &vec![OTHER, TEACHER]),
        Ok(())
    );
    assert_eq!(
        helper::validate_only_teacher_can_do(&TEACHER, &vec![OTHER]),
        Err(ApiError::Unauthorized)
    );
    assert_eq!(
        helper::validate_only_teacher_can_do(&TEACHER, &vec![]),
        Err(ApiError::Unauthorized)
    );
}

#[test]
fn validate_no_teacher_change_compares_owners() {
    assert_eq!(helper::validate_no_teacher_change(TEACHER, TEACHER), Ok(()));
    assert_eq!(
        helper::validate_no_teacher_change(TEACHER, OTHER),
        Err(ApiError::ImmutableFieldChanged)
    );
}

#[test]
fn course_link_rules() {
    let mut store = Store::new();
    let anchor = course_handlers::create(&mut store, TEACHER, "Algebra".to_string(), 100).unwrap();
    let (_, record_address) = course_handlers::get_latest_course(&store, &anchor)
        .unwrap()
        .unwrap();
    // Adding the current-record link is the teacher's right alone.
    assert_eq!(
        validate_link(&store, LinkOp::Add, anchor, record_address, LinkKind::AnchorToCourse, TEACHER),
        Ok(())
    );
    assert_eq!(
        validate_link(&store, LinkOp::Add, anchor, record_address, LinkKind::AnchorToCourse, OTHER),
        Err(ApiError::Unauthorized)
    );
    // A base that is no course anchor cannot carry the link.
    assert_eq!(
        validate_link(
            &store,
            LinkOp::Add,
            record_address,
            record_address,
            LinkKind::AnchorToCourse,
            TEACHER,
        ),
        Err(ApiError::NotFound)
    );
    // Removal needs only the anchor's owner; the target may be gone.
    assert_eq!(
        validate_link(&store, LinkOp::Remove, anchor, Address(999), LinkKind::AnchorToCourse, TEACHER),
        Ok(())
    );
    assert_eq!(
        validate_link(&store, LinkOp::Remove, anchor, record_address, LinkKind::AnchorToCourse, OTHER),
        Err(ApiError::Unauthorized)
    );
    // Membership links carry no conditions of their own.
    assert_eq!(
        validate_link(&store, LinkOp::Add, TEACHER, anchor, LinkKind::TeacherToCourse, OTHER),
        Ok(())
    );
}

#[test]
fn cross_teacher_course_link_is_rejected() {
    let mut store = Store::new();
    let anchor = course_handlers::create(&mut store, TEACHER, "Algebra".to_string(), 100).unwrap();
    let other_anchor =
        course_handlers::create(&mut store, OTHER, "Biology".to_string(), 100).unwrap();
    let (_, other_record) = course_handlers::get_latest_course(&store, &other_anchor)
        .unwrap()
        .unwrap();
    assert_eq!(
        validate_link(&store, LinkOp::Add, anchor, other_record, LinkKind::AnchorToCourse, TEACHER),
        Err(ApiError::ValidationRejected(Rejection::CrossOwnerLink))
    );
}

#[test]
fn cross_course_section_link_is_rejected() {
    let mut store = Store::new();
    let first = course_handlers::create(&mut store, TEACHER, "Algebra".to_string(), 100).unwrap();
    let second = course_handlers::create(&mut store, TEACHER, "Geometry".to_string(), 101).unwrap();
    let section_anchor =
        section_handlers::create(&mut store, TEACHER, "Ch1".to_string(), &first, 102).unwrap();
    // A section record claiming the other course may not be linked from
    // this anchor.
    let stray = Section::new("Ch1".to_string(), second, 102, section_anchor, TEACHER);
    let stray_address = store.put(Record::Section(stray));
    assert_eq!(
        validate_link(
            &store,
            LinkOp::Add,
            section_anchor,
            stray_address,
            LinkKind::AnchorToSection,
            TEACHER,
        ),
        Err(ApiError::ValidationRejected(Rejection::CrossOwnerLink))
    );
}

#[test]
fn cross_teacher_section_link_is_rejected() {
    let mut store = Store::new();
    let course_anchor =
        course_handlers::create(&mut store, TEACHER, "Algebra".to_string(), 100).unwrap();
    let section_anchor =
        section_handlers::create(&mut store, TEACHER, "Ch1".to_string(), &course_anchor, 101)
            .unwrap();
    let stray = Section::new("Ch1".to_string(), course_anchor, 101, section_anchor, OTHER);
    let stray_address = store.put(Record::Section(stray));
    assert_eq!(
        validate_link(
            &store,
            LinkOp::Add,
            section_anchor,
            stray_address,
            LinkKind::AnchorToSection,
            TEACHER,
        ),
        Err(ApiError::ValidationRejected(Rejection::CrossOwnerLink))
    );
}

#[test]
fn generic_latest_resolution_reports_each_outcome() {
    let mut store = Store::new();
    // A missing anchor resolves to the empty result.
    assert_eq!(
        helper::get_latest_data_entry(&store, Address(999), LinkKind::AnchorToCourse),
        Ok(None)
    );
    let anchor_address = store.put(Record::SectionAnchor(SectionAnchor::new(
        "Ch1".to_string(),
        Address(11),
        100,
        TEACHER,
    )));
    // A live anchor with no current-record link is corrupt, not empty.
    assert_eq!(
        helper::get_latest_data_entry(&store, anchor_address, LinkKind::AnchorToSection),
        Err(ApiError::CorruptLinkState)
    );
    let record_address = store.put(Record::Section(Section::new(
        "Ch1".to_string(),
        Address(11),
        100,
        anchor_address,
        TEACHER,
    )));
    store.put_link(anchor_address, record_address, LinkKind::AnchorToSection);
    let (record, resolved) =
        helper::get_latest_data_entry(&store, anchor_address, LinkKind::AnchorToSection)
            .unwrap()
            .unwrap();
    assert_eq!(resolved, record_address);
    assert!(matches!(record, Record::Section(_)));
    // A second link makes the state corrupt again.
    store.put_link(anchor_address, Address(999), LinkKind::AnchorToSection);
    assert_eq!(
        helper::get_latest_data_entry(&store, anchor_address, LinkKind::AnchorToSection),
        Err(ApiError::CorruptLinkState)
    );
}
