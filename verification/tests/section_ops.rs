//! Tests of the section protocol and of the course-to-section containment.

use courses::course::handlers as course_handlers;
use courses::error::ApiError;
use courses::error::Rejection;
use courses::section::handlers;
use courses::store::Address;
use courses::store::LinkKind;
use courses::store::Store;

const TEACHER: Address = Address(7001);
const OTHER: Address = Address(7002);

fn setup_course(store: &mut Store) -> Address {
    course_handlers::create(store, TEACHER, "Algebra".to_string(), 100).unwrap()
}

fn section_link_count(store: &Store, anchor: Address) -> usize {
    store
        .links
        .iter()
        .filter(|l| l.base == anchor && l.kind == LinkKind::AnchorToSection)
        .count()
}

fn containment_count(store: &Store, course: Address, section: Address) -> usize {
    store
        .links
        .iter()
        .filter(|l| {
            l.base == course && l.target == section && l.kind == LinkKind::CourseToSection
        })
        .count()
}

#[test]
fn create_section_under_live_course() {
    let mut store = Store::new();
    let course = setup_course(&mut store);
    let section = handlers::create(&mut store, TEACHER, "Ch1".to_string(), &course, 101).unwrap();
    let (entry, record_address) = handlers::get_latest_section(&store, &section)
        .unwrap()
        .unwrap();
    assert_eq!(entry.title, "Ch1");
    assert_eq!(entry.course_address, course);
    assert_eq!(entry.teacher_address, TEACHER);
    assert_eq!(entry.timestamp, 101);
    assert_eq!(entry.anchor_address, section);
    assert_ne!(record_address, section);
    assert_eq!(section_link_count(&store, section), 1);
    assert_eq!(containment_count(&store, course, section), 1);
}

#[test]
fn create_section_under_deleted_course_fails_parent_deleted() {
    let mut store = Store::new();
    let course = setup_course(&mut store);
    course_handlers::delete(&mut store, TEACHER, course).unwrap();
    let r = handlers::create(&mut store, TEACHER, "Ch1".to_string(), &course, 101);
    assert_eq!(r, Err(ApiError::ParentDeleted));
}

#[test]
fn create_section_by_non_teacher_fails() {
    let mut store = Store::new();
    let course = setup_course(&mut store);
    let r = handlers::create(&mut store, OTHER, "Ch1".to_string(), &course, 101);
    assert_eq!(r, Err(ApiError::Unauthorized));
}

#[test]
fn section_title_over_two_hundred_bytes_is_rejected() {
    let mut store = Store::new();
    let course = setup_course(&mut store);
    let r = handlers::create(&mut store, TEACHER, "c".repeat(201), &course, 101);
    assert_eq!(r, Err(ApiError::ValidationRejected(Rejection::TitleTooLong)));
}

#[test]
fn update_section_keeps_latest_and_exactly_one_link() {
    let mut store = Store::new();
    let course = setup_course(&mut store);
    let section = handlers::create(&mut store, TEACHER, "Ch1".to_string(), &course, 101).unwrap();
    handlers::update(&mut store, TEACHER, "Ch1 rev".to_string(), &section, 102).unwrap();
    handlers::update(&mut store, TEACHER, "Ch1 final".to_string(), &section, 103).unwrap();
    let entry = handlers::get_latest_section_entry(&store, section)
        .unwrap()
        .unwrap();
    assert_eq!(entry.title, "Ch1 final");
    assert_eq!(entry.timestamp, 103);
    assert_eq!(entry.course_address, course);
    assert_eq!(section_link_count(&store, section), 1);
}

#[test]
fn update_deleted_section_fails_entity_deleted() {
    let mut store = Store::new();
    let course = setup_course(&mut store);
    let section = handlers::create(&mut store, TEACHER, "Ch1".to_string(), &course, 101).unwrap();
    handlers::delete(&mut store, TEACHER, section).unwrap();
    let r = handlers::update(&mut store, TEACHER, "Ch2".to_string(), &section, 102);
    assert_eq!(r, Err(ApiError::EntityDeleted));
}

#[test]
fn unauthorized_section_update_and_delete_fail() {
    let mut store = Store::new();
    let course = setup_course(&mut store);
    let section = handlers::create(&mut store, TEACHER, "Ch1".to_string(), &course, 101).unwrap();
    assert_eq!(
        handlers::update(&mut store, OTHER, "Hacked".to_string(), &section, 102),
        Err(ApiError::Unauthorized)
    );
    assert_eq!(
        handlers::delete(&mut store, OTHER, section),
        Err(ApiError::Unauthorized)
    );
}

#[test]
fn section_delete_removes_only_the_anchor() {
    let mut store = Store::new();
    let course = setup_course(&mut store);
    let section = handlers::create(&mut store, TEACHER, "Ch1".to_string(), &course, 101).unwrap();
    handlers::delete(&mut store, TEACHER, section).unwrap();
    assert_eq!(handlers::get_latest_section(&store, &section), Ok(None));
    // The containment link and the data record stay, dangling by design.
    assert_eq!(containment_count(&store, course, section), 1);
    assert_eq!(section_link_count(&store, section), 1);
    assert_eq!(
        handlers::delete(&mut store, TEACHER, section),
        Err(ApiError::EntityDeleted)
    );
}

#[test]
fn add_section_twice_keeps_one_containment_link() {
    // Containment links are content-addressed in the store, so a repeated
    // add is absorbed rather than rejected or accumulated.
    let mut store = Store::new();
    let course = setup_course(&mut store);
    let section = handlers::create(&mut store, TEACHER, "Ch1".to_string(), &course, 101).unwrap();
    course_handlers::add_section(&mut store, &course, &section).unwrap();
    assert_eq!(containment_count(&store, course, section), 1);
}

#[test]
fn add_section_needs_both_anchors() {
    let mut store = Store::new();
    let course = setup_course(&mut store);
    let section = handlers::create(&mut store, TEACHER, "Ch1".to_string(), &course, 101).unwrap();
    assert_eq!(
        course_handlers::add_section(&mut store, &course, &Address(999)),
        Err(ApiError::NotFound)
    );
    assert_eq!(
        course_handlers::add_section(&mut store, &Address(999), &section),
        Err(ApiError::NotFound)
    );
}

#[test]
fn delete_section_link_removes_containment() {
    let mut store = Store::new();
    let course = setup_course(&mut store);
    let section = handlers::create(&mut store, TEACHER, "Ch1".to_string(), &course, 101).unwrap();
    course_handlers::delete_section(&mut store, &course, &section).unwrap();
    assert_eq!(containment_count(&store, course, section), 0);
    // The section itself is untouched: only the containment link is gone.
    assert!(handlers::get_latest_section(&store, &section).unwrap().is_some());
}
