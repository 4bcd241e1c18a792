//! Tests of the course protocol: create, get-latest, update, delete, the
//! catalog and membership.

use courses::course::handlers;
use courses::error::ApiError;
use courses::error::Rejection;
use courses::store::Address;
use courses::store::LinkKind;
use courses::store::Store;

const TEACHER: Address = Address(7001);
const OTHER: Address = Address(7002);
const STUDENT: Address = Address(7003);

fn anchor_link_count(store: &Store, anchor: Address) -> usize {
    store
        .links
        .iter()
        .filter(|l| l.base == anchor && l.kind == LinkKind::AnchorToCourse)
        .count()
}

#[test]
fn create_then_get_latest_returns_payload() {
    let mut store = Store::new();
    let anchor = handlers::create(&mut store, TEACHER, "Algebra".to_string(), 100).unwrap();
    let (course, record_address) = handlers::get_latest_course(&store, &anchor)
        .unwrap()
        .unwrap();
    assert_eq!(course.title, "Algebra");
    assert_eq!(course.teacher_address, TEACHER);
    assert_eq!(course.timestamp, 100);
    assert_eq!(course.anchor_address, anchor);
    assert!(course.sections.is_empty());
    assert_ne!(record_address, anchor);
    assert_eq!(anchor_link_count(&store, anchor), 1);
}

#[test]
fn update_keeps_latest_and_exactly_one_link() {
    let mut store = Store::new();
    let anchor = handlers::create(&mut store, TEACHER, "Algebra".to_string(), 100).unwrap();
    let returned =
        handlers::update(&mut store, TEACHER, "Algebra II".to_string(), &anchor, 101).unwrap();
    assert_eq!(returned, anchor);
    handlers::update(&mut store, TEACHER, "Algebra III".to_string(), &anchor, 102).unwrap();
    let (course, _) = handlers::get_latest_course(&store, &anchor).unwrap().unwrap();
    assert_eq!(course.title, "Algebra III");
    assert_eq!(course.timestamp, 102);
    assert_eq!(course.teacher_address, TEACHER);
    assert_eq!(anchor_link_count(&store, anchor), 1);
}

#[test]
fn update_deleted_course_fails_entity_deleted() {
    let mut store = Store::new();
    let anchor = handlers::create(&mut store, TEACHER, "Algebra".to_string(), 100).unwrap();
    handlers::delete(&mut store, TEACHER, anchor).unwrap();
    let r = handlers::update(&mut store, TEACHER, "Geometry".to_string(), &anchor, 101);
    assert_eq!(r, Err(ApiError::EntityDeleted));
}

#[test]
fn repeated_delete_fails_entity_deleted() {
    let mut store = Store::new();
    let anchor = handlers::create(&mut store, TEACHER, "Algebra".to_string(), 100).unwrap();
    assert_eq!(handlers::delete(&mut store, TEACHER, anchor), Ok(anchor));
    assert_eq!(
        handlers::delete(&mut store, TEACHER, anchor),
        Err(ApiError::EntityDeleted)
    );
}

#[test]
fn deleted_course_resolves_to_none() {
    let mut store = Store::new();
    let anchor = handlers::create(&mut store, TEACHER, "Algebra".to_string(), 100).unwrap();
    handlers::delete(&mut store, TEACHER, anchor).unwrap();
    assert_eq!(handlers::get_latest_course(&store, &anchor), Ok(None));
    assert_eq!(handlers::get_latest_course_entry(&store, anchor), Ok(None));
}

#[test]
fn never_created_course_resolves_to_none() {
    let store = Store::new();
    assert_eq!(
        handlers::get_latest_course(&store, &Address(999)),
        Ok(None)
    );
}

#[test]
fn unauthorized_update_fails_then_owner_succeeds() {
    let mut store = Store::new();
    let anchor = handlers::create(&mut store, TEACHER, "Algebra".to_string(), 100).unwrap();
    let r = handlers::update(&mut store, OTHER, "Hacked".to_string(), &anchor, 101);
    assert_eq!(r, Err(ApiError::Unauthorized));
    let (course, _) = handlers::get_latest_course(&store, &anchor).unwrap().unwrap();
    assert_eq!(course.title, "Algebra");
    let r = handlers::update(&mut store, TEACHER, "Algebra II".to_string(), &anchor, 102);
    assert_eq!(r, Ok(anchor));
}

#[test]
fn unauthorized_delete_fails() {
    let mut store = Store::new();
    let anchor = handlers::create(&mut store, TEACHER, "Algebra".to_string(), 100).unwrap();
    assert_eq!(
        handlers::delete(&mut store, OTHER, anchor),
        Err(ApiError::Unauthorized)
    );
    assert!(handlers::get_latest_course(&store, &anchor).unwrap().is_some());
}

#[test]
fn catalog_keeps_deleted_courses() {
    let mut store = Store::new();
    let first = handlers::create(&mut store, TEACHER, "Algebra".to_string(), 100).unwrap();
    let second = handlers::create(&mut store, TEACHER, "Geometry".to_string(), 101).unwrap();
    let all = handlers::list_all_courses(&store).unwrap();
    assert_eq!(all, vec![first, second]);
    handlers::delete(&mut store, TEACHER, first).unwrap();
    let all = handlers::list_all_courses(&store).unwrap();
    assert_eq!(all, vec![first, second]);
    assert_eq!(handlers::get_latest_course(&store, &first), Ok(None));
    assert!(handlers::get_latest_course(&store, &second).unwrap().is_some());
}

#[test]
fn list_all_courses_on_empty_store() {
    let store = Store::new();
    assert_eq!(handlers::list_all_courses(&store), Ok(vec![]));
}

#[test]
fn title_of_two_hundred_bytes_is_accepted() {
    let mut store = Store::new();
    let title = "a".repeat(200);
    let anchor = handlers::create(&mut store, TEACHER, title.clone(), 100).unwrap();
    let (course, _) = handlers::get_latest_course(&store, &anchor).unwrap().unwrap();
    assert_eq!(course.title, title);
}

#[test]
fn title_over_two_hundred_bytes_is_rejected() {
    let mut store = Store::new();
    let r = handlers::create(&mut store, TEACHER, "a".repeat(201), 100);
    assert_eq!(r, Err(ApiError::ValidationRejected(Rejection::TitleTooLong)));
    assert_eq!(handlers::list_all_courses(&store), Ok(vec![]));
}

#[test]
fn identical_create_is_idempotent() {
    let mut store = Store::new();
    let first = handlers::create(&mut store, TEACHER, "Algebra".to_string(), 100).unwrap();
    let second = handlers::create(&mut store, TEACHER, "Algebra".to_string(), 100).unwrap();
    assert_eq!(first, second);
    assert_eq!(anchor_link_count(&store, first), 1);
    assert!(handlers::get_latest_course(&store, &first).unwrap().is_some());
}

#[test]
fn recreate_after_update_is_detected_as_corrupt() {
    // Re-creating a course with the content of an already-superseded first
    // version points the anchor at two records at once. The protocol
    // detects the corruption at read time instead of silently picking one.
    let mut store = Store::new();
    let anchor = handlers::create(&mut store, TEACHER, "Algebra".to_string(), 100).unwrap();
    handlers::update(&mut store, TEACHER, "Algebra II".to_string(), &anchor, 101).unwrap();
    let again = handlers::create(&mut store, TEACHER, "Algebra".to_string(), 100).unwrap();
    assert_eq!(again, anchor);
    assert_eq!(
        handlers::get_latest_course(&store, &anchor),
        Err(ApiError::CorruptLinkState)
    );
}

#[test]
fn stray_current_record_link_is_detected_as_corrupt() {
    let mut store = Store::new();
    let anchor = handlers::create(&mut store, TEACHER, "Algebra".to_string(), 100).unwrap();
    store.put_link(anchor, Address(424242), LinkKind::AnchorToCourse);
    assert_eq!(
        handlers::get_latest_course(&store, &anchor),
        Err(ApiError::CorruptLinkState)
    );
}

#[test]
fn my_courses_lists_what_i_teach() {
    let mut store = Store::new();
    let anchor = handlers::create(&mut store, TEACHER, "Algebra".to_string(), 100).unwrap();
    assert_eq!(handlers::get_my_courses(&store, TEACHER), Ok(vec![anchor]));
    assert_eq!(handlers::get_my_courses(&store, OTHER), Ok(vec![]));
}

#[test]
fn enrolment_creates_both_membership_links() {
    let mut store = Store::new();
    let anchor = handlers::create(&mut store, TEACHER, "Algebra".to_string(), 100).unwrap();
    let returned = handlers::enrol_in_course(&mut store, STUDENT, anchor).unwrap();
    assert_eq!(returned, anchor);
    assert_eq!(handlers::get_students(&store, anchor), Ok(vec![STUDENT]));
    assert_eq!(
        handlers::get_my_enrolled_courses(&store, STUDENT),
        Ok(vec![anchor])
    );
    assert_eq!(handlers::get_my_enrolled_courses(&store, TEACHER), Ok(vec![]));
}

#[test]
fn enrolment_needs_a_resolvable_course_anchor() {
    let mut store = Store::new();
    assert_eq!(
        handlers::enrol_in_course(&mut store, STUDENT, Address(999)),
        Err(ApiError::NotFound)
    );
    let anchor = handlers::create(&mut store, TEACHER, "Algebra".to_string(), 100).unwrap();
    handlers::delete(&mut store, TEACHER, anchor).unwrap();
    assert_eq!(
        handlers::enrol_in_course(&mut store, STUDENT, anchor),
        Err(ApiError::NotFound)
    );
}

#[test]
fn update_with_too_long_title_is_rejected() {
    let mut store = Store::new();
    let anchor = handlers::create(&mut store, TEACHER, "Algebra".to_string(), 100).unwrap();
    let r = handlers::update(&mut store, TEACHER, "b".repeat(201), &anchor, 101);
    assert_eq!(r, Err(ApiError::ValidationRejected(Rejection::TitleTooLong)));
    let (course, _) = handlers::get_latest_course(&store, &anchor).unwrap().unwrap();
    assert_eq!(course.title, "Algebra");
}

#[test]
fn update_preserves_teacher_and_anchor_reference() {
    let mut store = Store::new();
    let anchor = handlers::create(&mut store, TEACHER, "Algebra".to_string(), 100).unwrap();
    handlers::update(&mut store, TEACHER, "Algebra II".to_string(), &anchor, 101).unwrap();
    let (course, _) = handlers::get_latest_course(&store, &anchor).unwrap().unwrap();
    assert_eq!(course.teacher_address, TEACHER);
    assert_eq!(course.anchor_address, anchor);
}

#[test]
fn error_messages_are_displayable() {
    assert!(!ApiError::EntityDeleted.message().is_empty());
    assert!(!ApiError::CorruptLinkState.message().is_empty());
    assert!(!ApiError::ValidationRejected(Rejection::TitleTooLong)
        .message()
        .is_empty());
}
