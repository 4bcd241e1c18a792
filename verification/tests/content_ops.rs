//! Tests of the content operations, which live under a section and are
//! addressed by record rather than by anchor.

use courses::content::handlers;
use courses::course::handlers as course_handlers;
use courses::error::ApiError;
use courses::section::handlers as section_handlers;
use courses::store::Address;
use courses::store::Record;
use courses::store::Store;

const TEACHER: Address = Address(7001);
const OTHER: Address = Address(7002);

fn setup_section(store: &mut Store) -> Address {
    let course = course_handlers::create(store, TEACHER, "Algebra".to_string(), 100).unwrap();
    section_handlers::create(store, TEACHER, "Ch1".to_string(), &course, 101).unwrap()
}

fn create_video(store: &mut Store, section: Address) -> Result<Address, ApiError> {
    handlers::create(
        store,
        TEACHER,
        "Video".to_string(),
        section,
        "https://example.invalid/v".to_string(),
        102,
        "An introduction".to_string(),
    )
}

#[test]
fn create_content_and_list_it() {
    let mut store = Store::new();
    let section = setup_section(&mut store);
    let content_address = create_video(&mut store, section).unwrap();
    assert_eq!(
        handlers::get_contents(&store, &section),
        Ok(vec![content_address])
    );
    match store.get(content_address) {
        Some(Record::Content(c)) => {
            assert_eq!(c.name, "Video");
            assert_eq!(c.url, "https://example.invalid/v");
            assert_eq!(c.description, "An introduction");
            assert_eq!(c.timestamp, 102);
            assert_eq!(c.section_anchor_address, section);
            assert_eq!(c.teacher_address, TEACHER);
        },
        _ => panic!("the content record must resolve"),
    }
}

#[test]
fn create_content_in_deleted_section_fails_parent_deleted() {
    let mut store = Store::new();
    let section = setup_section(&mut store);
    section_handlers::delete(&mut store, TEACHER, section).unwrap();
    assert_eq!(create_video(&mut store, section), Err(ApiError::ParentDeleted));
}

#[test]
fn create_content_by_non_teacher_fails() {
    let mut store = Store::new();
    let section = setup_section(&mut store);
    let r = handlers::create(
        &mut store,
        OTHER,
        "Video".to_string(),
        section,
        "https://example.invalid/v".to_string(),
        102,
        "An introduction".to_string(),
    );
    assert_eq!(r, Err(ApiError::Unauthorized));
}

#[test]
fn update_content_repoints_the_section_link() {
    let mut store = Store::new();
    let section = setup_section(&mut store);
    let old_address = create_video(&mut store, section).unwrap();
    let new_address = handlers::update(
        &mut store,
        TEACHER,
        old_address,
        "Video v2".to_string(),
        "https://example.invalid/v2".to_string(),
        "A better introduction".to_string(),
        103,
    )
    .unwrap();
    assert_ne!(new_address, old_address);
    assert_eq!(handlers::get_contents(&store, &section), Ok(vec![new_address]));
    // The superseded record is orphaned, not removed.
    assert!(matches!(store.get(old_address), Some(Record::Content(_))));
}

#[test]
fn update_missing_content_fails_not_found() {
    let mut store = Store::new();
    let r = handlers::update(
        &mut store,
        TEACHER,
        Address(999),
        "Video".to_string(),
        "https://example.invalid/v".to_string(),
        "An introduction".to_string(),
        103,
    );
    assert_eq!(r, Err(ApiError::NotFound));
}

#[test]
fn unauthorized_content_update_and_delete_fail() {
    let mut store = Store::new();
    let section = setup_section(&mut store);
    let content_address = create_video(&mut store, section).unwrap();
    let r = handlers::update(
        &mut store,
        OTHER,
        content_address,
        "Hacked".to_string(),
        "https://example.invalid/x".to_string(),
        "Hacked".to_string(),
        103,
    );
    assert_eq!(r, Err(ApiError::Unauthorized));
    assert_eq!(
        handlers::delete(&mut store, OTHER, content_address),
        Err(ApiError::Unauthorized)
    );
}

#[test]
fn delete_content_removes_record_and_link() {
    let mut store = Store::new();
    let section = setup_section(&mut store);
    let content_address = create_video(&mut store, section).unwrap();
    assert_eq!(
        handlers::delete(&mut store, TEACHER, content_address),
        Ok(content_address)
    );
    assert_eq!(handlers::get_contents(&store, &section), Ok(vec![]));
    assert!(store.get(content_address).is_none());
    assert_eq!(
        handlers::delete(&mut store, TEACHER, content_address),
        Err(ApiError::NotFound)
    );
}
