//! Tests of the content-addressed store model itself: addressing,
//! removal, and the link primitives.

use courses::course::anchor::CourseAnchor;
use courses::course::entry::Course;
use courses::store::record_eq;
use courses::store::Address;
use courses::store::LinkKind;
use courses::store::Record;
use courses::store::Store;

const TEACHER: Address = Address(7001);

fn anchor_record(title: &str) -> Record {
    Record::CourseAnchor(CourseAnchor::new(title.to_string(), TEACHER, 100))
}

#[test]
fn same_content_resolves_to_same_address() {
    let mut store = Store::new();
    let first = store.put(anchor_record("Algebra"));
    let second = store.put(anchor_record("Algebra"));
    let other = store.put(anchor_record("Geometry"));
    assert_eq!(first, second);
    assert_ne!(first, other);
    assert_eq!(store.find_addr(&anchor_record("Algebra")), Some(first));
    assert_eq!(store.find_addr(&anchor_record("Calculus")), None);
}

#[test]
fn removal_is_permanent_under_recommit() {
    let mut store = Store::new();
    let address = store.put(anchor_record("Algebra"));
    assert!(store.get(address).is_some());
    assert!(store.remove_entry(address));
    assert!(store.get(address).is_none());
    // A second removal finds nothing to remove.
    assert!(!store.remove_entry(address));
    // Committing the same content again yields the same, still dead,
    // address: a tombstone wins over a re-commit.
    let again = store.put(anchor_record("Algebra"));
    assert_eq!(again, address);
    assert!(store.get(again).is_none());
}

#[test]
fn unknown_addresses_do_not_resolve() {
    let mut store = Store::new();
    assert!(store.get(Address(0)).is_none());
    assert!(store.get(Address(1)).is_none());
    assert!(!store.remove_entry(Address(1)));
    let address = store.put(anchor_record("Algebra"));
    assert_eq!(address, Address(1));
    assert!(store.get(Address(2)).is_none());
}

#[test]
fn links_are_added_once_and_listed_in_order() {
    let mut store = Store::new();
    let base = Address(500);
    store.put_link(base, Address(1), LinkKind::CourseToStudent);
    store.put_link(base, Address(2), LinkKind::CourseToStudent);
    store.put_link(base, Address(1), LinkKind::CourseToStudent);
    store.put_link(base, Address(3), LinkKind::TeacherToCourse);
    assert_eq!(
        store.get_links(base, LinkKind::CourseToStudent),
        vec![Address(1), Address(2)]
    );
    assert_eq!(
        store.get_links(base, LinkKind::TeacherToCourse),
        vec![Address(3)]
    );
    store.remove_link(base, Address(1), LinkKind::CourseToStudent);
    assert_eq!(
        store.get_links(base, LinkKind::CourseToStudent),
        vec![Address(2)]
    );
    // Removing an absent link changes nothing.
    store.remove_link(base, Address(9), LinkKind::CourseToStudent);
    assert_eq!(
        store.get_links(base, LinkKind::CourseToStudent),
        vec![Address(2)]
    );
}

#[test]
fn record_equality_is_by_content() {
    let a = anchor_record("Algebra");
    let b = anchor_record("Algebra");
    let c = anchor_record("Geometry");
    assert!(record_eq(&a, &b));
    assert!(!record_eq(&a, &c));
    // Records of different kinds never compare equal, whatever the fields.
    let course = Record::Course(Course::new(
        "Algebra".to_string(),
        vec![],
        TEACHER,
        100,
        Address(1),
    ));
    assert!(!record_eq(&a, &course));
}
