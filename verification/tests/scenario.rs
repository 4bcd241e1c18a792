//! One full walkthrough of the protocol: a teacher builds a course, a
//! student enrols, a stranger is turned away, and deletion leaves the
//! expected traces.

use courses::course::handlers as course_handlers;
use courses::error::ApiError;
use courses::section::handlers as section_handlers;
use courses::store::Address;
use courses::store::Store;

#[test]
fn course_lifecycle_walkthrough() {
    let teacher = Address(9001);
    let student = Address(9002);
    let stranger = Address(9003);
    let mut store = Store::new();

    // The teacher creates the course "Algebra" and gets its permanent
    // anchor address back.
    let course_anchor =
        course_handlers::create(&mut store, teacher, "Algebra".to_string(), 100).unwrap();
    let (course, course_record) = course_handlers::get_latest_course(&store, &course_anchor)
        .unwrap()
        .unwrap();
    assert_eq!(course.title, "Algebra");
    assert_eq!(course.teacher_address, teacher);
    assert_ne!(course_record, course_anchor);

    // The teacher adds the section "Ch1" under the course.
    let section_anchor =
        section_handlers::create(&mut store, teacher, "Ch1".to_string(), &course_anchor, 101)
            .unwrap();
    let section = section_handlers::get_latest_section_entry(&store, section_anchor)
        .unwrap()
        .unwrap();
    assert_eq!(section.course_address, course_anchor);
    assert_eq!(section.teacher_address, teacher);

    // A student enrols and shows up on both sides of the membership.
    course_handlers::enrol_in_course(&mut store, student, course_anchor).unwrap();
    assert_eq!(
        course_handlers::get_students(&store, course_anchor),
        Ok(vec![student])
    );
    assert_eq!(
        course_handlers::get_my_enrolled_courses(&store, student),
        Ok(vec![course_anchor])
    );

    // Another teacher cannot touch the course.
    assert_eq!(
        course_handlers::update(&mut store, stranger, "Hacked".to_string(), &course_anchor, 102),
        Err(ApiError::Unauthorized)
    );

    // The owner deletes the course; it stops resolving, and no section
    // can be created under it any more.
    course_handlers::delete(&mut store, teacher, course_anchor).unwrap();
    assert_eq!(
        course_handlers::get_latest_course(&store, &course_anchor),
        Ok(None)
    );
    assert_eq!(
        section_handlers::create(&mut store, teacher, "Ch2".to_string(), &course_anchor, 103),
        Err(ApiError::ParentDeleted)
    );

    // The catalog still lists the deleted course: callers must filter.
    assert_eq!(
        course_handlers::list_all_courses(&store),
        Ok(vec![course_anchor])
    );
}
