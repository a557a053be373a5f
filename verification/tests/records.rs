use std::collections::HashMap;

use tum_module_picker::module::appointment::{Appointment, Date, DateTime, Time};
use tum_module_picker::module::course::Course;
use tum_module_picker::module::exam::Exam;
use tum_module_picker::module::semester::Semester;
use tum_module_picker::module::Duration;
use tum_module_picker::storage_tree::column::{MetaKey, NodeState};

fn sample_course() -> Course {
    Course {
        title: "Systems".to_string(),
        number: "IN0001".to_string(),
        head: "Head".to_string(),
        lecturers: "A, B".to_string(),
        typ: "VO".to_string(),
        semester_weekly_hours: Duration { seconds: 2 * 3600 },
        ects: 6,
        language: "en".to_string(),
        offered_in: Semester::new(2025, true),
        organisation: "CS".to_string(),
        content: String::new(),
        previous_knowledge_expected: String::new(),
        objective: String::new(),
        teaching_and_learning_method: String::new(),
        course_criteria_and_registration: String::new(),
        recomended_reading: String::new(),
        note: String::new(),
        dates: HashMap::new(),
        registration_start: Some(Date { year: 2025, month: 9, day: 1 }),
        registration_end: None,
        deregistration_start: None,
        deregistration_end: None,
    }
}

#[test]
fn course_getters_read_and_write_fields() {
    let mut course = sample_course();
    assert_eq!(course.get_title(), "Systems");
    assert_eq!(*course.get_ects(), 6);
    assert_eq!(*course.get_offered_in(), Semester { year: 2025, winter: true });
    assert_eq!(
        *course.get_registration_start(),
        Some(Date { year: 2025, month: 9, day: 1 })
    );
    *course.get_mut_ects() = 9;
    course.get_mut_note().push_str("updated");
    assert_eq!(*course.get_ects(), 9);
    assert_eq!(course.get_note(), "updated");
}

#[test]
fn course_dates_hold_appointments_by_group() {
    let mut course = sample_course();
    let start = DateTime {
        date: Date { year: 2025, month: 10, day: 15 },
        time: Time { hour: 15, minute: 0, second: 0 },
    };
    let stop = DateTime {
        date: Date { year: 2025, month: 10, day: 15 },
        time: Time { hour: 17, minute: 0, second: 0 },
    };
    course
        .get_mut_dates()
        .insert("group 1".to_string(), vec![Appointment::new(start, stop, "hall".to_string())]);
    assert_eq!(course.get_dates().len(), 1);
    assert_eq!(course.get_dates()["group 1"][0].get_place(), "hall");
}

#[test]
fn exam_getters_read_and_write_fields() {
    let mut exam = Exam {
        title: "Final".to_string(),
        number: "IN0001-E".to_string(),
        persons_involved: "C".to_string(),
        typ: "written".to_string(),
        semester_weekly_hours: Duration { seconds: 0 },
        ects: 0,
        offered_in: Semester::new(2026, false),
        organisation: "CS".to_string(),
        further_information: "bring a pen".to_string(),
        assessment_scheme: "graded".to_string(),
        note: String::new(),
        dates: Vec::new(),
        registration_start: None,
        registration_end: None,
        deregistration_start: None,
        deregistration_end: None,
    };
    assert_eq!(exam.get_title(), "Final");
    assert_eq!(exam.get_further_information(), "bring a pen");
    *exam.get_mut_assessment_scheme() = "pass/fail".to_string();
    assert_eq!(exam.get_assessment_scheme(), "pass/fail");
    exam.get_mut_dates().push(Appointment::new(
        DateTime {
            date: Date { year: 2026, month: 2, day: 20 },
            time: Time { hour: 8, minute: 0, second: 0 },
        },
        DateTime {
            date: Date { year: 2026, month: 2, day: 20 },
            time: Time { hour: 10, minute: 0, second: 0 },
        },
        "aula".to_string(),
    ));
    assert_eq!(exam.get_dates().len(), 1);
}

#[test]
fn meta_key_carries_key_and_metadata() {
    let mut mk = MetaKey::new("folder", NodeState::new());
    assert_eq!(*mk.get_metadata(), NodeState { expanded: false });
    mk.get_mut_metadata().expanded = true;
    assert_eq!(*mk.get_metadata(), NodeState { expanded: true });
    let (key, meta) = mk.take();
    assert_eq!(key, "folder");
    assert_eq!(meta, NodeState { expanded: true });
}

#[test]
fn node_state_defaults_to_collapsed() {
    assert_eq!(NodeState::default(), NodeState { expanded: false });
    assert_eq!(Duration::default(), Duration { seconds: 0 });
}
