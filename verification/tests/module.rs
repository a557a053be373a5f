use tum_module_picker::module::appointment::{Appointment, Date, DateTime, Time};
use tum_module_picker::module::semester::{ParseError, Semester};
use tum_module_picker::module::{parse_digits, Duration, Module};
use tum_module_picker::tag::TagBank;

fn dt(year: i32, month: u8, day: u8, hour: u8, minute: u8) -> DateTime {
    DateTime {
        date: Date { year, month, day },
        time: Time { hour, minute, second: 0 },
    }
}

#[test]
fn parse_digits_reads_numbers() {
    assert_eq!(parse_digits("0"), Some(0));
    assert_eq!(parse_digits("2025"), Some(2025));
    assert_eq!(parse_digits("007"), Some(7));
    assert_eq!(parse_digits("18446744073709551615"), Some(u64::MAX));
}

#[test]
fn parse_digits_rejects_bad_input() {
    assert_eq!(parse_digits(""), None);
    assert_eq!(parse_digits("12a"), None);
    assert_eq!(parse_digits("-5"), None);
    assert_eq!(parse_digits("18446744073709551616"), None);
}

#[test]
fn semester_parses_compact_form() {
    let (sem, start, end) = Semester::parse_with_index("W 2025").unwrap();
    assert_eq!(sem, Semester { year: 2025, winter: true });
    assert_eq!((start, end), (0, 6));
}

#[test]
fn season_letter_must_stand_as_its_own_word() {
    // "W2025" holds no word boundary between the W and the digits, so no
    // season word is found.
    assert_eq!(
        Semester::parse_with_index("W2025"),
        Err(ParseError::CouldNotFindSeason)
    );
}

#[test]
fn semester_parses_spaced_case_insensitive_form() {
    let (sem, start, end) = Semester::parse_with_index("2025 sUmmEr").unwrap();
    assert_eq!(sem, Semester { year: 2025, winter: false });
    assert_eq!((start, end), (0, 11));
}

#[test]
fn semester_without_year_is_rejected() {
    assert_eq!(
        Semester::parse_with_index("winter semester"),
        Err(ParseError::CouldNotFindYear)
    );
}

#[test]
fn semester_without_season_is_rejected() {
    assert_eq!(
        Semester::parse_with_index("year 2025"),
        Err(ParseError::CouldNotFindSeason)
    );
}

#[test]
fn semester_picks_the_earlier_season_word() {
    let (sem, _, _) = Semester::parse_with_index("w or summer 2023").unwrap();
    assert!(sem.winter);
    let (sem, _, _) = Semester::parse_with_index("summer or w 2023").unwrap();
    assert!(!sem.winter);
}

#[test]
fn date_validity_follows_the_calendar() {
    assert!(Date::from_calendar(2024, 2, 29).is_some());
    assert_eq!(Date::from_calendar(2023, 2, 29), None);
    assert_eq!(Date::from_calendar(2023, 4, 31), None);
    assert!(Date::from_calendar(2023, 4, 30).is_some());
    assert_eq!(Date::from_calendar(2023, 13, 1), None);
    assert_eq!(Date::from_calendar(2023, 0, 1), None);
    assert_eq!(Date::from_calendar(20000, 1, 1), None);
}

#[test]
fn time_validity_is_checked() {
    assert!(Time::from_hms(23, 59, 59).is_some());
    assert_eq!(Time::from_hms(24, 0, 0), None);
    assert_eq!(Time::from_hms(0, 60, 0), None);
}

#[test]
fn from_duration_adds_seconds_on_the_calendar() {
    let start = dt(2025, 10, 15, 23, 30);
    let appointment = Appointment::from_duration_checked(
        start,
        Duration { seconds: 3600 },
        "room 1".to_string(),
    )
    .unwrap();
    assert_eq!(appointment.start, start);
    assert_eq!(appointment.stop, dt(2025, 10, 16, 0, 30));
    assert_eq!(appointment.place, "room 1");
}

#[test]
fn from_duration_crosses_a_month_and_a_leap_day() {
    let start = dt(2024, 2, 28, 12, 0);
    let appointment = Appointment::from_duration_checked(
        start,
        Duration { seconds: 24 * 3600 },
        "hall".to_string(),
    )
    .unwrap();
    assert_eq!(appointment.stop, dt(2024, 2, 29, 12, 0));
}

#[test]
fn from_duration_checked_reports_out_of_range_ends() {
    let start = dt(9999, 12, 31, 23, 0);
    let out = Appointment::from_duration_checked(
        start,
        Duration { seconds: 7200 },
        "nowhere".to_string(),
    );
    assert!(out.is_none());
}

#[test]
fn from_lines_reads_a_succession_of_appointments() {
    let input = [
        "15Oct 2025",
        "Wednesday, 15:00 - 17:00",
        "MW 2050, Zeichen-/Hoersaal (5510.02.050)",
        "22Oct 2025",
        "Wednesday, 15:00 - 17:00",
        "MW 2050, Zeichen-/Hoersaal (5510.02.050)",
        "29Oct 2025",
        "Wednesday, 15:00 - 17:00",
        "MW 2050, Zeichen-/Hoersaal (5510.02.050)",
    ];
    let lines: Vec<String> = input.iter().map(|l| l.to_string()).collect();
    let appointments = Appointment::from_lines(&lines);
    assert_eq!(appointments.len(), 3);
    assert_eq!(appointments[0].start, dt(2025, 10, 15, 15, 0));
    assert_eq!(appointments[0].stop, dt(2025, 10, 15, 17, 0));
    assert_eq!(appointments[0].place, "MW 2050, Zeichen-/Hoersaal (5510.02.050)");
    assert_eq!(appointments[1].start, dt(2025, 10, 22, 15, 0));
    assert_eq!(appointments[2].start, dt(2025, 10, 29, 15, 0));
}

#[test]
fn from_lines_skips_unreadable_lines() {
    let input = ["noise", "15Oct 2025", "more noise", "15:00 - 17:00", "room"];
    let lines: Vec<String> = input.iter().map(|l| l.to_string()).collect();
    let appointments = Appointment::from_lines(&lines);
    assert_eq!(appointments.len(), 1);
    assert_eq!(appointments[0].place, "room");
}

#[test]
fn from_lines_on_empty_input_is_empty() {
    let appointments = Appointment::from_lines(&Vec::new());
    assert!(appointments.is_empty());
}

#[test]
fn module_default_is_empty() {
    let module = Module::default();
    assert_eq!(module.name, "");
    assert_eq!(module.ects, 0);
    assert!(module.valid_from.is_none());
    assert!(module.courses.is_empty());
    assert_eq!(module.total_hours, Duration { seconds: 0 });
    assert!(!module.exam_retake_next_semester);
}

#[test]
fn module_getters_read_and_write_fields() {
    let mut module = Module::default();
    *module.get_mut_name() = "Systems".to_string();
    *module.get_mut_ects() = 8;
    *module.get_mut_valid_from() = Some(Semester::new(2024, true));
    assert_eq!(module.get_name(), "Systems");
    assert_eq!(*module.get_ects(), 8);
    assert_eq!(*module.get_valid_from(), Some(Semester { year: 2024, winter: true }));
}

#[test]
fn semester_getters_read_and_write_fields() {
    let mut sem = Semester::new(2020, false);
    assert_eq!(*sem.get_year(), 2020);
    assert_eq!(*sem.get_winter(), false);
    *sem.get_mut_year() = 2021;
    *sem.get_mut_winter() = true;
    assert_eq!(sem, Semester { year: 2021, winter: true });
}

#[test]
fn appointment_getters_read_and_write_fields() {
    let mut a = Appointment::new(dt(2025, 1, 1, 8, 0), dt(2025, 1, 1, 9, 0), "lab".to_string());
    assert_eq!(*a.get_start(), dt(2025, 1, 1, 8, 0));
    assert_eq!(*a.get_stop(), dt(2025, 1, 1, 9, 0));
    assert_eq!(a.get_place(), "lab");
    *a.get_mut_place() = "aula".to_string();
    assert_eq!(a.get_place(), "aula");
}

#[test]
fn tag_bank_stores_each_tag_once() {
    let mut bank = TagBank::new();
    assert!(bank.add_tag_checked("new".to_string()).is_ok());
    assert!(bank.add_tag_checked("new".to_string()).is_err());
    assert_eq!(bank.add_tag("other".to_string()), "other");
    assert_eq!(bank.add_tag("other".to_string()), "other");
    assert_eq!(bank.tags.len(), 2);
}

#[test]
fn semester_writes_itself_as_text() {
    assert_eq!(Semester::new(2025, true).to_text(), "winter semester 2025");
    assert_eq!(Semester::new(2026, false).to_text(), "summer semester 2026");
    assert_eq!(Semester::new(0, false).to_text(), "summer semester 0");
    assert_eq!(Semester::new(907, true).to_text(), "winter semester 907");
}

#[test]
fn parse_errors_have_messages() {
    assert_eq!(
        ParseError::CouldNotFindYear.message(),
        "Can't determine the year of the semester"
    );
    assert_eq!(
        ParseError::CouldNotFindSeason.message(),
        "Can't determine if it is winter or summer semester"
    );
}

#[test]
fn semester_parses_through_from_str() {
    let sem: Semester = "2025 sUmmEr".parse().unwrap();
    assert_eq!(sem, Semester { year: 2025, winter: false });
    let bad: Result<Semester, ParseError> = "no year here, winter".parse();
    assert_eq!(bad, Err(ParseError::CouldNotFindYear));
}
