//! The [Appointment] struct and the calendar values it is made of.

use vstd::prelude::*;

verus! {

/// A calendar date: a year, a month and a day of the month.
#[derive(Debug, Clone, Copy, PartialEq, Eq, Structural)]
pub struct Date {
    /// The year, between -9999 and 9999.
    pub year: i32,
    /// The month, between 1 and 12.
    pub month: u8,
    /// The day of the month, between 1 and the length of the month.
    pub day: u8,
}

/// A time of day.
#[derive(Debug, Clone, Copy, PartialEq, Eq, Structural)]
pub struct Time {
    /// The hour, below 24.
    pub hour: u8,
    /// The minute, below 60.
    pub minute: u8,
    /// The second, below 60.
    pub second: u8,
}

/// A calendar date together with a time of day.
#[derive(Debug, Clone, Copy, PartialEq, Eq, Structural)]
pub struct DateTime {
    /// The date part.
    pub date: Date,
    /// The time part.
    pub time: Time,
}

/// Whether `year` is a leap year of the proleptic Gregorian calendar.
pub open spec fn spec_is_leap_year(year: int) -> bool {
    year % 4 == 0 && (year % 100 != 0 || year % 400 == 0)
}

/// The number of days of a month, 1 being January.
pub open spec fn spec_days_in_month(year: int, month: int) -> int {
    if month == 2 {
        if spec_is_leap_year(year) {
            29
        } else {
            28
        }
    } else if month == 4 || month == 6 || month == 9 || month == 11 {
        30
    } else {
        31
    }
}

impl Date {
    /// The date names a real day within the supported year range.
    pub open spec fn wf(self) -> bool {
        &&& -9999 <= self.year <= 9999
        &&& 1 <= self.month <= 12
        &&& 1 <= self.day <= spec_days_in_month(self.year as int, self.month as int)
    }

    /// Builds the date when the components name a real day within the
    /// supported year range, and returns `None` otherwise.
    pub fn from_calendar(year: i32, month: u8, day: u8) -> (r: Option<Date>)
        ensures
            match r {
                Some(d) => d == (Date { year, month, day }) && d.wf(),
                None => !(Date { year, month, day }).wf(),
            },
    {
        if !(-9999 <= year && year <= 9999) {
            return None;
        }
        if !(1 <= month && month <= 12) {
            return None;
        }
        let days: u8 = if month == 2 {
            let leap = year % 4 == 0 && (year % 100 != 0 || year % 400 == 0);
            if leap {
                29
            } else {
                28
            }
        } else if month == 4 || month == 6 || month == 9 || month == 11 {
            30
        } else {
            31
        };
        if 1 <= day && day <= days {
            Some(Date { year, month, day })
        } else {
            None
        }
    }
}

impl Time {
    /// The time names a real time of day.
    pub open spec fn wf(self) -> bool {
        self.hour < 24 && self.minute < 60 && self.second < 60
    }

    /// Builds the time when the components name a real time of day, and
    /// returns `None` otherwise.
    pub fn from_hms(hour: u8, minute: u8, second: u8) -> (r: Option<Time>)
        ensures
            match r {
                Some(t) => t == (Time { hour, minute, second }) && t.wf(),
                None => !(Time { hour, minute, second }).wf(),
            },
    {
        if hour < 24 && minute < 60 && second < 60 {
            Some(Time { hour, minute, second })
        } else {
            None
        }
    }
}

impl DateTime {
    /// Both parts are well formed.
    pub open spec fn wf(self) -> bool {
        self.date.wf() && self.time.wf()
    }
}

/// An appointment with dates and a place.
#[derive(Debug, Clone, PartialEq, Eq)]
pub struct Appointment {
    /// When the appointment starts.
    pub start: DateTime,
    /// When the appointment stops.
    pub stop: DateTime,
    /// Where the appointment takes place.
    pub place: String,
}

// Getters and mutable getters for Appointment
impl Appointment {
    /// Gets a reference to the appointment's start date.
    pub fn get_start(&self) -> (r: &DateTime)
        ensures
            *r == self.start,
    {
        &self.start
    }

    /// Gets a mutable reference to the appointment's start date.
    pub fn get_mut_start(&mut self) -> (r: &mut DateTime)
        ensures
            *r == old(self).start,
            *final(self) == (Appointment { start: *final(r), ..*old(self) }),
    {
        &mut self.start
    }

    /// Gets a reference to the appointment's stop date.
    pub fn get_stop(&self) -> (r: &DateTime)
        ensures
            *r == self.stop,
    {
        &self.stop
    }

    /// Gets a mutable reference to the appointment's stop date.
    pub fn get_mut_stop(&mut self) -> (r: &mut DateTime)
        ensures
            *r == old(self).stop,
            *final(self) == (Appointment { stop: *final(r), ..*old(self) }),
    {
        &mut self.stop
    }

    /// Gets a reference to the appointment's place.
    pub fn get_place(&self) -> (r: &String)
        ensures
            *r == self.place,
    {
        &self.place
    }

    /// Gets a mutable reference to the appointment's place.
    pub fn get_mut_place(&mut self) -> (r: &mut String)
        ensures
            *r == old(self).place,
            *final(self) == (Appointment { place: *final(r), ..*old(self) }),
    {
        &mut self.place
    }

    /// Creates a new appointment.
    pub fn new(start: DateTime, stop: DateTime, place: String) -> (r: Self)
        ensures
            r == (Appointment { start, stop, place }),
    {
        Self { start, stop, place }
    }
}

} // verus!

verus! {

/// The datetime `seconds` seconds after `dt` in the proleptic Gregorian
/// calendar, or `None` when the result leaves the supported year range.
pub uninterp spec fn shifted(dt: DateTime, seconds: int) -> Option<DateTime>;

/// What regex captures for the pattern `(?x)(\d*)(...)\D*(\d*)`: a possibly
/// empty run of digits, three characters, and a later run of digits.
pub uninterp spec fn date_line_parts(s: Seq<char>) -> Option<(Seq<char>, Seq<char>, Seq<char>)>;

/// What regex captures for the first two matches of the pattern
/// `(\d*):(\d*)`: the digit groups around the first two colons.
pub uninterp spec fn time_line_parts(s: Seq<char>) -> Option<
    (Seq<char>, Seq<char>, Seq<char>, Seq<char>),
>;

/// Relies on time's `PrimitiveDateTime::checked_add`: calendar addition of
/// a number of seconds.
#[verifier::external_body]
fn add_seconds(dt: &DateTime, seconds: i64) -> (r: Option<DateTime>)
    ensures
        r == shifted(*dt, seconds as int),
        r matches Some(d) ==> d.wf(),
{
    let month = time::Month::try_from(dt.date.month).ok()?;
    let date = time::Date::from_calendar_date(dt.date.year, month, dt.date.day).ok()?;
    let t = time::Time::from_hms(dt.time.hour, dt.time.minute, dt.time.second).ok()?;
    let res = time::PrimitiveDateTime::new(date, t).checked_add(
        time::Duration::seconds(seconds),
    )?;
    Some(
        DateTime {
            date: Date { year: res.year(), month: res.month() as u8, day: res.day() },
            time: Time { hour: res.hour(), minute: res.minute(), second: res.second() },
        },
    )
}

/// Relies on regex's `Regex::captures` with the pattern of
/// [date_line_parts].
#[verifier::external_body]
fn find_date_parts(s: &str) -> (r: Option<(String, String, String)>)
    ensures
        match r {
            Some((day, month, year)) => date_line_parts(s@) == Some((day@, month@, year@)),
            None => date_line_parts(s@) is None,
        },
{
    let re = regex::Regex::new(r"(?x)(\d*)(...)\D*(\d*)").unwrap();
    let caps = re.captures(s)?;
    Some(
        (
            caps.get(1)?.as_str().to_string(),
            caps.get(2)?.as_str().to_string(),
            caps.get(3)?.as_str().to_string(),
        ),
    )
}

/// Relies on regex's `Regex::captures_iter` with the pattern of
/// [time_line_parts].
#[verifier::external_body]
fn find_time_parts(s: &str) -> (r: Option<(String, String, String, String)>)
    ensures
        match r {
            Some((h1, m1, h2, m2)) => time_line_parts(s@) == Some((h1@, m1@, h2@, m2@)),
            None => time_line_parts(s@) is None,
        },
{
    let re = regex::Regex::new(r"(\d*):(\d*)").unwrap();
    let mut it = re.captures_iter(s);
    let fst = it.next()?;
    let snd = it.next()?;
    Some(
        (
            fst.get(1)?.as_str().to_string(),
            fst.get(2)?.as_str().to_string(),
            snd.get(1)?.as_str().to_string(),
            snd.get(2)?.as_str().to_string(),
        ),
    )
}

/// The month number written by a three-letter English abbreviation.
pub open spec fn spec_month_from_abbrev(s: Seq<char>) -> Option<u8> {
    if s == "Jan"@ {
        Some(1u8)
    } else if s == "Feb"@ {
        Some(2u8)
    } else if s == "Mar"@ {
        Some(3u8)
    } else if s == "Apr"@ {
        Some(4u8)
    } else if s == "May"@ {
        Some(5u8)
    } else if s == "Jun"@ {
        Some(6u8)
    } else if s == "Jul"@ {
        Some(7u8)
    } else if s == "Aug"@ {
        Some(8u8)
    } else if s == "Sep"@ {
        Some(9u8)
    } else if s == "Oct"@ {
        Some(10u8)
    } else if s == "Dec"@ {
        Some(12u8)
    } else {
        None
    }
}

/// Reads a three-letter month abbreviation.
fn month_from_abbrev(s: &str) -> (r: Option<u8>)
    ensures
        r == spec_month_from_abbrev(s@),
{
    let o = s.to_owned();
    if o == String::from_str("Jan") {
        Some(1)
    } else if o == String::from_str("Feb") {
        Some(2)
    } else if o == String::from_str("Mar") {
        Some(3)
    } else if o == String::from_str("Apr") {
        Some(4)
    } else if o == String::from_str("May") {
        Some(5)
    } else if o == String::from_str("Jun") {
        Some(6)
    } else if o == String::from_str("Jul") {
        Some(7)
    } else if o == String::from_str("Aug") {
        Some(8)
    } else if o == String::from_str("Sep") {
        Some(9)
    } else if o == String::from_str("Oct") {
        Some(10)
    } else if o == String::from_str("Dec") {
        Some(12)
    } else {
        None
    }
}

/// The date written by a line, when its digit and month captures name a
/// real calendar day.
pub open spec fn spec_date_from_line(s: Seq<char>) -> Option<Date> {
    match date_line_parts(s) {
        None => None,
        Some((d, m, y)) => {
            if !(crate::module::is_digit_seq(d) && crate::module::digits_val(d) <= u8::MAX) {
                None
            } else {
                match spec_month_from_abbrev(m) {
                    None => None,
                    Some(month) => {
                        if !(crate::module::is_digit_seq(y) && crate::module::digits_val(y)
                            <= i32::MAX) {
                            None
                        } else {
                            let date = Date {
                                year: crate::module::digits_val(y) as i32,
                                month,
                                day: crate::module::digits_val(d) as u8,
                            };
                            if date.wf() {
                                Some(date)
                            } else {
                                None
                            }
                        }
                    },
                }
            }
        },
    }
}

/// Reads the date written by a line, if any.
fn date_from_line(s: &str) -> (r: Option<Date>)
    ensures
        r == spec_date_from_line(s@),
{
    let (d, m, y) = match find_date_parts(s) {
        None => {
            return None;
        },
        Some(parts) => parts,
    };
    let day = match crate::module::parse_digits(d.as_str()) {
        None => {
            return None;
        },
        Some(v) => v,
    };
    if day > u8::MAX as u64 {
        return None;
    }
    let month = match month_from_abbrev(m.as_str()) {
        None => {
            return None;
        },
        Some(v) => v,
    };
    let year = match crate::module::parse_digits(y.as_str()) {
        None => {
            return None;
        },
        Some(v) => v,
    };
    if year > i32::MAX as u64 {
        return None;
    }
    Date::from_calendar(year as i32, month, day as u8)
}

/// The pair of times written by a line, when its first two colon-separated
/// captures name real times of day.
pub open spec fn spec_times_from_line(s: Seq<char>) -> Option<(Time, Time)> {
    match time_line_parts(s) {
        None => None,
        Some((h1, m1, h2, m2)) => {
            if !(crate::module::is_digit_seq(h1) && crate::module::digits_val(h1) <= u8::MAX
                && crate::module::is_digit_seq(m1) && crate::module::digits_val(m1) <= u8::MAX
                && crate::module::is_digit_seq(h2) && crate::module::digits_val(h2) <= u8::MAX
                && crate::module::is_digit_seq(m2) && crate::module::digits_val(m2)
                <= u8::MAX) {
                None
            } else {
                let t1 = Time {
                    hour: crate::module::digits_val(h1) as u8,
                    minute: crate::module::digits_val(m1) as u8,
                    second: 0,
                };
                let t2 = Time {
                    hour: crate::module::digits_val(h2) as u8,
                    minute: crate::module::digits_val(m2) as u8,
                    second: 0,
                };
                if t1.wf() && t2.wf() {
                    Some((t1, t2))
                } else {
                    None
                }
            }
        },
    }
}

/// Reads the starting and ending times written by a line, if any.
fn times_from_line(s: &str) -> (r: Option<(Time, Time)>)
    ensures
        r == spec_times_from_line(s@),
{
    let (h1, m1, h2, m2) = match find_time_parts(s) {
        None => {
            return None;
        },
        Some(parts) => parts,
    };
    let vh1 = match crate::module::parse_digits(h1.as_str()) {
        None => {
            return None;
        },
        Some(v) => v,
    };
    let vm1 = match crate::module::parse_digits(m1.as_str()) {
        None => {
            return None;
        },
        Some(v) => v,
    };
    let vh2 = match crate::module::parse_digits(h2.as_str()) {
        None => {
            return None;
        },
        Some(v) => v,
    };
    let vm2 = match crate::module::parse_digits(m2.as_str()) {
        None => {
            return None;
        },
        Some(v) => v,
    };
    if vh1 > u8::MAX as u64 || vm1 > u8::MAX as u64 || vh2 > u8::MAX as u64 || vm2 > u8::MAX
        as u64 {
        return None;
    }
    let t1 = match Time::from_hms(vh1 as u8, vm1 as u8, 0) {
        None => {
            return None;
        },
        Some(t) => t,
    };
    let t2 = match Time::from_hms(vh2 as u8, vm2 as u8, 0) {
        None => {
            return None;
        },
        Some(t) => t,
    };
    Some((t1, t2))
}

/// Where a walk through the lines of an appointment list stands.
#[derive(Debug, Clone, Copy)]
pub enum ScanPhase {
    /// Looking for a line that writes a date.
    LookDate,
    /// A date was found; looking for a line that writes two times.
    LookTime(Date),
    /// A date and its times were found; the next line is the place.
    TakePlace(Date, Time, Time),
}

/// The appointments written by the lines from `i` on, walking one line per
/// step: a date line, then a time line, then a place line make one
/// appointment.
pub open spec fn spec_appointments_from(
    lines: Seq<String>,
    i: int,
    phase: ScanPhase,
) -> Seq<Appointment>
    decreases lines.len() - i,
{
    if !(0 <= i < lines.len()) {
        Seq::empty()
    } else {
        match phase {
            ScanPhase::LookDate => match spec_date_from_line(lines[i]@) {
                Some(d) => spec_appointments_from(lines, i + 1, ScanPhase::LookTime(d)),
                None => spec_appointments_from(lines, i + 1, ScanPhase::LookDate),
            },
            ScanPhase::LookTime(d) => match spec_times_from_line(lines[i]@) {
                Some((t1, t2)) => spec_appointments_from(
                    lines,
                    i + 1,
                    ScanPhase::TakePlace(d, t1, t2),
                ),
                None => spec_appointments_from(lines, i + 1, ScanPhase::LookTime(d)),
            },
            ScanPhase::TakePlace(d, t1, t2) => seq![
                Appointment {
                    start: DateTime { date: d, time: t1 },
                    stop: DateTime { date: d, time: t2 },
                    place: lines[i],
                },
            ] + spec_appointments_from(lines, i + 1, ScanPhase::LookDate),
        }
    }
}

impl Appointment {
    /// Creates a new appointment from a starting date and a duration.
    ///
    /// The end of the appointment must stay within the supported year
    /// range; [from_duration_checked](Self::from_duration_checked) makes
    /// that test itself.
    pub fn from_duration(start: DateTime, duration: crate::module::Duration, place: String) -> (r:
        Self)
        requires
            shifted(start, duration.seconds as int) is Some,
        ensures
            r.start == start,
            Some(r.stop) == shifted(start, duration.seconds as int),
            r.place == place,
    {
        match Self::from_duration_checked(start, duration, place) {
            Some(a) => a,
            None => vstd::pervasive::unreached(),
        }
    }

    /// Same as [from_duration](Self::from_duration), but returns `None`
    /// when the end of the appointment would leave the supported year
    /// range.
    pub fn from_duration_checked(
        start: DateTime,
        duration: crate::module::Duration,
        place: String,
    ) -> (r: Option<Self>)
        ensures
            match r {
                Some(a) => Some(a.stop) == shifted(start, duration.seconds as int) && a.start
                    == start && a.place == place && a.stop.wf(),
                None => shifted(start, duration.seconds as int) is None,
            },
    {
        match add_seconds(&start, duration.seconds) {
            Some(stop) => Some(Appointment::new(start, stop, place)),
            None => None,
        }
    }

    /// Reads a succession of appointments from text lines.
    ///
    /// Each appointment is written as a date line, then a line with a
    /// starting and an ending time, then a line naming the place.
    pub fn from_lines(lines: &Vec<String>) -> (r: Vec<Appointment>)
        ensures
            r@ == spec_appointments_from(lines@, 0, ScanPhase::LookDate),
    {
        let mut out: Vec<Appointment> = Vec::new();
        let mut phase = ScanPhase::LookDate;
        let mut i: usize = 0;
        while i < lines.len()
            invariant
                i <= lines@.len(),
                spec_appointments_from(lines@, 0, ScanPhase::LookDate) =~= out@
                    + spec_appointments_from(lines@, i as int, phase),
            decreases lines@.len() - i,
        {
            let line = &lines[i];
            match phase {
                ScanPhase::LookDate => match date_from_line(line.as_str()) {
                    Some(d) => {
                        phase = ScanPhase::LookTime(d);
                    },
                    None => {},
                },
                ScanPhase::LookTime(d) => match times_from_line(line.as_str()) {
                    Some((t1, t2)) => {
                        phase = ScanPhase::TakePlace(d, t1, t2);
                    },
                    None => {},
                },
                ScanPhase::TakePlace(d, t1, t2) => {
                    out.push(
                        Appointment {
                            start: DateTime { date: d, time: t1 },
                            stop: DateTime { date: d, time: t2 },
                            place: lines[i].clone(),
                        },
                    );
                    phase = ScanPhase::LookDate;
                },
            }
            i = i + 1;
        }
        out
    }
}

} // verus!
