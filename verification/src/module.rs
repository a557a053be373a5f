//! Everything related to the [Module] struct and its parts.

use vstd::prelude::*;

use crate::module::course::Course;
use crate::module::exam::Exam;
use crate::module::semester::Semester;

pub mod appointment;
pub mod course;
pub mod exam;
pub mod semester;

verus! {

/// The type for a year.
pub type Year = u16;

/// The type for an amount of ECTS credits.
pub type ECTS = u16;

/// A length of time, counted in whole seconds.
#[derive(Debug, Clone, Copy, PartialEq, Eq, Structural)]
pub struct Duration {
    /// The number of seconds.
    pub seconds: i64,
}

impl Default for Duration {
    fn default() -> (r: Self)
        ensures
            r == (Duration { seconds: 0 }),
    {
        Duration { seconds: 0 }
    }
}

/// True when the text is one or more decimal digits.
pub open spec fn is_digit_seq(s: Seq<char>) -> bool {
    s.len() > 0 && forall|i: int| 0 <= i < s.len() ==> '0' <= #[trigger] s[i] <= '9'
}

/// The number written by a sequence of decimal digits.
pub open spec fn digits_val(s: Seq<char>) -> nat
    decreases s.len(),
{
    if s.len() == 0 {
        0
    } else {
        (digits_val(s.drop_last()) * 10 + (s.last() as int - ('0' as int))) as nat
    }
}

/// A digit prefix never writes a larger number than the whole text.
pub proof fn lemma_digits_val_prefix(s: Seq<char>, i: int)
    requires
        0 <= i <= s.len(),
        forall|j: int| 0 <= j < s.len() ==> '0' <= #[trigger] s[j] <= '9',
    ensures
        digits_val(s.take(i)) <= digits_val(s),
    decreases s.len() - i,
{
    if i < s.len() {
        assert(s.take(i + 1).drop_last() =~= s.take(i));
        assert(s.take(i + 1).last() == s[i]);
        assert(digits_val(s.take(i)) <= digits_val(s.take(i + 1)));
        lemma_digits_val_prefix(s, i + 1);
    } else {
        assert(s.take(i) =~= s);
    }
}

/// Reads a number written in decimal digits.
///
/// Returns `None` when the text is empty, holds any character that is not an
/// ASCII digit, or writes a number that does not fit in a `u64`.
pub fn parse_digits(s: &str) -> (r: Option<u64>)
    ensures
        match r {
            Some(v) => is_digit_seq(s@) && v == digits_val(s@),
            None => !(is_digit_seq(s@) && digits_val(s@) <= u64::MAX),
        },
{
    let n = s.unicode_len();
    if n == 0 {
        return None;
    }
    let mut acc: u64 = 0;
    let mut i: usize = 0;
    proof {
        assert(s@.take(0) =~= Seq::<char>::empty());
    }
    while i < n
        invariant
            0 <= i <= n,
            n == s@.len(),
            forall|j: int| 0 <= j < i ==> '0' <= #[trigger] s@[j] <= '9',
            acc == digits_val(s@.take(i as int)),
        decreases n - i,
    {
        let c = s.get_char(i);
        if !('0' <= c && c <= '9') {
            return None;
        }
        let d: u64 = (c as u32 - 48) as u64;
        let next = match acc.checked_mul(10) {
            Some(m) => m.checked_add(d),
            None => None,
        };
        match next {
            Some(v) => {
                proof {
                    assert(s@.take(i as int + 1).drop_last() =~= s@.take(i as int));
                    assert(s@.take(i as int + 1).last() == s@[i as int]);
                }
                acc = v;
            },
            None => {
                proof {
                    assert(s@.take(i as int + 1).drop_last() =~= s@.take(i as int));
                    assert(s@.take(i as int + 1).last() == s@[i as int]);
                    assert(digits_val(s@.take(i as int + 1)) > u64::MAX);
                    if is_digit_seq(s@) {
                        lemma_digits_val_prefix(s@, i as int + 1);
                    }
                }
                return None;
            },
        }
        i = i + 1;
    }
    proof {
        assert(s@.take(n as int) =~= s@);
    }
    Some(acc)
}

/// The character that writes one decimal digit.
pub open spec fn digit_char(d: nat) -> char {
    if d == 0 {
        '0'
    } else if d == 1 {
        '1'
    } else if d == 2 {
        '2'
    } else if d == 3 {
        '3'
    } else if d == 4 {
        '4'
    } else if d == 5 {
        '5'
    } else if d == 6 {
        '6'
    } else if d == 7 {
        '7'
    } else if d == 8 {
        '8'
    } else {
        '9'
    }
}

/// The decimal digits that write `n`, most significant first and without
/// leading zeroes.
pub open spec fn dec_str(n: nat) -> Seq<char>
    decreases n,
{
    if n < 10 {
        seq![digit_char(n)]
    } else {
        dec_str(n / 10).push(digit_char(n % 10))
    }
}

/// Writes a number in decimal onto the end of a string.
pub fn push_decimal(n: u64, out: &mut String)
    ensures
        final(out)@ == old(out)@ + dec_str(n as nat),
    decreases n,
{
    if n >= 10 {
        push_decimal(n / 10, out);
    }
    let d = n % 10;
    let digit: &str = match d {
        0 => "0",
        1 => "1",
        2 => "2",
        3 => "3",
        4 => "4",
        5 => "5",
        6 => "6",
        7 => "7",
        8 => "8",
        _ => "9",
    };
    proof {
        reveal_strlit("0");
        reveal_strlit("1");
        reveal_strlit("2");
        reveal_strlit("3");
        reveal_strlit("4");
        reveal_strlit("5");
        reveal_strlit("6");
        reveal_strlit("7");
        reveal_strlit("8");
        reveal_strlit("9");
        assert(digit@ =~= seq![digit_char((n % 10) as nat)]);
    }
    out.append(digit);
    proof {
        if n < 10 {
            assert(old(out)@ + seq![digit_char(n as nat)] =~= old(out)@ + dec_str(n as nat));
        } else {
            assert((old(out)@ + dec_str((n / 10) as nat)) + seq![digit_char((n % 10) as nat)]
                =~= old(out)@ + dec_str(n as nat));
        }
    }
}

/// A module.
#[derive(Debug, Clone)]
pub struct Module {
    #[allow(missing_docs)]
    pub name: String,
    #[allow(missing_docs)]
    pub id: String,
    #[allow(missing_docs)]
    pub ects: ECTS,
    #[allow(missing_docs)]
    pub version: String,
    #[allow(missing_docs)]
    pub valid_from: Option<Semester>,
    #[allow(missing_docs)]
    pub valid_until: Option<Semester>,
    #[allow(missing_docs)]
    pub responsible: String,
    #[allow(missing_docs)]
    pub organisation: String,
    #[allow(missing_docs)]
    pub note: String,
    #[allow(missing_docs)]
    pub courses: Vec<Course>,
    #[allow(missing_docs)]
    pub exams: Vec<Exam>,
    #[allow(missing_docs)]
    pub module_level: String,
    #[allow(missing_docs)]
    pub abbreviation: String,
    #[allow(missing_docs)]
    pub subtitle: String,
    #[allow(missing_docs)]
    pub duration: String,
    #[allow(missing_docs)]
    pub occurence: String,
    #[allow(missing_docs)]
    pub language: String,
    #[allow(missing_docs)]
    pub related_programs: String,
    #[allow(missing_docs)]
    pub total_hours: Duration,
    #[allow(missing_docs)]
    pub contact_hours: Duration,
    #[allow(missing_docs)]
    pub self_study_hours: Duration,
    #[allow(missing_docs)]
    pub descr_of_achievement_assessment_methods: String,
    #[allow(missing_docs)]
    pub exam_retake_next_semester: bool,
    #[allow(missing_docs)]
    pub exam_retake_end_semester: bool,
    #[allow(missing_docs)]
    pub prerequisites: String,
    #[allow(missing_docs)]
    pub intended_learning_outcomes: String,
    #[allow(missing_docs)]
    pub content: String,
    #[allow(missing_docs)]
    pub teaching_and_learning_methods: String,
    #[allow(missing_docs)]
    pub media: String,
    #[allow(missing_docs)]
    pub reading_list: String,
    #[allow(missing_docs)]
    pub responsible_bis: String,
}

/// Enum representing the different fields of a [Module].
#[derive(Debug, Clone, Copy)]
pub enum Field {
    #[allow(missing_docs)]
    Name,
    #[allow(missing_docs)]
    Id,
    #[allow(missing_docs)]
    ECTS,
    #[allow(missing_docs)]
    Version,
    #[allow(missing_docs)]
    ValidFrom,
    #[allow(missing_docs)]
    ValidUntil,
    #[allow(missing_docs)]
    Responsible,
    #[allow(missing_docs)]
    Organisation,
    #[allow(missing_docs)]
    Note,
    #[allow(missing_docs)]
    Courses,
    #[allow(missing_docs)]
    Exams,
    #[allow(missing_docs)]
    ModuleLevel,
    #[allow(missing_docs)]
    Abbreviation,
    #[allow(missing_docs)]
    Subtitle,
    #[allow(missing_docs)]
    Duration,
    #[allow(missing_docs)]
    Occurence,
    #[allow(missing_docs)]
    Language,
    #[allow(missing_docs)]
    RelatedPrograms,
    #[allow(missing_docs)]
    TotalHours,
    #[allow(missing_docs)]
    ContactHours,
    #[allow(missing_docs)]
    SelfStudyHours,
    #[allow(missing_docs)]
    DescrOfAchievementAssessmentMethods,
    #[allow(missing_docs)]
    ExamRetakeNextSemester,
    #[allow(missing_docs)]
    ExamRetakeEndSemester,
    #[allow(missing_docs)]
    Prerequisites,
    #[allow(missing_docs)]
    IntendedLearningOutcomes,
    #[allow(missing_docs)]
    Content,
    #[allow(missing_docs)]
    TeachingAndLearningMethods,
    #[allow(missing_docs)]
    Media,
    #[allow(missing_docs)]
    ReadingList,
    #[allow(missing_docs)]
    ResponsibleBis,
}

impl Default for Module {
    fn default() -> (r: Self)
        ensures
            r.name@ == Seq::<char>::empty(),
            r.id@ == Seq::<char>::empty(),
            r.ects == 0,
            r.version@ == Seq::<char>::empty(),
            r.valid_from is None,
            r.valid_until is None,
            r.responsible@ == Seq::<char>::empty(),
            r.organisation@ == Seq::<char>::empty(),
            r.note@ == Seq::<char>::empty(),
            r.courses@ == Seq::<Course>::empty(),
            r.exams@ == Seq::<Exam>::empty(),
            r.module_level@ == Seq::<char>::empty(),
            r.abbreviation@ == Seq::<char>::empty(),
            r.subtitle@ == Seq::<char>::empty(),
            r.duration@ == Seq::<char>::empty(),
            r.occurence@ == Seq::<char>::empty(),
            r.language@ == Seq::<char>::empty(),
            r.related_programs@ == Seq::<char>::empty(),
            r.total_hours == (Duration { seconds: 0 }),
            r.contact_hours == (Duration { seconds: 0 }),
            r.self_study_hours == (Duration { seconds: 0 }),
            r.descr_of_achievement_assessment_methods@ == Seq::<char>::empty(),
            r.exam_retake_next_semester == false,
            r.exam_retake_end_semester == false,
            r.prerequisites@ == Seq::<char>::empty(),
            r.intended_learning_outcomes@ == Seq::<char>::empty(),
            r.content@ == Seq::<char>::empty(),
            r.teaching_and_learning_methods@ == Seq::<char>::empty(),
            r.media@ == Seq::<char>::empty(),
            r.reading_list@ == Seq::<char>::empty(),
            r.responsible_bis@ == Seq::<char>::empty(),
    {
        Module {
            name: String::new(),
            id: String::new(),
            ects: 0,
            version: String::new(),
            valid_from: None,
            valid_until: None,
            responsible: String::new(),
            organisation: String::new(),
            note: String::new(),
            courses: Vec::new(),
            exams: Vec::new(),
            module_level: String::new(),
            abbreviation: String::new(),
            subtitle: String::new(),
            duration: String::new(),
            occurence: String::new(),
            language: String::new(),
            related_programs: String::new(),
            total_hours: Duration { seconds: 0 },
            contact_hours: Duration { seconds: 0 },
            self_study_hours: Duration { seconds: 0 },
            descr_of_achievement_assessment_methods: String::new(),
            exam_retake_next_semester: false,
            exam_retake_end_semester: false,
            prerequisites: String::new(),
            intended_learning_outcomes: String::new(),
            content: String::new(),
            teaching_and_learning_methods: String::new(),
            media: String::new(),
            reading_list: String::new(),
            responsible_bis: String::new(),
        }
    }
}

// Getters and mutable getters for Module
impl Module {
    /// Gets a reference to the module's name.
    pub fn get_name(&self) -> (r: &String)
        ensures
            *r == self.name,
    {
        &self.name
    }

    /// Gets a mutable reference to the module's name.
    pub fn get_mut_name(&mut self) -> (r: &mut String)
        ensures
            *r == old(self).name,
            *final(self) == (Module { name: *final(r), ..*old(self) }),
    {
        &mut self.name
    }

    /// Gets a reference to the module's id.
    pub fn get_id(&self) -> (r: &String)
        ensures
            *r == self.id,
    {
        &self.id
    }

    /// Gets a mutable reference to the module's id.
    pub fn get_mut_id(&mut self) -> (r: &mut String)
        ensures
            *r == old(self).id,
            *final(self) == (Module { id: *final(r), ..*old(self) }),
    {
        &mut self.id
    }

    /// Gets a reference to the module's ects value.
    pub fn get_ects(&self) -> (r: &ECTS)
        ensures
            *r == self.ects,
    {
        &self.ects
    }

    /// Gets a mutable reference to the module's ects value.
    pub fn get_mut_ects(&mut self) -> (r: &mut ECTS)
        ensures
            *r == old(self).ects,
            *final(self) == (Module { ects: *final(r), ..*old(self) }),
    {
        &mut self.ects
    }

    /// Gets a reference to the module's version.
    pub fn get_version(&self) -> (r: &String)
        ensures
            *r == self.version,
    {
        &self.version
    }

    /// Gets a mutable reference to the module's version.
    pub fn get_mut_version(&mut self) -> (r: &mut String)
        ensures
            *r == old(self).version,
            *final(self) == (Module { version: *final(r), ..*old(self) }),
    {
        &mut self.version
    }

    /// Gets a reference to the module's valid_from field.
    pub fn get_valid_from(&self) -> (r: &Option<Semester>)
        ensures
            *r == self.valid_from,
    {
        &self.valid_from
    }

    /// Gets a mutable reference to the module's valid_from field.
    pub fn get_mut_valid_from(&mut self) -> (r: &mut Option<Semester>)
        ensures
            *r == old(self).valid_from,
            *final(self) == (Module { valid_from: *final(r), ..*old(self) }),
    {
        &mut self.valid_from
    }

    /// Gets a reference to the module's valid_until field.
    pub fn get_valid_until(&self) -> (r: &Option<Semester>)
        ensures
            *r == self.valid_until,
    {
        &self.valid_until
    }

    /// Gets a mutable reference to the module's valid_until field.
    pub fn get_mut_valid_until(&mut self) -> (r: &mut Option<Semester>)
        ensures
            *r == old(self).valid_until,
            *final(self) == (Module { valid_until: *final(r), ..*old(self) }),
    {
        &mut self.valid_until
    }

    /// Gets a reference to the module's responsible field.
    pub fn get_responsible(&self) -> (r: &String)
        ensures
            *r == self.responsible,
    {
        &self.responsible
    }

    /// Gets a mutable reference to the module's responsible field.
    pub fn get_mut_responsible(&mut self) -> (r: &mut String)
        ensures
            *r == old(self).responsible,
            *final(self) == (Module { responsible: *final(r), ..*old(self) }),
    {
        &mut self.responsible
    }

    /// Gets a reference to the module's organisation field.
    pub fn get_organisation(&self) -> (r: &String)
        ensures
            *r == self.organisation,
    {
        &self.organisation
    }

    /// Gets a mutable reference to the module's organisation field.
    pub fn get_mut_organisation(&mut self) -> (r: &mut String)
        ensures
            *r == old(self).organisation,
            *final(self) == (Module { organisation: *final(r), ..*old(self) }),
    {
        &mut self.organisation
    }

    /// Gets a reference to the module's note field.
    pub fn get_note(&self) -> (r: &String)
        ensures
            *r == self.note,
    {
        &self.note
    }

    /// Gets a mutable reference to the module's note field.
    pub fn get_mut_note(&mut self) -> (r: &mut String)
        ensures
            *r == old(self).note,
            *final(self) == (Module { note: *final(r), ..*old(self) }),
    {
        &mut self.note
    }

    /// Gets a reference to the module's courses.
    pub fn get_courses(&self) -> (r: &Vec<Course>)
        ensures
            *r == self.courses,
    {
        &self.courses
    }

    /// Gets a mutable reference to the module's courses.
    pub fn get_mut_courses(&mut self) -> (r: &mut Vec<Course>)
        ensures
            *r == old(self).courses,
            *final(self) == (Module { courses: *final(r), ..*old(self) }),
    {
        &mut self.courses
    }

    /// Gets a reference to the module's exams.
    pub fn get_exams(&self) -> (r: &Vec<Exam>)
        ensures
            *r == self.exams,
    {
        &self.exams
    }

    /// Gets a mutable reference to the module's exams.
    pub fn get_mut_exams(&mut self) -> (r: &mut Vec<Exam>)
        ensures
            *r == old(self).exams,
            *final(self) == (Module { exams: *final(r), ..*old(self) }),
    {
        &mut self.exams
    }

    /// Gets a reference to the module's module_level field.
    pub fn get_module_level(&self) -> (r: &String)
        ensures
            *r == self.module_level,
    {
        &self.module_level
    }

    /// Gets a mutable reference to the module's module_level field.
    pub fn get_mut_module_level(&mut self) -> (r: &mut String)
        ensures
            *r == old(self).module_level,
            *final(self) == (Module { module_level: *final(r), ..*old(self) }),
    {
        &mut self.module_level
    }

    /// Gets a reference to the module's abbreviation field.
    pub fn get_abbreviation(&self) -> (r: &String)
        ensures
            *r == self.abbreviation,
    {
        &self.abbreviation
    }

    /// Gets a mutable reference to the module's abbreviation field.
    pub fn get_mut_abbreviation(&mut self) -> (r: &mut String)
        ensures
            *r == old(self).abbreviation,
            *final(self) == (Module { abbreviation: *final(r), ..*old(self) }),
    {
        &mut self.abbreviation
    }

    /// Gets a reference to the module's subtitle field.
    pub fn get_subtitle(&self) -> (r: &String)
        ensures
            *r == self.subtitle,
    {
        &self.subtitle
    }

    /// Gets a mutable reference to the module's subtitle field.
    pub fn get_mut_subtitle(&mut self) -> (r: &mut String)
        ensures
            *r == old(self).subtitle,
            *final(self) == (Module { subtitle: *final(r), ..*old(self) }),
    {
        &mut self.subtitle
    }

    /// Gets a reference to the module's duration field.
    pub fn get_duration(&self) -> (r: &String)
        ensures
            *r == self.duration,
    {
        &self.duration
    }

    /// Gets a mutable reference to the module's duration field.
    pub fn get_mut_duration(&mut self) -> (r: &mut String)
        ensures
            *r == old(self).duration,
            *final(self) == (Module { duration: *final(r), ..*old(self) }),
    {
        &mut self.duration
    }

    /// Gets a reference to the module's occurence field.
    pub fn get_occurence(&self) -> (r: &String)
        ensures
            *r == self.occurence,
    {
        &self.occurence
    }

    /// Gets a mutable reference to the module's occurence field.
    pub fn get_mut_occurence(&mut self) -> (r: &mut String)
        ensures
            *r == old(self).occurence,
            *final(self) == (Module { occurence: *final(r), ..*old(self) }),
    {
        &mut self.occurence
    }

    /// Gets a reference to the module's language field.
    pub fn get_language(&self) -> (r: &String)
        ensures
            *r == self.language,
    {
        &self.language
    }

    /// Gets a mutable reference to the module's language field.
    pub fn get_mut_language(&mut self) -> (r: &mut String)
        ensures
            *r == old(self).language,
            *final(self) == (Module { language: *final(r), ..*old(self) }),
    {
        &mut self.language
    }

    /// Gets a reference to the module's related_programs field.
    pub fn get_related_programs(&self) -> (r: &String)
        ensures
            *r == self.related_programs,
    {
        &self.related_programs
    }

    /// Gets a mutable reference to the module's related_programs field.
    pub fn get_mut_related_programs(&mut self) -> (r: &mut String)
        ensures
            *r == old(self).related_programs,
            *final(self) == (Module { related_programs: *final(r), ..*old(self) }),
    {
        &mut self.related_programs
    }

    /// Gets a reference to the module's total_hours field.
    pub fn get_total_hours(&self) -> (r: &Duration)
        ensures
            *r == self.total_hours,
    {
        &self.total_hours
    }

    /// Gets a mutable reference to the module's total_hours field.
    pub fn get_mut_total_hours(&mut self) -> (r: &mut Duration)
        ensures
            *r == old(self).total_hours,
            *final(self) == (Module { total_hours: *final(r), ..*old(self) }),
    {
        &mut self.total_hours
    }

    /// Gets a reference to the module's contact_hours field.
    pub fn get_contact_hours(&self) -> (r: &Duration)
        ensures
            *r == self.contact_hours,
    {
        &self.contact_hours
    }

    /// Gets a mutable reference to the module's contact_hours field.
    pub fn get_mut_contact_hours(&mut self) -> (r: &mut Duration)
        ensures
            *r == old(self).contact_hours,
            *final(self) == (Module { contact_hours: *final(r), ..*old(self) }),
    {
        &mut self.contact_hours
    }

    /// Gets a reference to the module's self_study_hours field.
    pub fn get_self_study_hours(&self) -> (r: &Duration)
        ensures
            *r == self.self_study_hours,
    {
        &self.self_study_hours
    }

    /// Gets a mutable reference to the module's self_study_hours field.
    pub fn get_mut_self_study_hours(&mut self) -> (r: &mut Duration)
        ensures
            *r == old(self).self_study_hours,
            *final(self) == (Module { self_study_hours: *final(r), ..*old(self) }),
    {
        &mut self.self_study_hours
    }

    /// Gets a reference to the module's descr_of_achievement_assessment_methods field.
    pub fn get_descr_of_achievement_assessment_methods(&self) -> (r: &String)
        ensures
            *r == self.descr_of_achievement_assessment_methods,
    {
        &self.descr_of_achievement_assessment_methods
    }

    /// Gets a mutable reference to the module's descr_of_achievement_assessment_methods field.
    pub fn get_mut_descr_of_achievement_assessment_methods(&mut self) -> (r: &mut String)
        ensures
            *r == old(self).descr_of_achievement_assessment_methods,
            *final(self) == (Module { descr_of_achievement_assessment_methods: *final(r), ..*old(self) }),
    {
        &mut self.descr_of_achievement_assessment_methods
    }

    /// Gets a reference to the module's exam_retake_next_semester field.
    pub fn get_exam_retake_next_semester(&self) -> (r: &bool)
        ensures
            *r == self.exam_retake_next_semester,
    {
        &self.exam_retake_next_semester
    }

    /// Gets a mutable reference to the module's exam_retake_next_semester field.
    pub fn get_mut_exam_retake_next_semester(&mut self) -> (r: &mut bool)
        ensures
            *r == old(self).exam_retake_next_semester,
            *final(self) == (Module { exam_retake_next_semester: *final(r), ..*old(self) }),
    {
        &mut self.exam_retake_next_semester
    }

    /// Gets a reference to the module's exam_retake_end_semester field.
    pub fn get_exam_retake_end_semester(&self) -> (r: &bool)
        ensures
            *r == self.exam_retake_end_semester,
    {
        &self.exam_retake_end_semester
    }

    /// Gets a mutable reference to the module's exam_retake_end_semester field.
    pub fn get_mut_exam_retake_end_semester(&mut self) -> (r: &mut bool)
        ensures
            *r == old(self).exam_retake_end_semester,
            *final(self) == (Module { exam_retake_end_semester: *final(r), ..*old(self) }),
    {
        &mut self.exam_retake_end_semester
    }

    /// Gets a reference to the module's prerequisites field.
    pub fn get_prerequisites(&self) -> (r: &String)
        ensures
            *r == self.prerequisites,
    {
        &self.prerequisites
    }

    /// Gets a mutable reference to the module's prerequisites field.
    pub fn get_mut_prerequisites(&mut self) -> (r: &mut String)
        ensures
            *r == old(self).prerequisites,
            *final(self) == (Module { prerequisites: *final(r), ..*old(self) }),
    {
        &mut self.prerequisites
    }

    /// Gets a reference to the module's intended_learning_outcomes field.
    pub fn get_intended_learning_outcomes(&self) -> (r: &String)
        ensures
            *r == self.intended_learning_outcomes,
    {
        &self.intended_learning_outcomes
    }

    /// Gets a mutable reference to the module's intended_learning_outcomes field.
    pub fn get_mut_intended_learning_outcomes(&mut self) -> (r: &mut String)
        ensures
            *r == old(self).intended_learning_outcomes,
            *final(self) == (Module { intended_learning_outcomes: *final(r), ..*old(self) }),
    {
        &mut self.intended_learning_outcomes
    }

    /// Gets a reference to the module's content field.
    pub fn get_content(&self) -> (r: &String)
        ensures
            *r == self.content,
    {
        &self.content
    }

    /// Gets a mutable reference to the module's content field.
    pub fn get_mut_content(&mut self) -> (r: &mut String)
        ensures
            *r == old(self).content,
            *final(self) == (Module { content: *final(r), ..*old(self) }),
    {
        &mut self.content
    }

    /// Gets a reference to the module's teaching_and_learning_methods field.
    pub fn get_teaching_and_learning_methods(&self) -> (r: &String)
        ensures
            *r == self.teaching_and_learning_methods,
    {
        &self.teaching_and_learning_methods
    }

    /// Gets a mutable reference to the module's teaching_and_learning_methods field.
    pub fn get_mut_teaching_and_learning_methods(&mut self) -> (r: &mut String)
        ensures
            *r == old(self).teaching_and_learning_methods,
            *final(self) == (Module { teaching_and_learning_methods: *final(r), ..*old(self) }),
    {
        &mut self.teaching_and_learning_methods
    }

    /// Gets a reference to the module's media field.
    pub fn get_media(&self) -> (r: &String)
        ensures
            *r == self.media,
    {
        &self.media
    }

    /// Gets a mutable reference to the module's media field.
    pub fn get_mut_media(&mut self) -> (r: &mut String)
        ensures
            *r == old(self).media,
            *final(self) == (Module { media: *final(r), ..*old(self) }),
    {
        &mut self.media
    }

    /// Gets a reference to the module's reading_list field.
    pub fn get_reading_list(&self) -> (r: &String)
        ensures
            *r == self.reading_list,
    {
        &self.reading_list
    }

    /// Gets a mutable reference to the module's reading_list field.
    pub fn get_mut_reading_list(&mut self) -> (r: &mut String)
        ensures
            *r == old(self).reading_list,
            *final(self) == (Module { reading_list: *final(r), ..*old(self) }),
    {
        &mut self.reading_list
    }

    /// Gets a reference to the module's responsible_bis field.
    pub fn get_responsible_bis(&self) -> (r: &String)
        ensures
            *r == self.responsible_bis,
    {
        &self.responsible_bis
    }

    /// Gets a mutable reference to the module's responsible_bis field.
    pub fn get_mut_responsible_bis(&mut self) -> (r: &mut String)
        ensures
            *r == old(self).responsible_bis,
            *final(self) == (Module { responsible_bis: *final(r), ..*old(self) }),
    {
        &mut self.responsible_bis
    }

}

} // verus!
