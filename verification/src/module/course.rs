//! A course in a module.

use vstd::prelude::*;

use std::collections::HashMap;

use crate::module::appointment::{Appointment, Date};
use crate::module::semester::Semester;
use crate::module::{Duration, ECTS};

verus! {

/// A course.
#[derive(Debug, Clone)]
pub struct Course {
    #[allow(missing_docs)]
    pub title: String,
    #[allow(missing_docs)]
    pub number: String,
    #[allow(missing_docs)]
    pub head: String,
    #[allow(missing_docs)]
    pub lecturers: String,
    #[allow(missing_docs)]
    pub typ: String,
    #[allow(missing_docs)]
    pub semester_weekly_hours: Duration,
    #[allow(missing_docs)]
    pub ects: ECTS,
    #[allow(missing_docs)]
    pub language: String,
    #[allow(missing_docs)]
    pub offered_in: Semester,
    #[allow(missing_docs)]
    pub organisation: String,
    #[allow(missing_docs)]
    pub content: String,
    #[allow(missing_docs)]
    pub previous_knowledge_expected: String,
    #[allow(missing_docs)]
    pub objective: String,
    #[allow(missing_docs)]
    pub teaching_and_learning_method: String,
    #[allow(missing_docs)]
    pub course_criteria_and_registration: String,
    #[allow(missing_docs)]
    pub recomended_reading: String,
    #[allow(missing_docs)]
    pub note: String,
    #[allow(missing_docs)]
    pub dates: HashMap<String, Vec<Appointment>>,
    #[allow(missing_docs)]
    pub registration_start: Option<Date>,
    #[allow(missing_docs)]
    pub registration_end: Option<Date>,
    #[allow(missing_docs)]
    pub deregistration_start: Option<Date>,
    #[allow(missing_docs)]
    pub deregistration_end: Option<Date>,
}

// Getters and mutable getters for Course
impl Course {
    /// Gets a reference to the course's title.
    pub fn get_title(&self) -> (r: &String)
        ensures
            *r == self.title,
    {
        &self.title
    }

    /// Gets a mutable reference to the course's title.
    pub fn get_mut_title(&mut self) -> (r: &mut String)
        ensures
            *r == old(self).title,
            *final(self) == (Course { title: *final(r), ..*old(self) }),
    {
        &mut self.title
    }

    /// Gets a reference to the course's number.
    pub fn get_number(&self) -> (r: &String)
        ensures
            *r == self.number,
    {
        &self.number
    }

    /// Gets a mutable reference to the course's number.
    pub fn get_mut_number(&mut self) -> (r: &mut String)
        ensures
            *r == old(self).number,
            *final(self) == (Course { number: *final(r), ..*old(self) }),
    {
        &mut self.number
    }

    /// Gets a reference to the course's head.
    pub fn get_head(&self) -> (r: &String)
        ensures
            *r == self.head,
    {
        &self.head
    }

    /// Gets a mutable reference to the course's head.
    pub fn get_mut_head(&mut self) -> (r: &mut String)
        ensures
            *r == old(self).head,
            *final(self) == (Course { head: *final(r), ..*old(self) }),
    {
        &mut self.head
    }

    /// Gets a reference to the course's lecturers.
    pub fn get_lecturers(&self) -> (r: &String)
        ensures
            *r == self.lecturers,
    {
        &self.lecturers
    }

    /// Gets a mutable reference to the course's lecturers.
    pub fn get_mut_lecturers(&mut self) -> (r: &mut String)
        ensures
            *r == old(self).lecturers,
            *final(self) == (Course { lecturers: *final(r), ..*old(self) }),
    {
        &mut self.lecturers
    }

    /// Gets a reference to the course's type.
    pub fn get_typ(&self) -> (r: &String)
        ensures
            *r == self.typ,
    {
        &self.typ
    }

    /// Gets a mutable reference to the course's type.
    pub fn get_mut_typ(&mut self) -> (r: &mut String)
        ensures
            *r == old(self).typ,
            *final(self) == (Course { typ: *final(r), ..*old(self) }),
    {
        &mut self.typ
    }

    /// Gets a reference to the course's semester_weekly_hours field.
    pub fn get_semester_weekly_hours(&self) -> (r: &Duration)
        ensures
            *r == self.semester_weekly_hours,
    {
        &self.semester_weekly_hours
    }

    /// Gets a mutable reference to the course's semester_weekly_hours field.
    pub fn get_mut_semester_weekly_hours(&mut self) -> (r: &mut Duration)
        ensures
            *r == old(self).semester_weekly_hours,
            *final(self) == (Course { semester_weekly_hours: *final(r), ..*old(self) }),
    {
        &mut self.semester_weekly_hours
    }

    /// Gets a reference to the course's ECTS value.
    pub fn get_ects(&self) -> (r: &ECTS)
        ensures
            *r == self.ects,
    {
        &self.ects
    }

    /// Gets a mutable reference to the course's ECTS value.
    pub fn get_mut_ects(&mut self) -> (r: &mut ECTS)
        ensures
            *r == old(self).ects,
            *final(self) == (Course { ects: *final(r), ..*old(self) }),
    {
        &mut self.ects
    }

    /// Gets a reference to the course's language field.
    pub fn get_language(&self) -> (r: &String)
        ensures
            *r == self.language,
    {
        &self.language
    }

    /// Gets a mutable reference to the course's language field.
    pub fn get_mut_language(&mut self) -> (r: &mut String)
        ensures
            *r == old(self).language,
            *final(self) == (Course { language: *final(r), ..*old(self) }),
    {
        &mut self.language
    }

    /// Gets a reference to the course's offered_in field.
    pub fn get_offered_in(&self) -> (r: &Semester)
        ensures
            *r == self.offered_in,
    {
        &self.offered_in
    }

    /// Gets a mutable reference to the course's offered_in field.
    pub fn get_mut_offered_in(&mut self) -> (r: &mut Semester)
        ensures
            *r == old(self).offered_in,
            *final(self) == (Course { offered_in: *final(r), ..*old(self) }),
    {
        &mut self.offered_in
    }

    /// Gets a reference to the course's organisation field.
    pub fn get_organisation(&self) -> (r: &String)
        ensures
            *r == self.organisation,
    {
        &self.organisation
    }

    /// Gets a mutable reference to the course's organisation field.
    pub fn get_mut_organisation(&mut self) -> (r: &mut String)
        ensures
            *r == old(self).organisation,
            *final(self) == (Course { organisation: *final(r), ..*old(self) }),
    {
        &mut self.organisation
    }

    /// Gets a reference to the course's content field.
    pub fn get_content(&self) -> (r: &String)
        ensures
            *r == self.content,
    {
        &self.content
    }

    /// Gets a mutable reference to the course's content field.
    pub fn get_mut_content(&mut self) -> (r: &mut String)
        ensures
            *r == old(self).content,
            *final(self) == (Course { content: *final(r), ..*old(self) }),
    {
        &mut self.content
    }

    /// Gets a reference to the course's previous_knowledge_expected field.
    pub fn get_previous_knowledge_expected(&self) -> (r: &String)
        ensures
            *r == self.previous_knowledge_expected,
    {
        &self.previous_knowledge_expected
    }

    /// Gets a mutable reference to the course's previous_knowledge_expected field.
    pub fn get_mut_previous_knowledge_expected(&mut self) -> (r: &mut String)
        ensures
            *r == old(self).previous_knowledge_expected,
            *final(self) == (Course { previous_knowledge_expected: *final(r), ..*old(self) }),
    {
        &mut self.previous_knowledge_expected
    }

    /// Gets a reference to the course's objective field.
    pub fn get_objective(&self) -> (r: &String)
        ensures
            *r == self.objective,
    {
        &self.objective
    }

    /// Gets a mutable reference to the course's objective field.
    pub fn get_mut_objective(&mut self) -> (r: &mut String)
        ensures
            *r == old(self).objective,
            *final(self) == (Course { objective: *final(r), ..*old(self) }),
    {
        &mut self.objective
    }

    /// Gets a reference to the course's teaching_and_learning_method field.
    pub fn get_teaching_and_learning_method(&self) -> (r: &String)
        ensures
            *r == self.teaching_and_learning_method,
    {
        &self.teaching_and_learning_method
    }

    /// Gets a mutable reference to the course's teaching_and_learning_method field.
    pub fn get_mut_teaching_and_learning_method(&mut self) -> (r: &mut String)
        ensures
            *r == old(self).teaching_and_learning_method,
            *final(self) == (Course { teaching_and_learning_method: *final(r), ..*old(self) }),
    {
        &mut self.teaching_and_learning_method
    }

    /// Gets a reference to the course's course_criteria_and_registration field.
    pub fn get_course_criteria_and_registration(&self) -> (r: &String)
        ensures
            *r == self.course_criteria_and_registration,
    {
        &self.course_criteria_and_registration
    }

    /// Gets a mutable reference to the course's course_criteria_and_registration field.
    pub fn get_mut_course_criteria_and_registration(&mut self) -> (r: &mut String)
        ensures
            *r == old(self).course_criteria_and_registration,
            *final(self) == (Course { course_criteria_and_registration: *final(r), ..*old(self) }),
    {
        &mut self.course_criteria_and_registration
    }

    /// Gets a reference to the course's recomended_reading field.
    pub fn get_recomended_reading(&self) -> (r: &String)
        ensures
            *r == self.recomended_reading,
    {
        &self.recomended_reading
    }

    /// Gets a mutable reference to the course's recomended_reading field.
    pub fn get_mut_recomended_reading(&mut self) -> (r: &mut String)
        ensures
            *r == old(self).recomended_reading,
            *final(self) == (Course { recomended_reading: *final(r), ..*old(self) }),
    {
        &mut self.recomended_reading
    }

    /// Gets a reference to the course's note field.
    pub fn get_note(&self) -> (r: &String)
        ensures
            *r == self.note,
    {
        &self.note
    }

    /// Gets a mutable reference to the course's note field.
    pub fn get_mut_note(&mut self) -> (r: &mut String)
        ensures
            *r == old(self).note,
            *final(self) == (Course { note: *final(r), ..*old(self) }),
    {
        &mut self.note
    }

    /// Gets a reference to the course's dates.
    pub fn get_dates(&self) -> (r: &HashMap<String, Vec<Appointment>>)
        ensures
            *r == self.dates,
    {
        &self.dates
    }

    /// Gets a mutable reference to the course's dates.
    pub fn get_mut_dates(&mut self) -> (r: &mut HashMap<String, Vec<Appointment>>)
        ensures
            *r == old(self).dates,
            *final(self) == (Course { dates: *final(r), ..*old(self) }),
    {
        &mut self.dates
    }

    /// Gets a reference to the course's registration_start field.
    pub fn get_registration_start(&self) -> (r: &Option<Date>)
        ensures
            *r == self.registration_start,
    {
        &self.registration_start
    }

    /// Gets a mutable reference to the course's registration_start field.
    pub fn get_mut_registration_start(&mut self) -> (r: &mut Option<Date>)
        ensures
            *r == old(self).registration_start,
            *final(self) == (Course { registration_start: *final(r), ..*old(self) }),
    {
        &mut self.registration_start
    }

    /// Gets a reference to the course's registration_end field.
    pub fn get_registration_end(&self) -> (r: &Option<Date>)
        ensures
            *r == self.registration_end,
    {
        &self.registration_end
    }

    /// Gets a mutable reference to the course's registration_end field.
    pub fn get_mut_registration_end(&mut self) -> (r: &mut Option<Date>)
        ensures
            *r == old(self).registration_end,
            *final(self) == (Course { registration_end: *final(r), ..*old(self) }),
    {
        &mut self.registration_end
    }

    /// Gets a reference to the course's deregistration_start field.
    pub fn get_deregistration_start(&self) -> (r: &Option<Date>)
        ensures
            *r == self.deregistration_start,
    {
        &self.deregistration_start
    }

    /// Gets a mutable reference to the course's deregistration_start field.
    pub fn get_mut_deregistration_start(&mut self) -> (r: &mut Option<Date>)
        ensures
            *r == old(self).deregistration_start,
            *final(self) == (Course { deregistration_start: *final(r), ..*old(self) }),
    {
        &mut self.deregistration_start
    }

    /// Gets a reference to the course's deregistration_end field.
    pub fn get_deregistration_end(&self) -> (r: &Option<Date>)
        ensures
            *r == self.deregistration_end,
    {
        &self.deregistration_end
    }

    /// Gets a mutable reference to the course's deregistration_end field.
    pub fn get_mut_deregistration_end(&mut self) -> (r: &mut Option<Date>)
        ensures
            *r == old(self).deregistration_end,
            *final(self) == (Course { deregistration_end: *final(r), ..*old(self) }),
    {
        &mut self.deregistration_end
    }

}

} // verus!
