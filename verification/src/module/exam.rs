//! A module exam.

use vstd::prelude::*;

use crate::module::appointment::{Appointment, Date};
use crate::module::semester::Semester;
use crate::module::{Duration, ECTS};

verus! {

/// An exam.
#[derive(Debug, Clone)]
pub struct Exam {
    #[allow(missing_docs)]
    pub title: String,
    #[allow(missing_docs)]
    pub number: String,
    #[allow(missing_docs)]
    pub persons_involved: String,
    #[allow(missing_docs)]
    pub typ: String,
    #[allow(missing_docs)]
    pub semester_weekly_hours: Duration,
    #[allow(missing_docs)]
    pub ects: ECTS,
    #[allow(missing_docs)]
    pub offered_in: Semester,
    #[allow(missing_docs)]
    pub organisation: String,
    #[allow(missing_docs)]
    pub further_information: String,
    #[allow(missing_docs)]
    pub assessment_scheme: String,
    #[allow(missing_docs)]
    pub note: String,
    #[allow(missing_docs)]
    pub dates: Vec<Appointment>,
    #[allow(missing_docs)]
    pub registration_start: Option<Date>,
    #[allow(missing_docs)]
    pub registration_end: Option<Date>,
    #[allow(missing_docs)]
    pub deregistration_start: Option<Date>,
    #[allow(missing_docs)]
    pub deregistration_end: Option<Date>,
}

// Getters and mutable getters for Exam
impl Exam {
    /// Gets a reference to the exam's title.
    pub fn get_title(&self) -> (r: &String)
        ensures
            *r == self.title,
    {
        &self.title
    }

    /// Gets a mutable reference to the exam's title.
    pub fn get_mut_title(&mut self) -> (r: &mut String)
        ensures
            *r == old(self).title,
            *final(self) == (Exam { title: *final(r), ..*old(self) }),
    {
        &mut self.title
    }

    /// Gets a reference to the exam's number.
    pub fn get_number(&self) -> (r: &String)
        ensures
            *r == self.number,
    {
        &self.number
    }

    /// Gets a mutable reference to the exam's number.
    pub fn get_mut_number(&mut self) -> (r: &mut String)
        ensures
            *r == old(self).number,
            *final(self) == (Exam { number: *final(r), ..*old(self) }),
    {
        &mut self.number
    }

    /// Gets a reference to the exam's persons_involved field.
    pub fn get_persons_involved(&self) -> (r: &String)
        ensures
            *r == self.persons_involved,
    {
        &self.persons_involved
    }

    /// Gets a mutable reference to the exam's persons_involved field.
    pub fn get_mut_persons_involved(&mut self) -> (r: &mut String)
        ensures
            *r == old(self).persons_involved,
            *final(self) == (Exam { persons_involved: *final(r), ..*old(self) }),
    {
        &mut self.persons_involved
    }

    /// Gets a reference to the exam's type.
    pub fn get_typ(&self) -> (r: &String)
        ensures
            *r == self.typ,
    {
        &self.typ
    }

    /// Gets a mutable reference to the exam's type.
    pub fn get_mut_typ(&mut self) -> (r: &mut String)
        ensures
            *r == old(self).typ,
            *final(self) == (Exam { typ: *final(r), ..*old(self) }),
    {
        &mut self.typ
    }

    /// Gets a reference to the exam's semester_weekly_hours field.
    pub fn get_semester_weekly_hours(&self) -> (r: &Duration)
        ensures
            *r == self.semester_weekly_hours,
    {
        &self.semester_weekly_hours
    }

    /// Gets a mutable reference to the exam's semester_weekly_hours field.
    pub fn get_mut_semester_weekly_hours(&mut self) -> (r: &mut Duration)
        ensures
            *r == old(self).semester_weekly_hours,
            *final(self) == (Exam { semester_weekly_hours: *final(r), ..*old(self) }),
    {
        &mut self.semester_weekly_hours
    }

    /// Gets a reference to the exam's ECTS value.
    pub fn get_ects(&self) -> (r: &ECTS)
        ensures
            *r == self.ects,
    {
        &self.ects
    }

    /// Gets a mutable reference to the exam's ECTS value.
    pub fn get_mut_ects(&mut self) -> (r: &mut ECTS)
        ensures
            *r == old(self).ects,
            *final(self) == (Exam { ects: *final(r), ..*old(self) }),
    {
        &mut self.ects
    }

    /// Gets a reference to the exam's offered_in field.
    pub fn get_offered_in(&self) -> (r: &Semester)
        ensures
            *r == self.offered_in,
    {
        &self.offered_in
    }

    /// Gets a mutable reference to the exam's offered_in field.
    pub fn get_mut_offered_in(&mut self) -> (r: &mut Semester)
        ensures
            *r == old(self).offered_in,
            *final(self) == (Exam { offered_in: *final(r), ..*old(self) }),
    {
        &mut self.offered_in
    }

    /// Gets a reference to the exam's organisation field.
    pub fn get_organisation(&self) -> (r: &String)
        ensures
            *r == self.organisation,
    {
        &self.organisation
    }

    /// Gets a mutable reference to the exam's organisation field.
    pub fn get_mut_organisation(&mut self) -> (r: &mut String)
        ensures
            *r == old(self).organisation,
            *final(self) == (Exam { organisation: *final(r), ..*old(self) }),
    {
        &mut self.organisation
    }

    /// Gets a reference to the exam's further_information field.
    pub fn get_further_information(&self) -> (r: &String)
        ensures
            *r == self.further_information,
    {
        &self.further_information
    }

    /// Gets a reference to the exam's assessment_scheme field.
    pub fn get_assessment_scheme(&self) -> (r: &String)
        ensures
            *r == self.assessment_scheme,
    {
        &self.assessment_scheme
    }

    /// Gets a mutable reference to the exam's assessment_scheme field.
    pub fn get_mut_assessment_scheme(&mut self) -> (r: &mut String)
        ensures
            *r == old(self).assessment_scheme,
            *final(self) == (Exam { assessment_scheme: *final(r), ..*old(self) }),
    {
        &mut self.assessment_scheme
    }

    /// Gets a reference to the exam's note field.
    pub fn get_note(&self) -> (r: &String)
        ensures
            *r == self.note,
    {
        &self.note
    }

    /// Gets a mutable reference to the exam's note field.
    pub fn get_mut_note(&mut self) -> (r: &mut String)
        ensures
            *r == old(self).note,
            *final(self) == (Exam { note: *final(r), ..*old(self) }),
    {
        &mut self.note
    }

    /// Gets a reference to the exam's dates.
    pub fn get_dates(&self) -> (r: &Vec<Appointment>)
        ensures
            *r == self.dates,
    {
        &self.dates
    }

    /// Gets a mutable reference to the exam's dates.
    pub fn get_mut_dates(&mut self) -> (r: &mut Vec<Appointment>)
        ensures
            *r == old(self).dates,
            *final(self) == (Exam { dates: *final(r), ..*old(self) }),
    {
        &mut self.dates
    }

    /// Gets a reference to the exam's registration_start field.
    pub fn get_registration_start(&self) -> (r: &Option<Date>)
        ensures
            *r == self.registration_start,
    {
        &self.registration_start
    }

    /// Gets a mutable reference to the exam's registration_start field.
    pub fn get_mut_registration_start(&mut self) -> (r: &mut Option<Date>)
        ensures
            *r == old(self).registration_start,
            *final(self) == (Exam { registration_start: *final(r), ..*old(self) }),
    {
        &mut self.registration_start
    }

    /// Gets a reference to the exam's registration_end field.
    pub fn get_registration_end(&self) -> (r: &Option<Date>)
        ensures
            *r == self.registration_end,
    {
        &self.registration_end
    }

    /// Gets a mutable reference to the exam's registration_end field.
    pub fn get_mut_registration_end(&mut self) -> (r: &mut Option<Date>)
        ensures
            *r == old(self).registration_end,
            *final(self) == (Exam { registration_end: *final(r), ..*old(self) }),
    {
        &mut self.registration_end
    }

    /// Gets a reference to the exam's deregistration_start field.
    pub fn get_deregistration_start(&self) -> (r: &Option<Date>)
        ensures
            *r == self.deregistration_start,
    {
        &self.deregistration_start
    }

    /// Gets a mutable reference to the exam's deregistration_start field.
    pub fn get_mut_deregistration_start(&mut self) -> (r: &mut Option<Date>)
        ensures
            *r == old(self).deregistration_start,
            *final(self) == (Exam { deregistration_start: *final(r), ..*old(self) }),
    {
        &mut self.deregistration_start
    }

    /// Gets a reference to the exam's deregistration_end field.
    pub fn get_deregistration_end(&self) -> (r: &Option<Date>)
        ensures
            *r == self.deregistration_end,
    {
        &self.deregistration_end
    }

    /// Gets a mutable reference to the exam's deregistration_end field.
    pub fn get_mut_deregistration_end(&mut self) -> (r: &mut Option<Date>)
        ensures
            *r == old(self).deregistration_end,
            *final(self) == (Exam { deregistration_end: *final(r), ..*old(self) }),
    {
        &mut self.deregistration_end
    }

}

} // verus!
