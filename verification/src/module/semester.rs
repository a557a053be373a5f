//! Things related to the [Semester] struct.

use vstd::prelude::*;

use crate::module::Year;

verus! {

/// A semester. For example, the 2025 summer semester.
#[derive(Debug, Clone, Copy, PartialEq, Eq, Structural)]
pub struct Semester {
    /// The year of the semester.
    pub year: Year,
    /// Whether it is a winter semester.
    pub winter: bool,
}

impl Semester {
    /// Creates a new semester.
    ///
    /// For a year x, winter semester x is the winter semester starting in
    /// September x.
    pub fn new(year: Year, is_winter: bool) -> (r: Self)
        ensures
            r == (Semester { year, winter: is_winter }),
    {
        Self { year, winter: is_winter }
    }

    /// Gets a reference to the semester's year.
    pub fn get_year(&self) -> (r: &Year)
        ensures
            *r == self.year,
    {
        &self.year
    }

    /// Gets a mutable reference to the semester's year.
    pub fn get_mut_year(&mut self) -> (r: &mut Year)
        ensures
            *r == old(self).year,
            *final(self) == (Semester { year: *final(r), ..*old(self) }),
    {
        &mut self.year
    }

    /// Gets a reference to the semester's winter field.
    pub fn get_winter(&self) -> (r: &bool)
        ensures
            *r == self.winter,
    {
        &self.winter
    }

    /// Gets a mutable reference to the semester's winter field.
    pub fn get_mut_winter(&mut self) -> (r: &mut bool)
        ensures
            *r == old(self).winter,
            *final(self) == (Semester { winter: *final(r), ..*old(self) }),
    {
        &mut self.winter
    }
}

/// Error returned when parsing a [Semester] fails.
#[derive(Debug, Clone, Copy, PartialEq, Eq, Structural)]
pub enum ParseError {
    /// The year of the semester could not be determined.
    CouldNotFindYear,
    /// The season (winter or summer) could not be determined.
    CouldNotFindSeason,
}

} // verus!

verus! {

/// What regex finds for the pattern `\d+`: the text and byte span of the
/// leftmost run of digits, if any.
pub uninterp spec fn year_match(s: Seq<char>) -> Option<(Seq<char>, int, int)>;

/// What regex finds for the pattern `(?i)\b{start}(?:W|Winter)\b{end}`: the
/// byte span of the leftmost word `w` or `winter`, case insensitive, if any.
pub uninterp spec fn winter_match(s: Seq<char>) -> Option<(int, int)>;

/// What regex finds for the pattern `(?i)\b{start}(?:S|Summer)\b{end}`: the
/// byte span of the leftmost word `s` or `summer`, case insensitive, if any.
pub uninterp spec fn summer_match(s: Seq<char>) -> Option<(int, int)>;

/// Relies on regex's `Regex::find` with the pattern `\d+`: the leftmost run
/// of digit characters, with its byte span.
#[verifier::external_body]
fn find_year(s: &str) -> (r: Option<(String, usize, usize)>)
    ensures
        match r {
            Some((text, a, b)) => year_match(s@) == Some((text@, a as int, b as int)) && a <= b,
            None => year_match(s@) is None,
        },
{
    let re = regex::Regex::new(r"\d+").unwrap();
    re.find(s).map(|m| (m.as_str().to_string(), m.start(), m.end()))
}

/// Relies on regex's `Regex::find` with the winter pattern of [winter_match].
#[verifier::external_body]
fn find_winter(s: &str) -> (r: Option<(usize, usize)>)
    ensures
        match r {
            Some((a, b)) => winter_match(s@) == Some((a as int, b as int)) && a <= b,
            None => winter_match(s@) is None,
        },
{
    let re = regex::Regex::new(r"(?i)\b{start}(?:W|Winter)\b{end}").unwrap();
    re.find(s).map(|m| (m.start(), m.end()))
}

/// Relies on regex's `Regex::find` with the summer pattern of [summer_match].
#[verifier::external_body]
fn find_summer(s: &str) -> (r: Option<(usize, usize)>)
    ensures
        match r {
            Some((a, b)) => summer_match(s@) == Some((a as int, b as int)) && a <= b,
            None => summer_match(s@) is None,
        },
{
    let re = regex::Regex::new(r"(?i)\b{start}(?:S|Summer)\b{end}").unwrap();
    re.find(s).map(|m| (m.start(), m.end()))
}

/// The lesser of two numbers.
pub open spec fn min2(a: int, b: int) -> int {
    if a < b {
        a
    } else {
        b
    }
}

/// The greater of two numbers.
pub open spec fn max2(a: int, b: int) -> int {
    if a < b {
        b
    } else {
        a
    }
}

/// What [Semester::parse_with_index] returns: the year is the leftmost run
/// of digits if it fits a [Year], the season is the closer of the leftmost
/// winter and summer words, and the span runs from the first to the last
/// byte that either match covers.
pub open spec fn spec_parse_semester(s: Seq<char>) -> Result<(Semester, int, int), ParseError> {
    match year_match(s) {
        None => Err(ParseError::CouldNotFindYear),
        Some((text, ys, ye)) => {
            if !(crate::module::is_digit_seq(text) && crate::module::digits_val(text)
                <= u16::MAX) {
                Err(ParseError::CouldNotFindYear)
            } else {
                let year = crate::module::digits_val(text) as u16;
                match (winter_match(s), summer_match(s)) {
                    (None, None) => Err(ParseError::CouldNotFindSeason),
                    (None, Some(sm)) => Ok(
                        (Semester { year, winter: false }, min2(ys, sm.0), max2(ye, sm.1)),
                    ),
                    (Some(wm), None) => Ok(
                        (Semester { year, winter: true }, min2(ys, wm.0), max2(ye, wm.1)),
                    ),
                    (Some(wm), Some(sm)) => if wm.0 < sm.0 {
                        Ok((Semester { year, winter: true }, min2(ys, wm.0), max2(ye, wm.1)))
                    } else {
                        Ok((Semester { year, winter: false }, min2(ys, sm.0), max2(ye, sm.1)))
                    },
                }
            }
        },
    }
}

impl Semester {
    /// Reads the string and finds a semester description in it.
    ///
    /// Returns the semester and the starting (inclusive) and ending
    /// (exclusive) byte indexes of the match.
    pub fn parse_with_index(s: &str) -> (r: Result<(Semester, usize, usize), ParseError>)
        ensures
            match r {
                Ok((sem, a, b)) => spec_parse_semester(s@) == Ok::<(Semester, int, int),
                    ParseError,
                >((sem, a as int, b as int)),
                Err(e) => spec_parse_semester(s@) == Err::<(Semester, int, int), ParseError>(e),
            },
    {
        let (text, ys, ye) = match find_year(s) {
            None => {
                return Err(ParseError::CouldNotFindYear);
            },
            Some(t) => t,
        };
        let year_value = match crate::module::parse_digits(text.as_str()) {
            None => {
                return Err(ParseError::CouldNotFindYear);
            },
            Some(v) => v,
        };
        if year_value > u16::MAX as u64 {
            return Err(ParseError::CouldNotFindYear);
        }
        let year: Year = year_value as u16;
        match (find_winter(s), find_summer(s)) {
            (None, None) => Err(ParseError::CouldNotFindSeason),
            (None, Some(sm)) => Ok(
                (
                    Semester::new(year, false),
                    if ys < sm.0 {
                        ys
                    } else {
                        sm.0
                    },
                    if ye < sm.1 {
                        sm.1
                    } else {
                        ye
                    },
                ),
            ),
            (Some(wm), None) => Ok(
                (
                    Semester::new(year, true),
                    if ys < wm.0 {
                        ys
                    } else {
                        wm.0
                    },
                    if ye < wm.1 {
                        wm.1
                    } else {
                        ye
                    },
                ),
            ),
            (Some(wm), Some(sm)) => {
                if wm.0 < sm.0 {
                    Ok(
                        (
                            Semester::new(year, true),
                            if ys < wm.0 {
                                ys
                            } else {
                                wm.0
                            },
                            if ye < wm.1 {
                                wm.1
                            } else {
                                ye
                            },
                        ),
                    )
                } else {
                    Ok(
                        (
                            Semester::new(year, false),
                            if ys < sm.0 {
                                ys
                            } else {
                                sm.0
                            },
                            if ye < sm.1 {
                                sm.1
                            } else {
                                ye
                            },
                        ),
                    )
                }
            },
        }
    }
}

/// The text that writes a semester: the season word, the word `semester`,
/// and the year in decimal.
pub open spec fn spec_semester_text(sem: Semester) -> Seq<char> {
    (if sem.winter {
        "winter"@
    } else {
        "summer"@
    }) + " semester "@ + crate::module::dec_str(sem.year as nat)
}

impl Semester {
    /// The semester written as text, for example `winter semester 2025`.
    ///
    /// Stands in for displaying the value.
    pub fn to_text(&self) -> (r: String)
        ensures
            r@ == spec_semester_text(*self),
    {
        let mut out = String::new();
        if self.winter {
            out.append("winter");
        } else {
            out.append("summer");
        }
        out.append(" semester ");
        crate::module::push_decimal(self.year as u64, &mut out);
        proof {
            assert(out@ =~= spec_semester_text(*self));
        }
        out
    }
}

impl ParseError {
    /// The error written as text. Stands in for displaying the value.
    pub fn message(&self) -> (r: String)
        ensures
            *self is CouldNotFindYear ==> r@ == "Can't determine the year of the semester"@,
            *self is CouldNotFindSeason ==> r@
                == "Can't determine if it is winter or summer semester"@,
    {
        match self {
            ParseError::CouldNotFindYear => String::from_str(
                "Can't determine the year of the semester",
            ),
            ParseError::CouldNotFindSeason => String::from_str(
                "Can't determine if it is winter or summer semester",
            ),
        }
    }
}

impl core::str::FromStr for Semester {
    type Err = ParseError;

    /// Parses a string through [Semester::parse_with_index], dropping the
    /// match indexes. The string must hold a number and a season word.
    fn from_str(s: &str) -> Result<Self, Self::Err> {
        match Semester::parse_with_index(s) {
            Ok((sem, _, _)) => Ok(sem),
            Err(e) => Err(e),
        }
    }
}

} // verus!
