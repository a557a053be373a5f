//! Reads a sequence of text lines in which some lines are section headers,
//! and hands out the body lines found between headers.
//!
//! A caller-supplied [SectionFinder] classifies each line. Lines before the
//! first header are dropped; a header line is consumed exactly once and is
//! never yielded as body content.

use vstd::prelude::*;

verus! {

/// Recognizes section-header lines.
pub trait SectionFinder<Section> {
    /// What the finder answers for a given line.
    spec fn spec_find(&self, line: Seq<char>) -> Option<Section>;

    /// Classifies one line: `Some(tag)` when the line opens the section
    /// `tag`, `None` when it is body text.
    fn find(&self, line: &str) -> (r: Option<Section>)
        ensures
            r == self.spec_find(line@),
    ;
}

/// The index of the first header line at or after `from`, if any.
pub open spec fn next_header<Section, F: SectionFinder<Section>>(
    lines: Seq<String>,
    finder: F,
    from: int,
) -> Option<int>
    decreases lines.len() - from,
{
    if !(0 <= from < lines.len()) {
        None
    } else if finder.spec_find(lines[from]@) is Some {
        Some(from)
    } else {
        next_header(lines, finder, from + 1)
    }
}

/// The body lines from `from` on, each preceded by a newline, up to the next
/// header line or the end of the input.
pub open spec fn body_text_pre<Section, F: SectionFinder<Section>>(
    lines: Seq<String>,
    finder: F,
    from: int,
) -> Seq<char>
    decreases lines.len() - from,
{
    if !(0 <= from < lines.len()) || finder.spec_find(lines[from]@) is Some {
        Seq::empty()
    } else {
        seq!['\n'] + lines[from]@ + body_text_pre(lines, finder, from + 1)
    }
}

/// The body lines from `from` on, joined by newlines, up to the next header
/// line or the end of the input.
pub open spec fn body_text<Section, F: SectionFinder<Section>>(
    lines: Seq<String>,
    finder: F,
    from: int,
) -> Seq<char> {
    if !(0 <= from < lines.len()) || finder.spec_find(lines[from]@) is Some {
        Seq::empty()
    } else {
        lines[from]@ + body_text_pre(lines, finder, from + 1)
    }
}

/// The iterator returned by [get_sections].
///
/// It yields the body lines found in a section. Once a section is over, call
/// [next_section](Iter::next_section) to move on to the next section.
pub struct Iter<'a, Section, F> {
    /// A header tag consumed from the source but not yet handed out.
    pub found: Option<Section>,
    /// The lines being read.
    pub lines: Vec<String>,
    /// How many lines have been consumed so far.
    pub pos: usize,
    /// The classifier that recognizes header lines.
    pub section_finder: &'a F,
}

/// Reads the provided lines and finds the header lines with the given
/// classifier; the returned iterator hands back each section in turn.
pub fn get_sections<'a, Section, F: SectionFinder<Section>>(
    lines: Vec<String>,
    section_finder: &'a F,
) -> (r: Iter<'a, Section, F>)
    ensures
        r.found is None,
        r.lines == lines,
        r.pos == 0,
        r.section_finder == section_finder,
{
    Iter { found: None, lines, pos: 0, section_finder }
}

impl<'a, Section, F: SectionFinder<Section>> Iter<'a, Section, F> {
    /// Makes the iterator go to the next section and returns its tag, or
    /// `None` when the input holds no further header line.
    pub fn next_section(&mut self) -> (r: Option<Section>)
        requires
            old(self).pos <= old(self).lines@.len(),
        ensures
            final(self).lines == old(self).lines,
            final(self).section_finder == old(self).section_finder,
            final(self).found is None,
            match old(self).found {
                Some(tag) => r == Some(tag) && final(self).pos == old(self).pos,
                None => match next_header(
                    old(self).lines@,
                    *old(self).section_finder,
                    old(self).pos as int,
                ) {
                    Some(j) => r == old(self).section_finder.spec_find(old(self).lines@[j]@) && r
                        is Some && final(self).pos == j + 1,
                    None => r is None && final(self).pos == old(self).lines@.len(),
                },
            },
    {
        match self.found.take() {
            Some(tag) => Some(tag),
            None => self.find_section(),
        }
    }

    /// Scans forward to the next header line.
    fn find_section(&mut self) -> (r: Option<Section>)
        requires
            old(self).found is None,
            old(self).pos <= old(self).lines@.len(),
        ensures
            final(self).lines == old(self).lines,
            final(self).section_finder == old(self).section_finder,
            final(self).found is None,
            match next_header(old(self).lines@, *old(self).section_finder, old(self).pos as int) {
                Some(j) => r == old(self).section_finder.spec_find(old(self).lines@[j]@) && r
                    is Some && final(self).pos == j + 1,
                None => r is None && final(self).pos == old(self).lines@.len(),
            },
    {
        while self.pos < self.lines.len()
            invariant
                self.found is None,
                self.lines == old(self).lines,
                self.section_finder == old(self).section_finder,
                old(self).pos <= self.pos <= self.lines@.len(),
                next_header(self.lines@, *self.section_finder, old(self).pos as int)
                    == next_header(self.lines@, *self.section_finder, self.pos as int),
            decreases self.lines@.len() - self.pos,
        {
            let line = &self.lines[self.pos];
            let c = self.section_finder.find(line.as_str());
            self.pos = self.pos + 1;
            match c {
                Some(tag) => {
                    return Some(tag);
                },
                None => {},
            }
        }
        None
    }

    /// Yields the next body line of the current section, or `None` when the
    /// section is over.
    ///
    /// When the scanner meets a header line it does not yield it: the tag is
    /// kept for the next call of [next_section](Iter::next_section).
    pub fn next(&mut self) -> (r: Option<String>)
        ensures
            final(self).lines == old(self).lines,
            final(self).section_finder == old(self).section_finder,
            old(self).found is Some ==> r is None && *final(self) == *old(self),
            old(self).found is None && old(self).pos >= old(self).lines@.len() ==> r is None
                && *final(self) == *old(self),
            old(self).found is None && old(self).pos < old(self).lines@.len() ==> {
                &&& final(self).pos == old(self).pos + 1
                &&& match old(self).section_finder.spec_find(
                    old(self).lines@[old(self).pos as int]@,
                ) {
                    Some(tag) => r is None && final(self).found == Some(tag),
                    None => r == Some(old(self).lines@[old(self).pos as int]) && final(self).found
                        is None,
                }
            },
    {
        if self.found.is_some() {
            return None;
        }
        if self.pos >= self.lines.len() {
            return None;
        }
        let line = &self.lines[self.pos];
        let c = self.section_finder.find(line.as_str());
        match c {
            Some(tag) => {
                self.found = Some(tag);
                self.pos = self.pos + 1;
                None
            },
            None => {
                let out = self.lines[self.pos].clone();
                self.pos = self.pos + 1;
                Some(out)
            },
        }
    }

    /// Returns the remaining body text of the current section, with lines
    /// separated by `\n` and no trailing newline.
    ///
    /// Afterwards the scanner stands where draining the section by hand with
    /// [next](Iter::next) would leave it.
    pub fn text(&mut self) -> (r: String)
        requires
            old(self).pos <= old(self).lines@.len(),
        ensures
            final(self).lines == old(self).lines,
            final(self).section_finder == old(self).section_finder,
            old(self).found is Some ==> r@ == Seq::<char>::empty() && *final(self) == *old(self),
            old(self).found is None ==> r@ == body_text(
                old(self).lines@,
                *old(self).section_finder,
                old(self).pos as int,
            ) && match next_header(
                old(self).lines@,
                *old(self).section_finder,
                old(self).pos as int,
            ) {
                Some(j) => final(self).pos == j + 1 && final(self).found == old(
                    self,
                ).section_finder.spec_find(old(self).lines@[j]@),
                None => final(self).pos == old(self).lines@.len() && final(self).found is None,
            },
    {
        proof {
            reveal_strlit("\n");
        }
        let mut res = String::new();
        if self.found.is_some() {
            return res;
        }
        let mut first = true;
        let ghost pos0 = self.pos as int;
        loop
            invariant
                old(self).found is None,
                self.found is None,
                self.lines == old(self).lines,
                self.section_finder == old(self).section_finder,
                pos0 == old(self).pos,
                pos0 <= self.pos <= self.lines@.len(),
                first ==> self.pos == pos0 && res@ =~= Seq::<char>::empty(),
                !first ==> body_text(self.lines@, *self.section_finder, pos0) =~= res@
                    + body_text_pre(self.lines@, *self.section_finder, self.pos as int),
                next_header(self.lines@, *self.section_finder, pos0) == next_header(
                    self.lines@,
                    *self.section_finder,
                    self.pos as int,
                ),
            decreases self.lines@.len() - self.pos,
        {
            let ghost pre = *self;
            match self.next() {
                None => {
                    return res;
                },
                Some(line) => {
                    proof {
                        reveal_strlit("\n");
                        assert("\n"@ =~= seq!['\n']);
                    }
                    if !first {
                        res.append("\n");
                    }
                    res.append(line.as_str());
                    proof {
                        assert(line@ == pre.lines@[pre.pos as int]@);
                        assert(body_text_pre(self.lines@, *self.section_finder, pre.pos as int)
                            =~= seq!['\n'] + line@ + body_text_pre(
                            self.lines@,
                            *self.section_finder,
                            pre.pos as int + 1,
                        ));
                    }
                    first = false;
                },
            }
        }
    }
}

/// Classifies a line as a section header when its text equals one of a fixed
/// list of keywords, and maps it to the tag paired with that keyword.
pub struct KeywordFinder<Section> {
    /// The header lines to recognize.
    pub keys: Vec<String>,
    /// The tag returned for each keyword, by position.
    pub tags: Vec<Section>,
}

/// The tag paired with the first keyword equal to `line`, if any.
pub open spec fn keyword_match<Section>(
    keys: Seq<String>,
    tags: Seq<Section>,
    line: Seq<char>,
) -> Option<Section>
    decreases keys.len(),
{
    if keys.len() == 0 || tags.len() == 0 {
        None
    } else if keys[0]@ == line {
        Some(tags[0])
    } else {
        keyword_match(keys.skip(1), tags.skip(1), line)
    }
}

impl<Section: Copy> KeywordFinder<Section> {
    /// Creates a finder that recognizes each of `keys` as a header and maps
    /// it to the tag of `tags` at the same position.
    pub fn new(keys: Vec<String>, tags: Vec<Section>) -> (r: Self)
        ensures
            r.keys == keys,
            r.tags == tags,
    {
        Self { keys, tags }
    }
}

impl<Section: Copy> SectionFinder<Section> for KeywordFinder<Section> {
    open spec fn spec_find(&self, line: Seq<char>) -> Option<Section> {
        keyword_match(self.keys@, self.tags@, line)
    }

    fn find(&self, line: &str) -> (r: Option<Section>) {
        let owned = line.to_owned();
        let mut i: usize = 0;
        proof {
            assert(self.keys@.skip(0) =~= self.keys@);
            assert(self.tags@.skip(0) =~= self.tags@);
        }
        while i < self.keys.len() && i < self.tags.len()
            invariant
                i <= self.keys@.len(),
                i <= self.tags@.len(),
                owned@ == line@,
                keyword_match(self.keys@, self.tags@, line@) == keyword_match(
                    self.keys@.skip(i as int),
                    self.tags@.skip(i as int),
                    line@,
                ),
            decreases self.keys@.len() - i,
        {
            proof {
                assert(self.keys@.skip(i as int)[0] == self.keys@[i as int]);
                assert(self.keys@.skip(i as int).skip(1) =~= self.keys@.skip(i as int + 1));
                assert(self.tags@.skip(i as int).skip(1) =~= self.tags@.skip(i as int + 1));
            }
            if self.keys[i] == owned {
                return Some(self.tags[i]);
            }
            i = i + 1;
        }
        proof {
            assert(keyword_match(self.keys@.skip(i as int), self.tags@.skip(i as int), line@)
                is None);
        }
        None
    }
}

} // verus!
