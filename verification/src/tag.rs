//! Tags to indicate that an object has some properties or belongs to a
//! certain group.

use vstd::prelude::*;

verus! {

/// A tag.
pub type Tag = String;

/// A tag bank. It stores each known tag once, and is used to produce new
/// tags.
#[derive(Debug)]
pub struct TagBank {
    /// The known tags, each held exactly once.
    pub tags: Vec<Tag>,
}

impl TagBank {
    /// No tag is held twice.
    pub open spec fn wf(self) -> bool {
        forall|i: int, j: int|
            0 <= i < j < self.tags@.len() ==> #[trigger] self.tags@[i]@ != #[trigger] self.tags@[j]@
    }

    /// The bank knows a tag with this text.
    pub open spec fn has_tag(self, t: Seq<char>) -> bool {
        exists|i: int| 0 <= i < self.tags@.len() && #[trigger] self.tags@[i]@ == t
    }

    /// Creates a new empty [TagBank].
    pub fn new() -> (r: Self)
        ensures
            r.tags@ =~= Seq::<Tag>::empty(),
            r.wf(),
    {
        Self { tags: Vec::new() }
    }

    /// Adds a tag to the [TagBank] and returns a reference to the stored
    /// tag, whether it was new or already known.
    pub fn add_tag(&mut self, tag: String) -> (r: &Tag)
        ensures
            r@ == tag@,
            old(self).has_tag(tag@) ==> final(self).tags@ == old(self).tags@,
            !old(self).has_tag(tag@) ==> final(self).tags@ == old(self).tags@.push(tag),
            old(self).wf() ==> final(self).wf(),
    {
        match self.add_tag_checked(tag) {
            Ok(res) => res,
            Err(res) => res,
        }
    }

    /// Same as [add_tag](Self::add_tag) but returns `Ok(tag)` if the tag
    /// was not yet in the [TagBank] and was added now, and `Err(tag)` if it
    /// already was there; in that case the [TagBank] is unchanged.
    pub fn add_tag_checked(&mut self, tag: String) -> (r: Result<&Tag, &Tag>)
        ensures
            match r {
                Ok(t) => t@ == tag@ && !old(self).has_tag(tag@) && final(self).tags@ == old(
                    self,
                ).tags@.push(tag),
                Err(t) => t@ == tag@ && old(self).has_tag(tag@) && final(self).tags@ == old(
                    self,
                ).tags@,
            },
            old(self).wf() ==> final(self).wf(),
    {
        let n = self.tags.len();
        let mut i: usize = 0;
        while i < n
            invariant
                i <= n,
                n == self.tags@.len(),
                *self == *old(self),
                forall|j: int| 0 <= j < i ==> #[trigger] self.tags@[j]@ != tag@,
        decreases n - i,
        {
            if self.tags[i] == tag {
                return Err(&self.tags[i]);
            }
            i = i + 1;
        }
        self.tags.push(tag);
        let last = self.tags.len() - 1;
        Ok(&self.tags[last])
    }
}

} // verus!
