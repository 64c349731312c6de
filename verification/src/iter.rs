//! The attribute cursor: a single-pass, non-restartable enumerator over
//! one attribute dictionary.  A cursor opened at a location that is not
//! valid for the mesh kind is empty and yields nothing.

use vstd::prelude::*;

use crate::attrib::Attribute;
use crate::error::Error;

verus! {

/// A single-pass cursor over the attributes of one dictionary.
pub struct AttribIter<'a> {
    pub entries: Option<&'a Vec<Attribute>>,
    pub pos: usize,
}

impl<'a> AttribIter<'a> {
    /// The dictionary snapshot the cursor walks (empty for a cursor on
    /// an invalid location).
    pub open spec fn entries_seq(self) -> Seq<Attribute> {
        match self.entries {
            Some(v) => v@,
            None => Seq::empty(),
        }
    }

    /// An empty cursor, as handed out for an invalid location.
    pub fn empty() -> (r: AttribIter<'a>)
        ensures
            r.entries_seq() == Seq::<Attribute>::empty(),
            r.pos == 0,
    {
        AttribIter { entries: None, pos: 0 }
    }

    /// A cursor positioned at the first entry of `entries`.
    pub fn over(entries: &'a Vec<Attribute>) -> (r: AttribIter<'a>)
        ensures
            r.entries_seq() == entries@,
            r.pos == 0,
    {
        AttribIter { entries: Some(entries), pos: 0 }
    }

    /// Whether another attribute remains to be yielded.
    pub fn has_next(&self) -> (r: bool)
        ensures
            r == ((self.pos as int) < self.entries_seq().len()),
    {
        match self.entries {
            Some(v) => self.pos < v.len(),
            None => false,
        }
    }

    /// Yields the attribute at the cursor position and advances, or
    /// reports exhaustion.  An exhausted cursor never yields again.
    pub fn next(&mut self) -> (r: Result<&'a Attribute, Error>)
        ensures
            final(self).entries == old(self).entries,
            match r {
                Ok(a) => (old(self).pos as int) < old(self).entries_seq().len() && *a == old(
                    self,
                ).entries_seq()[old(self).pos as int] && final(self).pos == old(self).pos + 1,
                Err(e) => e == Error::AttribNotFound && (old(self).pos as int) >= old(
                    self,
                ).entries_seq().len() && *final(self) == *old(self),
            },
    {
        match self.entries {
            Some(v) => {
                if self.pos < v.len() {
                    let a = &v[self.pos];
                    self.pos = self.pos + 1;
                    Ok(a)
                } else {
                    Err(Error::AttribNotFound)
                }
            },
            None => Err(Error::AttribNotFound),
        }
    }
}

} // verus!
