//! A small interning table for symbol strings: every distinct string is
//! stored once, and an index names it by its own text.
use vstd::prelude::*;

use crate::text::string_eq;

verus! {

/// An index into the string table; it carries the interned text itself.
#[derive(Debug, Clone)]
pub struct StringTableIndex(pub String);

impl StringTableIndex {
    /// The index every unknown name maps to.
    pub fn unknown() -> (r: StringTableIndex)
        ensures
            r.0@ == "UNKNOWN"@,
    {
        StringTableIndex("UNKNOWN".to_owned())
    }
}

/// Whether some string of the sequence has the given characters.
pub open spec fn has_string(sq: Seq<String>, x: Seq<char>) -> bool {
    exists|i: int| 0 <= i < sq.len() && (#[trigger] sq[i])@ == x
}

/// The interning table: a list of distinct strings.
#[derive(Debug)]
pub struct StringTable {
    strings: Vec<String>,
}

impl StringTable {
    /// The interned strings, in insertion order.
    pub closed spec fn view(&self) -> Seq<String> {
        self.strings@
    }

    /// No two interned strings read the same.
    pub closed spec fn wf(&self) -> bool {
        forall|i: int, j: int|
            0 <= i < j < self.strings@.len() ==> (#[trigger] self.strings@[i])@ != (
            #[trigger] self.strings@[j])@
    }

    /// A fresh table holding only the unknown-name sentinel.
    pub fn new() -> (r: Self)
        ensures
            r.wf(),
            r.view().len() == 1,
            r.view()[0]@ == "UNKNOWN"@,
    {
        let mut result = StringTable { strings: Vec::new() };
        result.intern_string("UNKNOWN");
        result
    }

    /// Interns a string: stores it if it is new, and returns its index.
    pub fn intern_string(&mut self, string: &str) -> (r: StringTableIndex)
        requires
            old(self).wf(),
        ensures
            final(self).wf(),
            r.0@ == string@,
            has_string(final(self).view(), string@),
            has_string(old(self).view(), string@) ==> final(self).view() == old(self).view(),
            !has_string(old(self).view(), string@) ==> (final(self).view().len() == old(
                self,
            ).view().len() + 1 && final(self).view().subrange(0, old(self).view().len() as int)
                == old(self).view() && final(self).view().last()@ == string@),
    {
        let owned = string.to_owned();
        let mut i: usize = 0;
        while i < self.strings.len()
            invariant
                i <= self.strings@.len(),
                self == old(self),
                self.wf(),
                owned@ == string@,
                forall|j: int| 0 <= j < i ==> (#[trigger] self.strings@[j])@ != string@,
            decreases self.strings@.len() - i,
        {
            if string_eq(&self.strings[i], &owned) {
                proof {
                    assert((self.strings@[i as int])@ == string@);
                }
                return StringTableIndex(owned);
            }
            i = i + 1;
        }
        let ghost before = self.strings@;
        self.strings.push(owned);
        proof {
            assert((self.strings@[before.len() as int])@ == string@);
            assert(self.strings@.subrange(0, before.len() as int) =~= before);
        }
        StringTableIndex(string.to_owned())
    }
}

} // verus!
