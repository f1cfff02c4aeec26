//! A small unique-key registry from `u32` ids to owned values, the shape both
//! side tables of the parser need: metadata ids to schemas and stack ids to
//! address vectors. Later insertions of the same id win, as the wire format
//! requires of duplicate metadata ids.
use vstd::prelude::*;

verus! {

/// The map denoted by an entry list in which later entries win.
pub open spec fn map_of<V>(entries: Seq<(u32, V)>) -> Map<u32, V>
    decreases entries.len(),
{
    if entries.len() == 0 {
        Map::empty()
    } else {
        map_of(entries.drop_last()).insert(entries.last().0, entries.last().1)
    }
}

/// The last entry with a given key decides that key's value.
proof fn lemma_map_of_last_wins<V>(entries: Seq<(u32, V)>, i: int)
    requires
        0 <= i < entries.len(),
        forall|j: int| i < j < entries.len() ==> (#[trigger] entries[j]).0 != entries[i].0,
    ensures
        map_of(entries).contains_key(entries[i].0),
        map_of(entries)[entries[i].0] == entries[i].1,
    decreases entries.len(),
{
    if i < entries.len() - 1 {
        lemma_map_of_last_wins(entries.drop_last(), i);
    }
}

/// A key under no entry is not in the map.
proof fn lemma_map_of_absent<V>(entries: Seq<(u32, V)>, k: u32)
    requires
        forall|j: int| 0 <= j < entries.len() ==> (#[trigger] entries[j]).0 != k,
    ensures
        !map_of(entries).contains_key(k),
    decreases entries.len(),
{
    if entries.len() > 0 {
        lemma_map_of_absent(entries.drop_last(), k);
    }
}


/// The entries with key `k` taken out.
pub open spec fn without_key<V>(entries: Seq<(u32, V)>, k: u32) -> Seq<(u32, V)>
    decreases entries.len(),
{
    if entries.len() == 0 {
        Seq::empty()
    } else if entries.last().0 == k {
        without_key(entries.drop_last(), k)
    } else {
        without_key(entries.drop_last(), k).push(entries.last())
    }
}

/// The value the last entry with key `k` carries.
pub open spec fn last_value<V>(entries: Seq<(u32, V)>, k: u32) -> Option<V>
    decreases entries.len(),
{
    if entries.len() == 0 {
        None
    } else if entries.last().0 == k {
        Some(entries.last().1)
    } else {
        last_value(entries.drop_last(), k)
    }
}

proof fn lemma_without_key_map<V>(entries: Seq<(u32, V)>, k: u32)
    ensures
        map_of(without_key(entries, k)) == map_of(entries).remove(k),
    decreases entries.len(),
{
    if entries.len() > 0 {
        lemma_without_key_map(entries.drop_last(), k);
        if entries.last().0 == k {
            assert(without_key(entries, k) == without_key(entries.drop_last(), k));
            assert(map_of(entries).remove(k) =~= map_of(entries.drop_last()).remove(k));
        } else {
            let w = without_key(entries.drop_last(), k).push(entries.last());
            assert(without_key(entries, k) == w);
            assert(w.drop_last() == without_key(entries.drop_last(), k));
            assert(w.last() == entries.last());
            assert(map_of(w) == map_of(without_key(entries.drop_last(), k)).insert(
                entries.last().0,
                entries.last().1,
            ));
            assert(map_of(entries).remove(k) =~= map_of(entries.drop_last()).remove(k).insert(
                entries.last().0,
                entries.last().1,
            ));
        }
    } else {
        assert(map_of(without_key(entries, k)) =~= map_of(entries).remove(k));
    }
}

proof fn lemma_last_value_map<V>(entries: Seq<(u32, V)>, k: u32)
    ensures
        map_of(entries).contains_key(k) ==> last_value(entries, k) == Some(map_of(entries)[k]),
        !map_of(entries).contains_key(k) ==> last_value(entries, k) is None,
    decreases entries.len(),
{
    if entries.len() > 0 {
        lemma_last_value_map(entries.drop_last(), k);
    }
}


fn remove_entries<V>(entries: Vec<(u32, V)>, k: u32) -> (r: (Vec<(u32, V)>, Option<V>))
    ensures
        r.0@ == without_key(entries@, k),
        r.1 == last_value(entries@, k),
    decreases entries@.len(),
{
    let mut entries = entries;
    let ghost before = entries@;
    match entries.pop() {
        None => (entries, None),
        Some(last) => {
            proof {
                assert(entries@ == before.drop_last());
                assert(last == before.last());
            }
            if last.0 == k {
                let (kept, _) = remove_entries(entries, k);
                (kept, Some(last.1))
            } else {
                let (kept, found) = remove_entries(entries, k);
                let mut kept = kept;
                kept.push(last);
                (kept, found)
            }
        },
    }
}

/// No two entries carry the same id.
pub open spec fn distinct_keys<V>(entries: Seq<(u32, V)>) -> bool {
    forall|i: int, j: int|
        0 <= i < j < entries.len() ==> (#[trigger] entries[i]).0 != (#[trigger] entries[j]).0
}

/// Taking one id's entries out keeps the rest distinct and leaves none of
/// that id behind.
proof fn lemma_without_key_distinct<V>(entries: Seq<(u32, V)>, k: u32)
    requires
        distinct_keys(entries),
    ensures
        distinct_keys(without_key(entries, k)),
        forall|j: int|
            0 <= j < without_key(entries, k).len() ==> (#[trigger] without_key(entries, k)[j]).0
                != k,
    decreases entries.len(),
{
    if entries.len() > 0 {
        assert(distinct_keys(entries.drop_last())) by {
            assert(forall|i: int, j: int|
                0 <= i < j < entries.drop_last().len() ==> (#[trigger] entries.drop_last()[i]).0
                    != (#[trigger] entries.drop_last()[j]).0);
        }
        lemma_without_key_distinct(entries.drop_last(), k);
        if entries.last().0 != k {
            let w = without_key(entries, k);
            let wd = without_key(entries.drop_last(), k);
            assert(w == wd.push(entries.last()));
            assert forall|i: int, j: int| 0 <= i < j < w.len() implies (#[trigger] w[i]).0 != (
            #[trigger] w[j]).0 by {
                if j == w.len() - 1 {
                    lemma_without_key_member(entries.drop_last(), k, i);
                }
            }
        }
    }
}

/// Every entry that survives the removal stood in the original list.
proof fn lemma_without_key_member<V>(entries: Seq<(u32, V)>, k: u32, i: int)
    requires
        distinct_keys(entries),
        0 <= i < without_key(entries, k).len(),
    ensures
        exists|i0: int|
            0 <= i0 < entries.len() && entries[i0] == (#[trigger] without_key(entries, k))[i],
    decreases entries.len(),
{
    if entries.len() > 0 {
        let w = without_key(entries, k);
        let wd = without_key(entries.drop_last(), k);
        assert(distinct_keys(entries.drop_last())) by {
            assert(forall|i2: int, j2: int|
                0 <= i2 < j2 < entries.drop_last().len() ==> (#[trigger] entries.drop_last()[
                i2]).0 != (#[trigger] entries.drop_last()[j2]).0);
        }
        if entries.last().0 == k {
            lemma_without_key_member(entries.drop_last(), k, i);
            let i0 = choose|i0: int|
                0 <= i0 < entries.drop_last().len() && entries.drop_last()[i0] == wd[i];
            assert(entries[i0] == w[i]);
        } else {
            if i < w.len() - 1 {
                lemma_without_key_member(entries.drop_last(), k, i);
                let i0 = choose|i0: int|
                    0 <= i0 < entries.drop_last().len() && entries.drop_last()[i0] == wd[i];
                assert(entries[i0] == w[i]);
            } else {
                assert(entries[entries.len() - 1] == w[i]);
            }
        }
    }
}

/// A registry from ids to values; an insert of an existing id replaces it.
pub struct Registry<V> {
    entries: Vec<(u32, V)>,
}

impl<V> Registry<V> {
    pub closed spec fn view(&self) -> Map<u32, V> {
        map_of(self.entries@)
    }

    /// Each id stands in at most one entry.
    pub closed spec fn wf(&self) -> bool {
        distinct_keys(self.entries@)
    }

    pub fn new() -> (r: Self)
        ensures
            r.view() == Map::<u32, V>::empty(),
            r.wf(),
    {
        Registry { entries: Vec::new() }
    }

    pub fn insert(&mut self, k: u32, v: V)
        ensures
            final(self).view() == old(self).view().insert(k, v),
            old(self).wf() ==> final(self).wf(),
    {
        let ghost before = self.entries@;
        let _ = self.remove(k);
        let ghost removed_state = *self;
        let ghost removed = self.entries@;
        self.entries.push((k, v));
        proof {
            assert(self.entries@.drop_last() == removed);
            assert(map_of(self.entries@) =~= map_of(before).insert(k, v));
            if distinct_keys(before) {
                assert(distinct_keys(removed));
                assert forall|i: int, j: int|
                    0 <= i < j < self.entries@.len() implies (#[trigger] self.entries@[i]).0 != (
                #[trigger] self.entries@[j]).0 by {
                    if j == self.entries@.len() - 1 {
                        assert(self.entries@[i] == removed[i]);
                        assert(removed_state.entry_seq()[i].0 != k);
                        assert(removed[i].0 != k);
                    } else {
                        assert(self.entries@[i] == removed[i]);
                        assert(self.entries@[j] == removed[j]);
                    }
                }
            }
        }
    }

    pub fn get(&self, k: u32) -> (r: Option<&V>)
        ensures
            r matches Some(v) ==> self.view().contains_key(k) && *v == self.view()[k],
            r is None ==> !self.view().contains_key(k),
    {
        let mut i = self.entries.len();
        while i > 0
            invariant
                i <= self.entries@.len(),
                forall|j: int|
                    i <= j < self.entries@.len() ==> (#[trigger] self.entries@[j]).0 != k,
            decreases i,
        {
            i = i - 1;
            if self.entries[i].0 == k {
                proof {
                    lemma_map_of_last_wins(self.entries@, i as int);
                }
                return Some(&self.entries[i].1);
            }
        }
        proof {
            lemma_map_of_absent(self.entries@, k);
        }
        None
    }


    /// Removes an id, returning the value it had.
    pub fn remove(&mut self, k: u32) -> (r: Option<V>)
        ensures
            final(self).view() == old(self).view().remove(k),
            old(self).view().contains_key(k) ==> (r matches Some(v) && v == old(self).view()[k]),
            !old(self).view().contains_key(k) ==> r is None,
            old(self).wf() ==> final(self).wf(),
            old(self).wf() ==> (forall|j: int|
                #![all_triggers]
                0 <= j < final(self).entry_seq().len() ==> final(self).entry_seq()[j].0 != k),
    {
        let ghost full = self.entries@;
        let mut src: Vec<(u32, V)> = Vec::new();
        core::mem::swap(&mut self.entries, &mut src);
        let (kept, found) = remove_entries(src, k);
        self.entries = kept;
        proof {
            lemma_without_key_map(full, k);
            lemma_last_value_map(full, k);
            if distinct_keys(full) {
                lemma_without_key_distinct(full, k);
            }
        }
        found
    }

    /// The raw entry list, for contracts about its shape.
    pub closed spec fn entry_seq(&self) -> Seq<(u32, V)> {
        self.entries@
    }

    /// Hands every entry out and leaves the registry empty; with the usual
    /// remove-before-insert discipline each id appears once.
    pub fn drain_entries(&mut self) -> (r: Vec<(u32, V)>)
        ensures
            map_of(r@) == old(self).view(),
            final(self).view() == Map::<u32, V>::empty(),
            final(self).wf(),
            old(self).wf() ==> (forall|i: int, j: int|
                0 <= i < j < r@.len() ==> (#[trigger] r@[i]).0 != (#[trigger] r@[j]).0),
    {
        let mut r: Vec<(u32, V)> = Vec::new();
        core::mem::swap(&mut self.entries, &mut r);
        r
    }

    /// Whether the id is present, without borrowing the value.
    pub fn contains(&self, k: u32) -> (r: bool)
        ensures
            r == self.view().contains_key(k),
    {
        match self.get(k) {
            Some(_) => true,
            None => false,
        }
    }
}

} // verus!
