//! Bookkeeping of the `use` statements a generated file needs. Entries
//! are kept unique by path, in first-insertion order, each with the
//! version gate of the first insertion.

use vstd::prelude::*;

use crate::version::Version;

verus! {

/// A tracked set of import paths with optional version gates.
#[derive(Debug)]
pub struct Imports {
    entries: Vec<(String, Option<Version>)>,
}

/// Whether a tracked list already holds a path.
pub open spec fn spec_contains_name(
    v: Seq<(Seq<char>, Option<Version>)>,
    name: Seq<char>,
) -> bool {
    exists|i: int| 0 <= i < v.len() && v[i].0 == name
}

/// The list after one insertion: appended unless already present.
pub open spec fn spec_add(
    v: Seq<(Seq<char>, Option<Version>)>,
    name: Seq<char>,
    version: Option<Version>,
) -> Seq<(Seq<char>, Option<Version>)> {
    if spec_contains_name(v, name) {
        v
    } else {
        v.push((name, version))
    }
}

/// The list after one removal: every entry with the path is gone, the
/// order of the rest is kept.
pub open spec fn spec_remove(
    v: Seq<(Seq<char>, Option<Version>)>,
    name: Seq<char>,
) -> Seq<(Seq<char>, Option<Version>)>
    decreases v.len(),
{
    if v.len() == 0 {
        Seq::empty()
    } else {
        let prefix = spec_remove(v.drop_last(), name);
        if v.last().0 == name {
            prefix
        } else {
            prefix.push(v.last())
        }
    }
}

impl View for Imports {
    type V = Seq<(Seq<char>, Option<Version>)>;

    closed spec fn view(&self) -> Seq<(Seq<char>, Option<Version>)> {
        Seq::new(self.entries@.len(), |i: int| (self.entries@[i].0@, self.entries@[i].1))
    }
}

impl Imports {
    /// An empty tracker.
    pub fn new() -> (r: Imports)
        ensures
            r@ == Seq::<(Seq<char>, Option<Version>)>::empty(),
    {
        let r = Imports { entries: Vec::new() };
        proof {
            assert(r@ =~= Seq::<(Seq<char>, Option<Version>)>::empty());
        }
        r
    }

    fn contains_name(&self, name: &str) -> (r: bool)
        ensures
            r == spec_contains_name(self@, name@),
    {
        let mut k: usize = 0;
        while k < self.entries.len()
            invariant
                k <= self.entries@.len(),
                forall|j: int| 0 <= j < k ==> self@[j].0 != name@,
                self@.len() == self.entries@.len(),
                forall|j: int|
                    0 <= j < self.entries@.len() ==> #[trigger] self@[j] == (
                    self.entries@[j].0@,
                    self.entries@[j].1,
                ),
            decreases self.entries@.len() - k,
        {
            let entry_name: &String = &self.entries[k].0;
            let name_s: String = name.to_owned();
            if *entry_name == name_s {
                proof {
                    assert(self@[k as int].0 == name@);
                }
                return true;
            }
            k += 1;
        }
        false
    }

    /// Track a path; a path already present keeps its first entry.
    pub fn add(&mut self, name: &str, version: Option<Version>) -> (nothing: ())
        ensures
            final(self)@ == spec_add(old(self)@, name@, version),
    {
        if !self.contains_name(name) {
            self.entries.push((name.to_owned(), version));
            proof {
                assert(final(self)@ =~= old(self)@.push((name@, version)));
            }
        }
    }

    /// Track the path of a concrete type used by a bound; the same
    /// insertion rule applies.
    pub fn add_used_type(&mut self, used_type: &str, version: Option<Version>) -> (nothing: ())
        ensures
            final(self)@ == spec_add(old(self)@, used_type@, version),
    {
        self.add(used_type, version)
    }

    /// Drop every entry with this path.
    pub fn remove(&mut self, name: &str) -> (nothing: ())
        ensures
            final(self)@ == spec_remove(old(self)@, name@),
    {
        let ghost all = old(self)@;
        let mut kept: Vec<(String, Option<Version>)> = Vec::new();
        let ghost kept_view = Seq::<(Seq<char>, Option<Version>)>::empty();
        let mut k: usize = 0;
        proof {
            assert(all.take(0) =~= Seq::<(Seq<char>, Option<Version>)>::empty());
            assert(spec_remove(all.take(0), name@) =~= Seq::<(
                Seq<char>,
                Option<Version>,
            )>::empty());
        }
        while k < self.entries.len()
            invariant
                k <= self.entries@.len(),
                all == old(self)@,
                *self == *old(self),
                all.len() == self.entries@.len(),
                forall|j: int|
                    0 <= j < self.entries@.len() ==> #[trigger] all[j] == (
                    self.entries@[j].0@,
                    self.entries@[j].1,
                ),
                Seq::new(kept@.len(), |i: int| (kept@[i].0@, kept@[i].1)) == spec_remove(
                    all.take(k as int),
                    name@,
                ),
            decreases self.entries@.len() - k,
        {
            proof {
                assert(all.take(k + 1).drop_last() =~= all.take(k as int));
                assert(all.take(k + 1).last() == all[k as int]);
            }
            let name_s: String = name.to_owned();
            if !(self.entries[k].0 == name_s) {
                let kept_entry = (self.entries[k].0.clone(), self.entries[k].1);
                kept.push(kept_entry);
                proof {
                    assert(Seq::new(kept@.len(), |i: int| (kept@[i].0@, kept@[i].1))
                        =~= spec_remove(all.take(k as int), name@).push(all[k as int]));
                }
            } else {
                proof {
                    assert(all[k as int].0 == name@);
                }
            }
            k += 1;
        }
        proof {
            assert(all.take(all.len() as int) =~= all);
        }
        self.entries = kept;
    }

    /// The tracked entries, in insertion order.
    pub fn entries(&self) -> (r: &Vec<(String, Option<Version>)>)
        ensures
            r@.len() == self@.len(),
            forall|j: int|
                0 <= j < r@.len() ==> #[trigger] self@[j] == (r@[j].0@, r@[j].1),
    {
        &self.entries
    }
}

} // verus!
