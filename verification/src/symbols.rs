//! The run-wide symbol table: one entry per native entry point, with a
//! flag routing the symbol through the capability interface of its
//! hierarchy rather than an inherent method.

use vstd::prelude::*;

verus! {

/// One native entry point.
#[derive(Clone, Debug)]
pub struct Symbol {
    pub c_name: String,
    /// Set when the symbol belongs to a capability interface.
    pub trait_method: bool,
}

/// The symbol table, addressed by native name.
#[derive(Debug)]
pub struct Symbols {
    entries: Vec<Symbol>,
}

impl View for Symbols {
    type V = Seq<(Seq<char>, bool)>;

    closed spec fn view(&self) -> Seq<(Seq<char>, bool)> {
        Seq::new(
            self.entries@.len(),
            |i: int| (self.entries@[i].c_name@, self.entries@[i].trait_method),
        )
    }
}

impl Symbols {
    /// An empty table.
    pub fn new() -> (r: Symbols)
        ensures
            r@ == Seq::<(Seq<char>, bool)>::empty(),
    {
        let r = Symbols { entries: Vec::new() };
        proof {
            assert(r@ =~= Seq::<(Seq<char>, bool)>::empty());
        }
        r
    }

    /// Register a native entry point, initially routed as an inherent
    /// method.
    pub fn add(&mut self, c_name: &str)
        ensures
            final(self)@ == old(self)@.push((c_name@, false)),
    {
        self.entries.push(Symbol { c_name: c_name.to_owned(), trait_method: false });
        proof {
            assert(final(self)@ =~= old(self)@.push((c_name@, false)));
        }
    }

    /// Whether a symbol is routed through a capability interface.
    pub fn is_trait_method(&self, c_name: &str) -> (r: bool)
        ensures
            r == (exists|j: int|
                0 <= j < self@.len() && self@[j].0 == c_name@ && self@[j].1),
    {
        let name_s: String = c_name.to_owned();
        let mut k: usize = 0;
        while k < self.entries.len()
            invariant
                k <= self.entries@.len(),
                name_s@ == c_name@,
                self@.len() == self.entries@.len(),
                forall|j: int|
                    0 <= j < self.entries@.len() ==> #[trigger] self@[j] == (
                    self.entries@[j].c_name@,
                    self.entries@[j].trait_method,
                ),
                forall|j: int| 0 <= j < k ==> !(self@[j].0 == c_name@ && self@[j].1),
            decreases self.entries@.len() - k,
        {
            if self.entries[k].c_name == name_s && self.entries[k].trait_method {
                proof {
                    assert(self@[k as int].0 == c_name@ && self@[k as int].1);
                }
                return true;
            }
            k += 1;
        }
        false
    }

    /// Route every entry with this native name through the capability
    /// interface; everything else is untouched.
    pub fn make_trait_method(&mut self, c_name: &String)
        ensures
            final(self)@.len() == old(self)@.len(),
            forall|j: int|
                0 <= j < old(self)@.len() ==> #[trigger] final(self)@[j] == (
                old(self)@[j].0,
                old(self)@[j].1 || old(self)@[j].0 == c_name@,
            ),
    {
        let ghost orig = self@;
        let mut rest: Vec<Symbol> = Vec::new();
        let mut k: usize = 0;
        while k < self.entries.len()
            invariant
                k <= self.entries@.len(),
                orig == self@,
                orig.len() == self.entries@.len(),
                forall|j: int|
                    0 <= j < self.entries@.len() ==> #[trigger] orig[j] == (
                    self.entries@[j].c_name@,
                    self.entries@[j].trait_method,
                ),
                rest@.len() == k,
                forall|j: int|
                    0 <= j < k ==> (#[trigger] rest@[j].c_name@, rest@[j].trait_method) == (
                    orig[j].0,
                    orig[j].1 || orig[j].0 == c_name@,
                ),
            decreases self.entries@.len() - k,
        {
            let flag = self.entries[k].trait_method || self.entries[k].c_name == *c_name;
            rest.push(Symbol { c_name: self.entries[k].c_name.clone(), trait_method: flag });
            k += 1;
        }
        self.entries = rest;
    }
}

} // verus!
