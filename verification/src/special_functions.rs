//! Special functions recognized by naming convention (copy, equality,
//! reference counting, …): they are extracted into a separate record
//! and hidden from the ordinary function list, except where unhiding
//! keeps one callable under its idiomatic name.

use vstd::prelude::*;

use crate::functions::Info;

verus! {

/// The conventions a special function may follow.
#[derive(Clone, Copy, Debug, PartialEq, Eq, Structural)]
pub enum SpecialType {
    Compare,
    Copy,
    Equal,
    Free,
    Ref,
    ToString,
    Unref,
}

/// The convention a function name follows, if any.
pub open spec fn spec_special_from_name(name: Seq<char>) -> Option<SpecialType> {
    if name == "compare"@ {
        Some(SpecialType::Compare)
    } else if name == "copy"@ {
        Some(SpecialType::Copy)
    } else if name == "equal"@ {
        Some(SpecialType::Equal)
    } else if name == "free"@ {
        Some(SpecialType::Free)
    } else if name == "destroy"@ {
        Some(SpecialType::Free)
    } else if name == "ref"@ {
        Some(SpecialType::Ref)
    } else if name == "to_string"@ {
        Some(SpecialType::ToString)
    } else if name == "unref"@ {
        Some(SpecialType::Unref)
    } else {
        None
    }
}

fn special_from_name(name: &String) -> (r: Option<SpecialType>)
    ensures
        r == spec_special_from_name(name@),
{
    if *name == "compare".to_owned() {
        Some(SpecialType::Compare)
    } else if *name == "copy".to_owned() {
        Some(SpecialType::Copy)
    } else if *name == "equal".to_owned() {
        Some(SpecialType::Equal)
    } else if *name == "free".to_owned() {
        Some(SpecialType::Free)
    } else if *name == "destroy".to_owned() {
        Some(SpecialType::Free)
    } else if *name == "ref".to_owned() {
        Some(SpecialType::Ref)
    } else if *name == "to_string".to_owned() {
        Some(SpecialType::ToString)
    } else if *name == "unref".to_owned() {
        Some(SpecialType::Unref)
    } else {
        None
    }
}

/// Whether a recorded list already holds a convention.
pub open spec fn spec_contains_special(
    v: Seq<(SpecialType, Seq<char>)>,
    t: SpecialType,
) -> bool {
    exists|i: int| 0 <= i < v.len() && v[i].0 == t
}

/// The native symbol recorded for a convention: the first entry wins.
pub open spec fn spec_special_symbol(
    v: Seq<(SpecialType, Seq<char>)>,
    t: SpecialType,
) -> Option<Seq<char>>
    decreases v.len(),
{
    if v.len() == 0 {
        None
    } else if v[0].0 == t {
        Some(v[0].1)
    } else {
        spec_special_symbol(v.drop_first(), t)
    }
}

/// The record an extraction pass builds: for each convention met, the
/// native symbol of the first function following it.
pub open spec fn spec_specials_of(infos: Seq<Info>) -> Seq<(SpecialType, Seq<char>)>
    decreases infos.len(),
{
    if infos.len() == 0 {
        Seq::empty()
    } else {
        let prefix = spec_specials_of(infos.drop_last());
        match spec_special_from_name(infos.last().name@) {
            Some(t) => if spec_contains_special(prefix, t) {
                prefix
            } else {
                prefix.push((t, infos.last().glib_name@))
            },
            None => prefix,
        }
    }
}

/// The record of the special functions of one type.
#[derive(Debug)]
pub struct Specials {
    entries: Vec<(SpecialType, String)>,
}

impl View for Specials {
    type V = Seq<(SpecialType, Seq<char>)>;

    closed spec fn view(&self) -> Seq<(SpecialType, Seq<char>)> {
        Seq::new(self.entries@.len(), |i: int| (self.entries@[i].0, self.entries@[i].1@))
    }
}

impl Specials {
    /// An empty record.
    pub fn new() -> (r: Specials)
        ensures
            r@ == Seq::<(SpecialType, Seq<char>)>::empty(),
    {
        let r = Specials { entries: Vec::new() };
        proof {
            assert(r@ =~= Seq::<(SpecialType, Seq<char>)>::empty());
        }
        r
    }

    /// The native symbol recorded for a convention.
    pub fn get(&self, t: SpecialType) -> (r: Option<&String>)
        ensures
            match spec_special_symbol(self@, t) {
                Some(sym) => r is Some && r.unwrap()@ == sym,
                None => r is None,
            },
    {
        let ghost all = self@;
        proof {
            assert(all.skip(0) =~= all);
        }
        let mut k: usize = 0;
        while k < self.entries.len()
            invariant
                k <= self.entries@.len(),
                all == self@,
                all.len() == self.entries@.len(),
                forall|j: int|
                    0 <= j < self.entries@.len() ==> #[trigger] all[j] == (
                    self.entries@[j].0,
                    self.entries@[j].1@,
                ),
                spec_special_symbol(all, t) == spec_special_symbol(all.skip(k as int), t),
            decreases self.entries@.len() - k,
        {
            proof {
                assert(all.skip(k as int)[0] == all[k as int]);
            }
            if self.entries[k].0 == t {
                return Some(&self.entries[k].1);
            }
            proof {
                assert(all.skip(k as int).drop_first() =~= all.skip(k + 1));
            }
            k += 1;
        }
        None
    }

    fn contains(&self, t: SpecialType) -> (r: bool)
        ensures
            r == spec_contains_special(self@, t),
    {
        let mut k: usize = 0;
        while k < self.entries.len()
            invariant
                k <= self.entries@.len(),
                self@.len() == self.entries@.len(),
                forall|j: int|
                    0 <= j < self.entries@.len() ==> #[trigger] self@[j] == (
                    self.entries@[j].0,
                    self.entries@[j].1@,
                ),
                forall|j: int| 0 <= j < k ==> self@[j].0 != t,
            decreases self.entries@.len() - k,
        {
            if self.entries[k].0 == t {
                proof {
                    assert(self@[k as int].0 == t);
                }
                return true;
            }
            k += 1;
        }
        false
    }
}

/// Two analysis records that agree on everything but visibility.
pub open spec fn spec_eq_mod_visible(a: Info, b: Info) -> bool {
    &&& a.name == b.name
    &&& a.glib_name == b.glib_name
    &&& a.kind == b.kind
    &&& a.parameters == b.parameters
    &&& a.ret == b.ret
    &&& a.throws == b.throws
    &&& a.version == b.version
    &&& a.bounds == b.bounds
    &&& a.outs == b.outs
    &&& a.unsupported_outs == b.unsupported_outs
    &&& a.assertion == b.assertion
    &&& a.bound_error == b.bound_error
}

/// The extraction record depends only on names and native symbols, so
/// two lists agreeing on those agree on it.
pub proof fn lemma_specials_congruent(a: Seq<Info>, b: Seq<Info>)
    requires
        a.len() == b.len(),
        forall|i: int|
            0 <= i < a.len() ==> (#[trigger] a[i]).name == b[i].name && a[i].glib_name
                == b[i].glib_name,
    ensures
        spec_specials_of(a) == spec_specials_of(b),
    decreases a.len(),
{
    if a.len() > 0 {
        lemma_specials_congruent(a.drop_last(), b.drop_last());
    }
}

/// The analysis relation never reads visibility, so it survives a
/// visibility change.
pub proof fn lemma_analyzed_mod_visible(
    env: &crate::env::Env,
    func: crate::library::Function,
    cfgs: Seq<crate::config::FunctionConfig>,
    a: Info,
    b: Info,
)
    requires
        crate::functions::spec_analyzed(env, func, cfgs, a),
        spec_eq_mod_visible(b, a),
    ensures
        crate::functions::spec_analyzed(env, func, cfgs, b),
{
}

/// Extract the special functions: record the first function of each
/// convention and hide every function following one.
pub fn extract(functions: Vec<Info>) -> (r: (Vec<Info>, Specials))
    ensures
        r.0@.len() == functions@.len(),
        forall|i: int|
            0 <= i < functions@.len() ==> spec_eq_mod_visible(
                #[trigger] r.0@[i],
                functions@[i],
            ) && r.0@[i].visible == (functions@[i].visible && spec_special_from_name(
                functions@[i].name@,
            ) is None),
        r.1@ == spec_specials_of(functions@),
{
    let ghost orig = functions@;
    let mut rest = functions;
    let total: usize = rest.len();
    let mut out: Vec<Info> = Vec::new();
    let mut specials = Specials::new();
    proof {
        assert(orig.skip(0) =~= orig);
        assert(orig.take(0) =~= Seq::<Info>::empty());
        assert(specials@ =~= spec_specials_of(orig.take(0)));
    }
    let mut k: usize = 0;
    while rest.len() > 0
        invariant
            k <= orig.len(),
            orig.len() == total,
            rest@ == orig.skip(k as int),
            out@.len() == k,
            forall|i: int|
                0 <= i < k ==> spec_eq_mod_visible(#[trigger] out@[i], orig[i])
                    && out@[i].visible == (orig[i].visible && spec_special_from_name(
                    orig[i].name@,
                ) is None),
            specials@ == spec_specials_of(orig.take(k as int)),
        decreases rest@.len(),
    {
        proof {
            assert(rest@.len() == orig.len() - k);
            assert(k < orig.len());
        }
        let mut info = rest.remove(0);
        proof {
            assert(orig.skip(k as int)[0] == orig[k as int]);
            assert(orig.skip(k as int).drop_first() =~= orig.skip(k + 1));
            assert(rest@ =~= orig.skip(k as int).drop_first());
            assert(orig.take(k + 1).drop_last() =~= orig.take(k as int));
            assert(orig.take(k + 1).last() == orig[k as int]);
        }
        match special_from_name(&info.name) {
            Some(t) => {
                if !specials.contains(t) {
                    specials.entries.push((t, info.glib_name.clone()));
                    proof {
                        assert(specials@ =~= spec_specials_of(orig.take(k as int)).push(
                            (t, orig[k as int].glib_name@),
                        ));
                    }
                }
                info.visible = false;
            },
            None => (),
        }
        out.push(info);
        k += 1;
    }
    proof {
        assert(orig.skip(k as int).len() == 0);
        assert(k == orig.len());
        assert(orig.take(k as int) =~= orig);
    }
    (out, specials)
}

/// Unhide the recorded function of one convention, so that it stays
/// callable under its idiomatic name.
pub fn unhide(functions: Vec<Info>, specials: &Specials, t: SpecialType) -> (r: Vec<Info>)
    ensures
        r@.len() == functions@.len(),
        forall|i: int|
            0 <= i < functions@.len() ==> spec_eq_mod_visible(#[trigger] r@[i], functions@[i])
                && r@[i].visible == (functions@[i].visible || (
            match spec_special_symbol(specials@, t) {
                Some(sym) => functions@[i].glib_name@ == sym,
                None => false,
            })),
{
    let ghost orig = functions@;
    let symbol: Option<String> = match specials.get(t) {
        Some(s) => Some(s.clone()),
        None => None,
    };
    let mut rest = functions;
    let total: usize = rest.len();
    let mut out: Vec<Info> = Vec::new();
    proof {
        assert(orig.skip(0) =~= orig);
    }
    let mut k: usize = 0;
    while rest.len() > 0
        invariant
            k <= orig.len(),
            orig.len() == total,
            rest@ == orig.skip(k as int),
            out@.len() == k,
            match spec_special_symbol(specials@, t) {
                Some(sym) => symbol is Some && symbol.unwrap()@ == sym,
                None => symbol is None,
            },
            forall|i: int|
                0 <= i < k ==> spec_eq_mod_visible(#[trigger] out@[i], orig[i])
                    && out@[i].visible == (orig[i].visible || (
                match spec_special_symbol(specials@, t) {
                    Some(sym) => orig[i].glib_name@ == sym,
                    None => false,
                })),
        decreases rest@.len(),
    {
        proof {
            assert(rest@.len() == orig.len() - k);
            assert(k < orig.len());
        }
        let mut info = rest.remove(0);
        proof {
            assert(orig.skip(k as int)[0] == orig[k as int]);
            assert(orig.skip(k as int).drop_first() =~= orig.skip(k + 1));
            assert(rest@ =~= orig.skip(k as int).drop_first());
        }
        match &symbol {
            Some(sym) => {
                if info.glib_name == *sym {
                    info.visible = true;
                }
            },
            None => (),
        }
        out.push(info);
        k += 1;
    }
    proof {
        assert(orig.skip(k as int).len() == 0);
        assert(k == orig.len());
    }
    out
}

} // verus!
