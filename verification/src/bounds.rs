//! Per-function allocation of generic type-parameter letters and
//! borrow-scope tags. Each function draws from two fixed pools of seven
//! slots each, in declaration order; duplicate parameter names are
//! rejected, tag exhaustion silently drops the one bound, and letter
//! exhaustion is a fatal configuration error naming the native symbol.

use vstd::prelude::*;

use vstd::string::StringExecFns;

use crate::env::Env;
use crate::imports::{spec_add, Imports};
use crate::hierarchy::spec_has_subtype;
use crate::hierarchy::has_subtype;
use crate::library::{Function, Fundamental, Nullable, Parameter, ParameterDirection, Type, TypeId};
use crate::version::Version;
use crate::rust_type::{rust_type_into_string, spec_rust_type};

verus! {

/// The kind of generic constraint a parameter receives.
#[derive(Clone, Copy, Debug, PartialEq, Eq, Structural)]
pub enum BoundType {
    /// Polymorphic supertype bound: the argument may be any registered
    /// subtype.
    IsA,
    /// Reference-conversion bound: the argument is borrowed for the
    /// call.
    AsRef,
    /// Move-conversion bound, carrying the borrow-scope tag drawn for
    /// it.
    Into(char),
}

/// The generic-letter pool, in allocation order.
pub open spec fn spec_letter(i: int) -> char {
    if i == 0 {
        'T'
    } else if i == 1 {
        'U'
    } else if i == 2 {
        'V'
    } else if i == 3 {
        'W'
    } else if i == 4 {
        'X'
    } else if i == 5 {
        'Y'
    } else {
        'Z'
    }
}

/// The borrow-scope-tag pool, in allocation order.
pub open spec fn spec_lifetime(i: int) -> char {
    if i == 0 {
        'a'
    } else if i == 1 {
        'b'
    } else if i == 2 {
        'c'
    } else if i == 3 {
        'd'
    } else if i == 4 {
        'e'
    } else if i == 5 {
        'f'
    } else {
        'g'
    }
}

fn letter_at(i: usize) -> (c: char)
    requires
        i < 7,
    ensures
        c == spec_letter(i as int),
{
    if i == 0 {
        'T'
    } else if i == 1 {
        'U'
    } else if i == 2 {
        'V'
    } else if i == 3 {
        'W'
    } else if i == 4 {
        'X'
    } else if i == 5 {
        'Y'
    } else {
        'Z'
    }
}

fn lifetime_at(i: usize) -> (c: char)
    requires
        i < 7,
    ensures
        c == spec_lifetime(i as int),
{
    if i == 0 {
        'a'
    } else if i == 1 {
        'b'
    } else if i == 2 {
        'c'
    } else if i == 3 {
        'd'
    } else if i == 4 {
        'e'
    } else if i == 5 {
        'f'
    } else {
        'g'
    }
}

/// The allocated bounds of one function: for each bound parameter, its
/// name, its generic letter, its concrete type name and the bound kind.
/// Borrow-scope tags drawn so far are listed separately.
#[derive(Debug)]
pub struct Bounds {
    used: Vec<(String, char, String, BoundType)>,
    lifetimes: Vec<char>,
}

/// The entry an allocation search answers with: the first entry of the
/// list carrying the name.
pub open spec fn spec_alias_info(
    s: Seq<(String, char, String, BoundType)>,
    name: Seq<char>,
) -> Option<(char, BoundType)>
    decreases s.len(),
{
    if s.len() == 0 {
        None
    } else if s[0].0@ == name {
        Some((s[0].1, s[0].3))
    } else {
        spec_alias_info(s.drop_first(), name)
    }
}


/// Relation between the allocator before and after a successful
/// allocation: one entry was appended, carrying the next pool letter.
pub open spec fn spec_added_entry(
    pre: Bounds,
    post: Bounds,
    name: Seq<char>,
    rust_name: Seq<char>,
    resolved: BoundType,
) -> bool {
    &&& post.used_seq().len() == pre.used_seq().len() + 1
    &&& post.used_seq().drop_last() == pre.used_seq()
    &&& post.used_seq().last().0@ == name
    &&& post.used_seq().last().1 == spec_letter(pre.used_seq().len() as int)
    &&& post.used_seq().last().2@ == rust_name
    &&& post.used_seq().last().3 == resolved
}

impl Bounds {
    /// The allocated bounds, in allocation order.
    pub closed spec fn used_seq(&self) -> Seq<(String, char, String, BoundType)> {
        self.used@
    }

    /// The borrow-scope tags drawn so far, in allocation order.
    pub closed spec fn lifetimes_seq(&self) -> Seq<char> {
        self.lifetimes@
    }

    /// Whether a parameter name already holds a bound.
    pub open spec fn spec_is_bound(&self, name: Seq<char>) -> bool {
        exists|i: int|
            0 <= i < self.used_seq().len() && self.used_seq()[i].0@ == name
    }

    /// Both pools have seven slots; letters and tags are handed out in
    /// strict pool order; no parameter name is bound twice.
    pub open spec fn well_formed(&self) -> bool {
        &&& self.used_seq().len() <= 7
        &&& self.lifetimes_seq().len() <= 7
        &&& forall|i: int|
            0 <= i < self.used_seq().len() ==> (#[trigger] self.used_seq()[i]).1
                == spec_letter(i)
        &&& forall|i: int|
            0 <= i < self.lifetimes_seq().len() ==> #[trigger] self.lifetimes_seq()[i]
                == spec_lifetime(i)
        &&& forall|i: int, j: int|
            0 <= i < j < self.used_seq().len() ==> (#[trigger] self.used_seq()[i]).0@
                != (#[trigger] self.used_seq()[j]).0@
    }

    /// Bind a parameter name to a fresh letter, drawing a borrow-scope
    /// tag first for a move-conversion bound. Answers whether the bound
    /// was allocated; a duplicate name or an exhausted pool answers
    /// `false`.
    pub fn add_parameter(&mut self, name: &str, type_str: &str, bound_type: BoundType) -> (added:
        bool)
        requires
            old(self).well_formed(),
        ensures
            final(self).well_formed(),
            ({
                let dup = old(self).spec_is_bound(name@);
                let into = bound_type is Into;
                let tag_avail = old(self).lifetimes_seq().len() < 7;
                let letter_avail = old(self).used_seq().len() < 7;
                let next_tag = spec_lifetime(old(self).lifetimes_seq().len() as int);
                let resolved = if into { BoundType::Into(next_tag) } else { bound_type };
                if dup || (into && !tag_avail) {
                    !added && *final(self) == *old(self)
                } else if !letter_avail {
                    &&& !added
                    &&& final(self).used_seq() == old(self).used_seq()
                    &&& if into {
                        final(self).lifetimes_seq() == old(self).lifetimes_seq().push(next_tag)
                    } else {
                        *final(self) == *old(self)
                    }
                } else {
                    &&& added
                    &&& spec_added_entry(*old(self), *final(self), name@, type_str@, resolved)
                    &&& if into {
                        final(self).lifetimes_seq() == old(self).lifetimes_seq().push(next_tag)
                    } else {
                        final(self).lifetimes_seq() == old(self).lifetimes_seq()
                    }
                }
            }),
    {
        let name_s: String = name.to_owned();
        let mut k: usize = 0;
        while k < self.used.len()
            invariant
                k <= self.used@.len(),
                forall|j: int| 0 <= j < k ==> self.used@[j].0@ != name@,
                name_s@ == name@,
                *self == *old(self),
                old(self).well_formed(),
            decreases self.used@.len() - k,
        {
            if self.used[k].0 == name_s {
                return false;
            }
            k += 1;
        }
        let mut resolved = bound_type;
        let is_into = matches!(bound_type, BoundType::Into(_));
        if is_into {
            if self.lifetimes.len() < 7 {
                let tag = lifetime_at(self.lifetimes.len());
                self.lifetimes.push(tag);
                resolved = BoundType::Into(tag);
            } else {
                return false;
            }
        }
        if self.used.len() < 7 {
            let letter = letter_at(self.used.len());
            let type_s: String = type_str.to_owned();
            self.used.push((name_s, letter, type_s, resolved));
            proof {
                assert(final(self).used_seq().drop_last() =~= old(self).used_seq());
            }
            true
        } else {
            false
        }
    }

    /// The letter and bound kind a name was bound to, if any.
    pub fn get_parameter_alias_info(&self, name: &str) -> (r: Option<(char, BoundType)>)
        ensures
            r == spec_alias_info(self.used_seq(), name@),
    {
        let ghost all = self.used@;
        proof {
            assert(all.skip(0) =~= all);
        }
        let name_s: String = name.to_owned();
        let mut k: usize = 0;
        while k < self.used.len()
            invariant
                k <= all.len(),
                all == self.used@,
                name_s@ == name@,
                spec_alias_info(all, name@) == spec_alias_info(all.skip(k as int), name@),
            decreases all.len() - k,
        {
            proof {
                assert(all.skip(k as int).len() > 0);
                assert(all.skip(k as int)[0] == all[k as int]);
            }
            if self.used[k].0 == name_s {
                return Some((self.used[k].1, self.used[k].3));
            }
            proof {
                assert(spec_alias_info(all.skip(k as int), name@) == spec_alias_info(
                    all.skip(k as int).drop_first(),
                    name@,
                ));
                assert(all.skip(k as int).drop_first() =~= all.skip(k + 1));
            }
            k += 1;
        }
        proof {
            assert(all.skip(k as int).len() == 0);
        }
        None
    }

    /// Whether any bound has been allocated.
    pub fn is_empty(&self) -> (r: bool)
        ensures
            r == (self.used_seq().len() == 0),
    {
        self.used.len() == 0
    }

    /// The allocated bounds, in allocation order.
    pub fn iter(&self) -> (r: &Vec<(String, char, String, BoundType)>)
        ensures
            r@ == self.used_seq(),
    {
        &self.used
    }

    /// The borrow-scope tags drawn, in allocation order.
    pub fn iter_lifetimes(&self) -> (r: &Vec<char>)
        ensures
            r@ == self.lifetimes_seq(),
    {
        &self.lifetimes
    }
}

impl Default for Bounds {
    /// Fresh pools: nothing allocated yet.
    fn default() -> (r: Bounds)
        ensures
            r.used_seq().len() == 0,
            r.lifetimes_seq().len() == 0,
            r.well_formed(),
    {
        Bounds { used: Vec::new(), lifetimes: Vec::new() }
    }
}

/// The bound a parameter requires, given its type and nullability:
/// nullable strings take a move conversion, filesystem paths a
/// reference conversion, classes with registered subtypes and all
/// interfaces a polymorphic supertype bound.
pub open spec fn spec_type_for(env: &Env, tid: TypeId, nullable: Nullable) -> Option<BoundType> {
    if !env.library.spec_resolves(tid) {
        None
    } else {
        match env.library.spec_type(tid) {
            Type::Fundamental(f) => if f == Fundamental::Filename {
                Some(BoundType::AsRef)
            } else if f == Fundamental::Utf8 && nullable.0 {
                Some(BoundType::Into('_'))
            } else {
                None
            },
            Type::Class(_) => if spec_has_subtype(&env.library, tid) {
                Some(BoundType::IsA)
            } else {
                None
            },
            Type::Interface(_) => Some(BoundType::IsA),
            _ => None,
        }
    }
}

/// The call-site conversion suffix of a bound kind.
pub open spec fn spec_to_glib_extra(bound_type: BoundType) -> Seq<char> {
    match bound_type {
        BoundType::AsRef => ".as_ref()"@,
        BoundType::Into(_) => ".into()"@,
        BoundType::IsA => ""@,
    }
}

impl Bounds {
    /// The bound a parameter requires, if any; the tag inside a
    /// placeholder move-conversion bound is drawn later.
    fn type_for(env: &Env, type_id: TypeId, nullable: Nullable) -> (r: Option<BoundType>)
        ensures
            r == spec_type_for(env, type_id, nullable),
    {
        match env.library.type_(type_id) {
            Some(t) => match t {
                Type::Fundamental(f) => {
                    if *f == Fundamental::Filename {
                        Some(BoundType::AsRef)
                    } else if *f == Fundamental::Utf8 && nullable.0 {
                        Some(BoundType::Into('_'))
                    } else {
                        None
                    }
                },
                Type::Class(_) => {
                    if has_subtype(&env.library, type_id) {
                        Some(BoundType::IsA)
                    } else {
                        None
                    }
                },
                Type::Interface(_) => Some(BoundType::IsA),
                _ => None,
            },
            None => None,
        }
    }

    /// The call-site conversion suffix of a bound kind.
    pub fn to_glib_extra(bound_type: BoundType) -> (r: String)
        ensures
            r@ == spec_to_glib_extra(bound_type),
    {
        match bound_type {
            BoundType::AsRef => ".as_ref()".to_owned(),
            BoundType::Into(_) => ".into()".to_owned(),
            BoundType::IsA => {
                proof {
                    reveal_strlit("");
                    assert(""@ =~= Seq::<char>::empty());
                }
                String::new()
            },
        }
    }

    /// Process one parameter of a function in declaration order: skip
    /// the instance receiver and output parameters; otherwise allocate
    /// the bound its type requires. A duplicate name and borrow-scope
    /// tag exhaustion are silent; generic-letter exhaustion is the fatal
    /// configuration error naming the native symbol.
    pub fn add_for_parameter(&mut self, env: &Env, func: &Function, par: &mut Parameter) -> (r:
        Result<(), String>)
        requires
            old(self).well_formed(),
        ensures
            final(self).well_formed(),
            final(par).name == old(par).name,
            final(par).typ == old(par).typ,
            final(par).direction == old(par).direction,
            final(par).nullable == old(par).nullable,
            final(par).caller_allocates == old(par).caller_allocates,
            final(par).instance_parameter == old(par).instance_parameter,
            ({
                let applicable = !old(par).instance_parameter && old(par).direction
                    != ParameterDirection::Out;
                let bt_opt = spec_type_for(env, old(par).typ, old(par).nullable);
                if !applicable || bt_opt is None {
                    r is Ok && *final(self) == *old(self) && *final(par) == *old(par)
                } else {
                    let bt = bt_opt.unwrap();
                    let into = bt is Into;
                    let rust_name = (match spec_rust_type(&env.library, old(par).typ) {
                        Ok(n) => n,
                        Err(n) => n,
                    });
                    let next_tag = spec_lifetime(old(self).lifetimes_seq().len() as int);
                    let resolved = if into { BoundType::Into(next_tag) } else { bt };
                    &&& final(par).to_glib_extra@ == spec_to_glib_extra(bt)
                    &&& if old(self).spec_is_bound(old(par).name@) || (into && old(
                        self,
                    ).lifetimes_seq().len() >= 7) {
                        r is Ok && *final(self) == *old(self)
                    } else if old(self).used_seq().len() >= 7 {
                        &&& r is Err
                        &&& r.unwrap_err()@ == "Too many type constraints for "@
                            + func.c_identifier@
                        &&& final(self).used_seq() == old(self).used_seq()
                        &&& if into {
                            final(self).lifetimes_seq() == old(self).lifetimes_seq().push(next_tag)
                        } else {
                            *final(self) == *old(self)
                        }
                    } else {
                        &&& r is Ok
                        &&& spec_added_entry(
                            *old(self),
                            *final(self),
                            old(par).name@,
                            rust_name,
                            resolved,
                        )
                        &&& if into {
                            final(self).lifetimes_seq() == old(self).lifetimes_seq().push(next_tag)
                        } else {
                            final(self).lifetimes_seq() == old(self).lifetimes_seq()
                        }
                    }
                }
            }),
    {
        if !par.instance_parameter && !matches!(par.direction, ParameterDirection::Out) {
            if let Some(bound_type) = Bounds::type_for(env, par.typ, par.nullable) {
                par.to_glib_extra = Bounds::to_glib_extra(bound_type);
                let rust_name = rust_type_into_string(&env.library, par.typ);
                if self.get_parameter_alias_info(par.name.as_str()).is_some() {
                    proof {
                        lemma_alias_info_found(self.used_seq(), par.name@);
                    }
                    return Ok(());
                }
                proof {
                    lemma_alias_info_absent(self.used_seq(), par.name@);
                }
                let is_into = matches!(bound_type, BoundType::Into(_));
                if is_into && self.lifetimes.len() >= 7 {
                    return Ok(());
                }
                if !self.add_parameter(par.name.as_str(), rust_name.as_str(), bound_type) {
                    let mut msg = "Too many type constraints for ".to_owned();
                    msg.append(func.c_identifier.as_str());
                    return Err(msg);
                }
            }
        }
        Ok(())
    }
}

/// The imports after the allocated bounds report theirs: polymorphic
/// bounds need the capability-interface trait, reference-conversion
/// bounds the concrete type they convert from, move-conversion bounds
/// nothing.
pub open spec fn spec_after_bound_imports(
    v: Seq<(Seq<char>, Option<Version>)>,
    used: Seq<(String, char, String, BoundType)>,
) -> Seq<(Seq<char>, Option<Version>)>
    decreases used.len(),
{
    if used.len() == 0 {
        v
    } else {
        let prev = spec_after_bound_imports(v, used.drop_last());
        match used.last().3 {
            BoundType::IsA => spec_add(prev, "glib::object::IsA"@, None),
            BoundType::AsRef => spec_add(prev, used.last().2@, None),
            BoundType::Into(_) => prev,
        }
    }
}

impl Bounds {
    /// Report the imports the allocated bounds need.
    pub fn update_imports(&self, imports: &mut Imports)
        ensures
            final(imports)@ == spec_after_bound_imports(old(imports)@, self.used_seq()),
    {
        let ghost start = old(imports)@;
        let ghost used = self.used@;
        proof {
            assert(used.take(0) =~= Seq::<(String, char, String, BoundType)>::empty());
        }
        let mut k: usize = 0;
        while k < self.used.len()
            invariant
                k <= used.len(),
                used == self.used@,
                used == self.used_seq(),
                imports@ == spec_after_bound_imports(start, used.take(k as int)),
            decreases used.len() - k,
        {
            proof {
                assert(used.take(k + 1).drop_last() =~= used.take(k as int));
                assert(used.take(k + 1).last() == used[k as int]);
            }
            match self.used[k].3 {
                BoundType::IsA => imports.add("glib::object::IsA", None),
                BoundType::AsRef => imports.add_used_type(self.used[k].2.as_str(), None),
                BoundType::Into(_) => (),
            }
            k += 1;
        }
        proof {
            assert(used.take(used.len() as int) =~= used);
        }
    }
}

impl Bounds {
    /// The allocated bounds as plain values: name, letter, concrete
    /// type name, bound kind.
    pub open spec fn abs_used(&self) -> Seq<(Seq<char>, char, Seq<char>, BoundType)> {
        Seq::new(
            self.used_seq().len(),
            |i: int|
                (
                    self.used_seq()[i].0@,
                    self.used_seq()[i].1,
                    self.used_seq()[i].2@,
                    self.used_seq()[i].3,
                ),
        )
    }
}

/// Whether a plain-value bound list holds a name.
pub open spec fn spec_abs_contains(
    used: Seq<(Seq<char>, char, Seq<char>, BoundType)>,
    name: Seq<char>,
) -> bool {
    exists|i: int| 0 <= i < used.len() && used[i].0 == name
}

/// A name is bound exactly when the plain-value view holds it.
pub proof fn lemma_is_bound_abs(b: Bounds, name: Seq<char>)
    ensures
        b.spec_is_bound(name) == spec_abs_contains(b.abs_used(), name),
{
    if b.spec_is_bound(name) {
        let i = choose|i: int|
            0 <= i < b.used_seq().len() && b.used_seq()[i].0@ == name;
        assert(b.abs_used()[i].0 == name);
    }
    if spec_abs_contains(b.abs_used(), name) {
        let i = choose|i: int| 0 <= i < b.abs_used().len() && b.abs_used()[i].0 == name;
        assert(b.used_seq()[i].0@ == name);
    }
}

/// Law: the allocator never holds more than seven generic letters nor
/// more than seven borrow-scope tags. Going past the letter pool is the
/// fatal error of [`Bounds::add_for_parameter`]; going past the tag
/// pool silently drops that one bound.
pub proof fn lemma_pools_bounded(b: Bounds)
    requires
        b.well_formed(),
    ensures
        b.used_seq().len() <= 7,
        b.lifetimes_seq().len() <= 7,
{
}

/// Law: no two allocated bounds share a parameter name; a duplicate
/// binding attempt is rejected without effect.
pub proof fn lemma_names_unique(b: Bounds)
    requires
        b.well_formed(),
    ensures
        forall|i: int, j: int|
            0 <= i < j < b.used_seq().len() ==> (#[trigger] b.used_seq()[i]).0@ != (
            #[trigger] b.used_seq()[j]).0@,
{
}

/// Law: generic letters are assigned in strict pool order matching
/// allocation order, and borrow-scope tags likewise from their own
/// seven-slot pool.
pub proof fn lemma_pool_order(b: Bounds)
    requires
        b.well_formed(),
    ensures
        forall|i: int|
            0 <= i < b.used_seq().len() ==> (#[trigger] b.used_seq()[i]).1 == spec_letter(i),
        forall|i: int|
            0 <= i < b.lifetimes_seq().len() ==> #[trigger] b.lifetimes_seq()[i]
                == spec_lifetime(i),
{
}

/// A successful alias search means the name is bound.
proof fn lemma_alias_info_found(s: Seq<(String, char, String, BoundType)>, name: Seq<char>)
    requires
        spec_alias_info(s, name) is Some,
    ensures
        exists|i: int| 0 <= i < s.len() && s[i].0@ == name,
    decreases s.len(),
{
    if s.len() > 0 && s[0].0@ != name {
        lemma_alias_info_found(s.drop_first(), name);
        let i = choose|i: int| 0 <= i < s.drop_first().len() && s.drop_first()[i].0@ == name;
        assert(s[i + 1].0@ == name);
    }
}

/// A failed alias search means the name is free.
proof fn lemma_alias_info_absent(s: Seq<(String, char, String, BoundType)>, name: Seq<char>)
    requires
        spec_alias_info(s, name) is None,
    ensures
        forall|i: int| 0 <= i < s.len() ==> s[i].0@ != name,
    decreases s.len(),
{
    if s.len() > 0 {
        lemma_alias_info_absent(s.drop_first(), name);
        assert forall|i: int| 0 <= i < s.len() implies s[i].0@ != name by {
            if i > 0 {
                assert(s.drop_first()[i - 1].0@ != name);
            }
        }
    }
}

} // verus!
