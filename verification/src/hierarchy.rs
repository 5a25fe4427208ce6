//! Queries over the supertype/subtype edges of the type graph. Each
//! class and interface carries its transitive supertypes in declaration
//! order; the subtype direction is answered by scanning the graph.

use vstd::prelude::*;

use crate::config::GObjects;
use crate::library::{Library, Type, TypeId};
use crate::nameutil::full_type_name;

verus! {

/// The declared supertypes of a type; only classes and interfaces have
/// any.
pub open spec fn spec_supertypes_of(t: Type) -> Seq<TypeId> {
    match t {
        Type::Class(c) => c.supertypes@,
        Type::Interface(i) => i.supertypes@,
        _ => Seq::empty(),
    }
}

/// The supertypes of the type behind an identifier, in declaration
/// order.
pub open spec fn spec_supertypes(lib: &Library, tid: TypeId) -> Seq<TypeId> {
    if lib.spec_resolves(tid) {
        spec_supertypes_of(lib.spec_type(tid))
    } else {
        Seq::empty()
    }
}

/// Whether the type at graph position `(n, t)` declares `tid` among its
/// supertypes.
pub open spec fn spec_declares_super(lib: &Library, n: int, t: int, tid: TypeId) -> bool {
    spec_supertypes_of(lib.namespaces@[n].types@[t]).contains(tid)
}

/// Whether any registered type is a subtype of `tid`.
pub open spec fn spec_has_subtype(lib: &Library, tid: TypeId) -> bool {
    exists|n: int, t: int|
        0 <= n < lib.namespaces@.len() && 0 <= t < lib.namespaces@[n].types@.len()
            && spec_declares_super(lib, n, t, tid)
}

/// The full `Namespace.Name` of the type at graph position `(n, t)`.
pub open spec fn spec_full_name_at(lib: &Library, n: int, t: int) -> Seq<char> {
    lib.namespaces@[n].name@ + "."@ + lib.namespaces@[n].types@[t].spec_name()
}

/// The full `Namespace.Name` of the type behind an identifier.
pub open spec fn spec_tid_full_name(lib: &Library, tid: TypeId) -> Seq<char> {
    spec_full_name_at(lib, tid.ns_id as int, tid.id as int)
}

/// Whether any subtype of `tid` is included by configuration.
pub open spec fn spec_has_included_subtype(
    lib: &Library,
    objects: &GObjects,
    tid: TypeId,
) -> bool {
    exists|n: int, t: int|
        0 <= n < lib.namespaces@.len() && 0 <= t < lib.namespaces@[n].types@.len()
            && spec_declares_super(lib, n, t, tid) && objects.spec_status(
            spec_full_name_at(lib, n, t),
        ).spec_normal()
}

/// The supertypes of the type behind an identifier, as an owned list.
pub fn supertypes_of_tid(lib: &Library, tid: TypeId) -> (r: Vec<TypeId>)
    ensures
        r@ == spec_supertypes(lib, tid),
{
    let mut r: Vec<TypeId> = Vec::new();
    let ghost expected = spec_supertypes(lib, tid);
    match lib.type_(tid) {
        Some(t) => {
            let list: &Vec<TypeId> = match t {
                Type::Class(c) => &c.supertypes,
                Type::Interface(i) => &i.supertypes,
                _ => {
                    proof {
                        assert(expected =~= Seq::<TypeId>::empty());
                        assert(r@ =~= expected);
                    }
                    return r;
                },
            };
            let mut k: usize = 0;
            while k < list.len()
                invariant
                    k <= list@.len(),
                    r@ == list@.take(k as int),
                decreases list@.len() - k,
            {
                r.push(list[k]);
                proof {
                    assert(r@ =~= list@.take(k + 1));
                }
                k += 1;
            }
            proof {
                assert(list@.take(list@.len() as int) =~= list@);
            }
            r
        },
        None => {
            proof {
                assert(expected =~= Seq::<TypeId>::empty());
                assert(r@ =~= expected);
            }
            r
        },
    }
}

/// Whether a supertype list names `tid`.
fn tid_list_contains(list: &Vec<TypeId>, tid: TypeId) -> (r: bool)
    ensures
        r == list@.contains(tid),
{
    let mut k: usize = 0;
    while k < list.len()
        invariant
            k <= list@.len(),
            forall|j: int| 0 <= j < k ==> list@[j] != tid,
        decreases list@.len() - k,
    {
        if list[k].ns_id == tid.ns_id && list[k].id == tid.id {
            return true;
        }
        k += 1;
    }
    false
}

/// Whether one declared type names `tid` among its supertypes.
fn declares_super(t: &Type, tid: TypeId) -> (r: bool)
    ensures
        r == spec_supertypes_of(*t).contains(tid),
{
    match t {
        Type::Class(c) => tid_list_contains(&c.supertypes, tid),
        Type::Interface(i) => tid_list_contains(&i.supertypes, tid),
        _ => false,
    }
}

/// Whether any registered type is a subtype of `tid`: true exactly when
/// some type in the graph declares `tid` as a supertype.
pub fn has_subtype(lib: &Library, tid: TypeId) -> (r: bool)
    ensures
        r == spec_has_subtype(lib, tid),
{
    let mut n: usize = 0;
    while n < lib.namespaces.len()
        invariant
            n <= lib.namespaces@.len(),
            forall|nj: int, tj: int|
                0 <= nj < n && 0 <= tj < lib.namespaces@[nj].types@.len()
                    ==> !spec_declares_super(lib, nj, tj, tid),
        decreases lib.namespaces@.len() - n,
    {
        let ns = &lib.namespaces[n];
        let mut t: usize = 0;
        while t < ns.types.len()
            invariant
                n < lib.namespaces@.len(),
                *ns == lib.namespaces@[n as int],
                t <= ns.types@.len(),
                forall|tj: int|
                    0 <= tj < t ==> !spec_declares_super(lib, n as int, tj, tid),
            decreases ns.types@.len() - t,
        {
            if declares_super(&ns.types[t], tid) {
                proof {
                    assert(spec_declares_super(lib, n as int, t as int, tid));
                }
                return true;
            }
            t += 1;
        }
        n += 1;
    }
    false
}

/// Whether any subtype of `tid` is included by configuration: this is
/// what decides a class's capability interface.
pub fn has_included_subtype(lib: &Library, objects: &GObjects, tid: TypeId) -> (r: bool)
    ensures
        r == spec_has_included_subtype(lib, objects, tid),
{
    let mut n: usize = 0;
    while n < lib.namespaces.len()
        invariant
            n <= lib.namespaces@.len(),
            forall|nj: int, tj: int|
                0 <= nj < n && 0 <= tj < lib.namespaces@[nj].types@.len()
                    ==> !(spec_declares_super(lib, nj, tj, tid) && objects.spec_status(
                    spec_full_name_at(lib, nj, tj),
                ).spec_normal()),
        decreases lib.namespaces@.len() - n,
    {
        let ns = &lib.namespaces[n];
        let mut t: usize = 0;
        while t < ns.types.len()
            invariant
                n < lib.namespaces@.len(),
                *ns == lib.namespaces@[n as int],
                t <= ns.types@.len(),
                forall|tj: int|
                    0 <= tj < t ==> !(spec_declares_super(lib, n as int, tj, tid)
                        && objects.spec_status(
                        spec_full_name_at(lib, n as int, tj),
                    ).spec_normal()),
            decreases ns.types@.len() - t,
        {
            if declares_super(&ns.types[t], tid) {
                let child_name = full_type_name(
                    ns.name.as_str(),
                    ns.types[t].get_name().as_str(),
                );
                if objects.status_of(&child_name).normal() {
                    proof {
                        assert(child_name@ == spec_full_name_at(lib, n as int, t as int));
                        assert(spec_declares_super(lib, n as int, t as int, tid)
                            && objects.spec_status(
                            spec_full_name_at(lib, n as int, t as int),
                        ).spec_normal());
                    }
                    return true;
                }
            }
            t += 1;
        }
        n += 1;
    }
    false
}

} // verus!
