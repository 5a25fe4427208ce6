//! The supertype chain of an analyzed type, resolved against the
//! configuration: excluded entries are filtered out.

use vstd::prelude::*;

use crate::config::GStatus;
use crate::env::Env;
use crate::hierarchy::{spec_supertypes, spec_tid_full_name, supertypes_of_tid};
use crate::library::TypeId;
use crate::nameutil::full_type_name;

verus! {

/// One supertype together with its full name and inclusion status.
#[derive(Clone, Debug)]
pub struct StatusedTypeId {
    pub type_id: TypeId,
    pub name: String,
    pub status: GStatus,
}

/// The resolved supertype chain, as plain values: identifier, full
/// name, status. Unresolvable entries and excluded entries are dropped;
/// declaration order is kept.
pub open spec fn spec_statused_supertypes(env: &Env, s: Seq<TypeId>) -> Seq<(
    TypeId,
    Seq<char>,
    GStatus,
)>
    decreases s.len(),
{
    if s.len() == 0 {
        Seq::empty()
    } else {
        let prefix = spec_statused_supertypes(env, s.drop_last());
        let tid = s.last();
        if env.library.spec_resolves(tid) {
            let name = spec_tid_full_name(&env.library, tid);
            let status = env.config.objects.spec_status(name);
            if status.spec_normal() {
                prefix.push((tid, name, status))
            } else {
                prefix
            }
        } else {
            prefix
        }
    }
}

/// Resolve a type's supertype chain, filtered to included entries.
pub fn analyze(env: &Env, tid: TypeId) -> (r: Vec<StatusedTypeId>)
    ensures
        ({
            let expected = spec_statused_supertypes(env, spec_supertypes(&env.library, tid));
            &&& r@.len() == expected.len()
            &&& forall|i: int|
                0 <= i < r@.len() ==> (#[trigger] r@[i]).type_id == expected[i].0
                    && r@[i].name@ == expected[i].1 && r@[i].status == expected[i].2
        }),
{
    let supers = supertypes_of_tid(&env.library, tid);
    let ghost all = supers@;
    proof {
        assert(all == spec_supertypes(&env.library, tid));
        assert(all.take(0) =~= Seq::<TypeId>::empty());
    }
    let mut r: Vec<StatusedTypeId> = Vec::new();
    let mut k: usize = 0;
    while k < supers.len()
        invariant
            k <= all.len(),
            all == supers@,
            ({
                let expected = spec_statused_supertypes(env, all.take(k as int));
                &&& r@.len() == expected.len()
                &&& forall|i: int|
                    0 <= i < r@.len() ==> (#[trigger] r@[i]).type_id == expected[i].0
                        && r@[i].name@ == expected[i].1 && r@[i].status == expected[i].2
            }),
        decreases all.len() - k,
    {
        proof {
            assert(all.take(k + 1).drop_last() =~= all.take(k as int));
            assert(all.take(k + 1).last() == all[k as int]);
        }
        let tid_k = supers[k];
        match env.library.type_(tid_k) {
            Some(t) => {
                let ns = &env.library.namespaces[tid_k.ns_id];
                let name = full_type_name(ns.name.as_str(), t.get_name().as_str());
                proof {
                    assert(name@ == spec_tid_full_name(&env.library, tid_k));
                }
                let status = env.config.objects.status_of(&name);
                if status.normal() {
                    r.push(StatusedTypeId { type_id: tid_k, name, status });
                }
            },
            None => (),
        }
        k += 1;
    }
    proof {
        assert(all.take(all.len() as int) =~= all);
    }
    r
}

} // verus!
