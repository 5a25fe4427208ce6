//! Per-type and per-function configuration consumed by the analysis:
//! inclusion status, forced capability-interface flags, nullability
//! overrides and the global safety-assertion switch.

use vstd::prelude::*;

use vstd::string::StringExecFns;

use crate::library::Nullable;
use crate::version::Version;

verus! {

/// Inclusion status of a configured type.
#[derive(Clone, Copy, Debug, PartialEq, Eq, Structural)]
pub enum GStatus {
    /// Generated by this run.
    Generate,
    /// Maintained by hand; still part of the public surface.
    Manual,
    /// Excluded from the run entirely.
    Ignore,
}

impl GStatus {
    /// An included type: it takes part in generation, by machine or by
    /// hand.
    pub open spec fn spec_normal(self) -> bool {
        self == GStatus::Generate || self == GStatus::Manual
    }

    pub fn normal(self) -> (r: bool)
        ensures
            r == self.spec_normal(),
    {
        match self {
            GStatus::Generate => true,
            GStatus::Manual => true,
            GStatus::Ignore => false,
        }
    }

    pub open spec fn spec_ignored(self) -> bool {
        self == GStatus::Ignore
    }

    pub fn ignored(self) -> (r: bool)
        ensures
            r == self.spec_ignored(),
    {
        match self {
            GStatus::Ignore => true,
            _ => false,
        }
    }
}

impl Default for GStatus {
    /// A type without configuration is generated.
    fn default() -> (r: Self)
        ensures
            r == GStatus::Generate,
    {
        GStatus::Generate
    }
}

/// Configuration of one declared function: an explicit override of the
/// return value's nullability, if any.
#[derive(Clone, Debug)]
pub struct FunctionConfig {
    pub name: String,
    pub ret_nullable: Option<Nullable>,
}

/// Configuration of one declared type, addressed by its full
/// `Namespace.Name`.
#[derive(Clone, Debug)]
pub struct GObject {
    pub name: String,
    pub status: GStatus,
    /// Force a capability interface to be emitted for this type even
    /// without registered subtypes.
    pub force_trait: bool,
    pub functions: Vec<FunctionConfig>,
}

/// The first configured entry carrying this full name, if any.
pub open spec fn seq_find_object(s: Seq<GObject>, name: Seq<char>) -> Option<GObject>
    decreases s.len(),
{
    if s.len() == 0 {
        None
    } else if s[0].name@ == name {
        Some(s[0])
    } else {
        seq_find_object(s.drop_first(), name)
    }
}

/// All configured types.
#[derive(Clone, Debug)]
pub struct GObjects {
    pub objects: Vec<GObject>,
}

impl GObjects {
    /// The inclusion status of a named type; unconfigured types default
    /// to [`GStatus::Generate`].
    pub open spec fn spec_status(&self, name: Seq<char>) -> GStatus {
        match seq_find_object(self.objects@, name) {
            Some(o) => o.status,
            None => GStatus::Generate,
        }
    }

    /// Look a configured type up by its full name; the first entry with
    /// that name answers.
    pub fn get(&self, name: &String) -> (r: Option<&GObject>)
        ensures
            match seq_find_object(self.objects@, name@) {
                Some(o) => r is Some && *r.unwrap() == o,
                None => r is None,
            },
    {
        let ghost all = self.objects@;
        proof {
            assert(all.skip(0) =~= all);
        }
        let mut k: usize = 0;
        while k < self.objects.len()
            invariant
                k <= all.len(),
                all == self.objects@,
                seq_find_object(all, name@) == seq_find_object(
                    all.skip(k as int),
                    name@,
                ),
            decreases all.len() - k,
        {
            proof {
                assert(all.skip(k as int).len() > 0);
                assert(all.skip(k as int)[0] == all[k as int]);
            }
            if self.objects[k].name == *name {
                proof {
                    assert(seq_find_object(all.skip(k as int), name@)
                        == Some(all.skip(k as int)[0]));
                }
                return Some(&self.objects[k]);
            }
            proof {
                assert(seq_find_object(all.skip(k as int), name@)
                    == seq_find_object(all.skip(k as int).drop_first(), name@));
                assert(all.skip(k as int).drop_first() =~= all.skip(k + 1));
            }
            k += 1;
        }
        proof {
            assert(all.skip(k as int).len() == 0);
        }
        None
    }

    /// The inclusion status of a named type, with the default applied.
    pub fn status_of(&self, name: &String) -> (r: GStatus)
        ensures
            r == self.spec_status(name@),
    {
        match self.get(name) {
            Some(obj) => obj.status,
            None => GStatus::Generate,
        }
    }
}

/// The first explicit return-nullability override among the
/// configuration entries matching a function name.
pub open spec fn spec_matched_ret_nullable(
    cfgs: Seq<FunctionConfig>,
    name: Seq<char>,
) -> Option<Nullable>
    decreases cfgs.len(),
{
    if cfgs.len() == 0 {
        None
    } else if cfgs[0].name@ == name && cfgs[0].ret_nullable is Some {
        cfgs[0].ret_nullable
    } else {
        spec_matched_ret_nullable(cfgs.drop_first(), name)
    }
}

/// Find the first configured return-nullability override for a
/// function.
pub fn matched_ret_nullable(cfgs: &Vec<FunctionConfig>, name: &String) -> (r: Option<Nullable>)
    ensures
        r == spec_matched_ret_nullable(cfgs@, name@),
{
    let ghost all = cfgs@;
    proof {
        assert(all.skip(0) =~= all);
    }
    let mut k: usize = 0;
    while k < cfgs.len()
        invariant
            k <= all.len(),
            all == cfgs@,
            spec_matched_ret_nullable(all, name@) == spec_matched_ret_nullable(
                all.skip(k as int),
                name@,
            ),
        decreases all.len() - k,
    {
        proof {
            assert(all.skip(k as int)[0] == all[k as int]);
        }
        if cfgs[k].name == *name {
            if let Some(v) = cfgs[k].ret_nullable {
                return Some(v);
            }
        }
        proof {
            assert(all.skip(k as int).drop_first() =~= all.skip(k + 1));
        }
        k += 1;
    }
    None
}

/// Global configuration of an analysis run.
#[derive(Clone, Debug)]
pub struct Config {
    /// The name of the native library under analysis.
    pub library_name: String,
    /// The version of the native library under analysis.
    pub library_version: String,
    pub objects: GObjects,
    /// Enables the runtime thread-affinity assertions decided by the
    /// safety policy.
    pub generate_safety_asserts: bool,
    /// Versions at or below this threshold are not feature-gated.
    pub min_cfg_version: Version,
}

impl Config {
    /// The `name-version` form of the analyzed library's name.
    pub fn library_full_name(&self) -> (r: String)
        ensures
            r@ == self.library_name@ + "-"@ + self.library_version@,
    {
        let mut s = self.library_name.clone();
        s.append("-");
        s.append(self.library_version.as_str());
        s
    }
    /// Keep a version only when it lies above the feature-gating
    /// threshold.
    pub fn filter_version(&self, version: Option<Version>) -> (r: Option<Version>)
        ensures
            r == (match version {
                Some(v) => if self.min_cfg_version.spec_lt(v) {
                    Some(v)
                } else {
                    None::<Version>
                },
                None => None::<Version>,
            }),
    {
        match version {
            Some(v) => {
                if self.min_cfg_version.lt(&v) {
                    Some(v)
                } else {
                    None
                }
            },
            None => None,
        }
    }
}

} // verus!
