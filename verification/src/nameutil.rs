//! Helpers on the `Namespace.Name` naming scheme of the type graph.

use vstd::prelude::*;

use vstd::string::StrSliceExecFns;
use vstd::string::StringExecFns;

verus! {

/// Position of the first `.` in a name, if any.
pub open spec fn spec_first_dot(s: Seq<char>) -> Option<int>
    decreases s.len(),
{
    if s.len() == 0 {
        None
    } else if s[0] == '.' {
        Some(0int)
    } else {
        match spec_first_dot(s.drop_first()) {
            Some(i) => Some(i + 1),
            None => None,
        }
    }
}

proof fn lemma_first_dot_found(s: Seq<char>, i: int)
    requires
        0 <= i < s.len(),
        s[i] == '.',
        forall|j: int| 0 <= j < i ==> s[j] != '.',
    ensures
        spec_first_dot(s) == Some(i),
    decreases s.len(),
{
    if i > 0 {
        lemma_first_dot_found(s.drop_first(), i - 1);
    }
}

proof fn lemma_first_dot_none(s: Seq<char>)
    requires
        forall|j: int| 0 <= j < s.len() ==> s[j] != '.',
    ensures
        spec_first_dot(s) == None::<int>,
    decreases s.len(),
{
    if s.len() > 0 {
        lemma_first_dot_none(s.drop_first());
    }
}

/// Split a full `Namespace.Name` at its first dot. A name without a
/// namespace part comes back whole.
pub fn split_namespace_name(name: &str) -> (r: (Option<String>, String))
    ensures
        match spec_first_dot(name@) {
            Some(i) => r.0 is Some && r.0.unwrap()@ == name@.subrange(0, i)
                && r.1@ == name@.subrange(i + 1, name@.len() as int),
            None => r.0 is None && r.1@ == name@,
        },
{
    let len = name.unicode_len();
    let mut i: usize = 0;
    while i < len
        invariant
            len == name@.len(),
            i <= len,
            forall|j: int| 0 <= j < i ==> name@[j] != '.',
        decreases len - i,
    {
        if name.get_char(i) == '.' {
            proof {
                lemma_first_dot_found(name@, i as int);
            }
            let ns = name.substring_char(0, i).to_owned();
            let short = name.substring_char(i + 1, len).to_owned();
            return (Some(ns), short);
        }
        i += 1;
    }
    proof {
        lemma_first_dot_none(name@);
    }
    (None, name.to_owned())
}

/// Join a namespace and a short name into the full `Namespace.Name`.
pub fn full_type_name(ns: &str, name: &str) -> (r: String)
    ensures
        r@ == ns@ + "."@ + name@,
{
    let mut s = ns.to_owned();
    s.append(".");
    s.append(name);
    s
}

} // verus!
