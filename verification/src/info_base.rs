//! The part of a type's analysis record shared by classes and
//! interfaces.

use vstd::prelude::*;

use crate::functions;
use crate::library::{FunctionKind, TypeId};
use crate::special_functions::Specials;
use crate::version::Version;

verus! {

/// Whether any visible analyzed function has the given kind.
pub open spec fn spec_has_visible_kind(
    fns: Seq<functions::Info>,
    kind: FunctionKind,
) -> bool {
    exists|i: int| 0 <= i < fns.len() && fns[i].visible && fns[i].kind == kind
}

/// The common core of a class or interface record.
#[derive(Debug)]
pub struct InfoBase {
    /// The full `Namespace.Name`.
    pub full_name: String,
    pub type_id: TypeId,
    /// The short name inside its namespace.
    pub name: String,
    pub functions: Vec<functions::Info>,
    pub specials: Specials,
    pub version: Option<Version>,
    pub deprecated_version: Option<Version>,
}

impl InfoBase {
    /// Whether any visible analyzed function has the given kind.
    pub fn has_kind(&self, kind: FunctionKind) -> (r: bool)
        ensures
            r == spec_has_visible_kind(self.functions@, kind),
    {
        let mut k: usize = 0;
        while k < self.functions.len()
            invariant
                k <= self.functions@.len(),
                forall|j: int|
                    0 <= j < k ==> !((#[trigger] self.functions@[j]).visible
                        && self.functions@[j].kind == kind),
            decreases self.functions@.len() - k,
        {
            if self.functions[k].visible && self.functions[k].kind == kind {
                return true;
            }
            k += 1;
        }
        false
    }
}

} // verus!
