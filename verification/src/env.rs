//! The read-only surroundings of one analysis run: the type graph and
//! the configuration.

use vstd::prelude::*;

use crate::config::Config;
use crate::library::{Library, Type, TypeId};

verus! {

/// Everything an analysis pass reads; never written during a run.
#[derive(Clone, Debug)]
pub struct Env {
    pub library: Library,
    pub config: Config,
}

impl Env {
    /// Look a type identifier up in the graph.
    pub fn type_(&self, tid: TypeId) -> (r: Option<&Type>)
        ensures
            r is Some <==> self.library.spec_resolves(tid),
            r is Some ==> *r.unwrap() == self.library.spec_type(tid),
    {
        self.library.type_(tid)
    }
}

} // verus!
