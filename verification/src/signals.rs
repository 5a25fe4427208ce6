//! Signal analysis: a signal gets a connectable trampoline exactly when
//! every argument has a defined transfer across the boundary.

use vstd::prelude::*;

use crate::conversion_type::{spec_of, ConversionType};
use crate::env::Env;
use crate::library::{ParameterView, Signal};

verus! {

/// One analyzed signal: the trampoline carries the signal's name when
/// one can be generated, else the name of the signal that could not be
/// served.
#[derive(Debug)]
pub struct Info {
    pub name: String,
    pub trampoline_name: Result<String, String>,
}

/// A trampoline exists exactly when every argument of the signal has a
/// defined transfer class.
pub open spec fn spec_signal_supported(env: &Env, params: Seq<ParameterView>) -> bool {
    forall|i: int|
        0 <= i < params.len() ==> spec_of(&env.library, (#[trigger] params[i]).typ)
            != ConversionType::Unknown
}

impl Info {
    /// Whether this signal can be connected to.
    pub fn is_supported(&self) -> (r: bool)
        ensures
            r == (self.trampoline_name is Ok),
    {
        self.trampoline_name.is_ok()
    }
}

/// Analyze the declared signals of one type, in declaration order.
pub fn analyze(env: &Env, signals: &Vec<Signal>) -> (r: Vec<Info>)
    ensures
        r@.len() == signals@.len(),
        forall|i: int|
            0 <= i < r@.len() ==> {
                let supported = spec_signal_supported(env, signals@[i].parameters.deep_view());
                &&& (#[trigger] r@[i]).name@ == signals@[i].name@
                &&& r@[i].trampoline_name is Ok == supported
                &&& (match r@[i].trampoline_name {
                    Ok(n) => n@ == signals@[i].name@,
                    Err(n) => n@ == signals@[i].name@,
                })
            },
{
    let mut r: Vec<Info> = Vec::new();
    let mut k: usize = 0;
    while k < signals.len()
        invariant
            k <= signals@.len(),
            r@.len() == k,
            forall|i: int|
                0 <= i < k ==> {
                    let supported = spec_signal_supported(
                        env,
                        signals@[i].parameters.deep_view(),
                    );
                    &&& (#[trigger] r@[i]).name@ == signals@[i].name@
                    &&& r@[i].trampoline_name is Ok == supported
                    &&& (match r@[i].trampoline_name {
                        Ok(n) => n@ == signals@[i].name@,
                        Err(n) => n@ == signals@[i].name@,
                    })
                },
        decreases signals@.len() - k,
    {
        let signal = &signals[k];
        let ghost params = signal.parameters.deep_view();
        let mut supported = true;
        let mut j: usize = 0;
        while j < signal.parameters.len()
            invariant
                j <= params.len(),
                params == signal.parameters.deep_view(),
                params.len() == signal.parameters@.len(),
                supported == (forall|i: int|
                    0 <= i < j ==> spec_of(&env.library, (#[trigger] params[i]).typ)
                        != ConversionType::Unknown),
            decreases params.len() - j,
        {
            let par = &signal.parameters[j];
            proof {
                assert(params[j as int] == par@);
            }
            let class = crate::conversion_type::ConversionType::of(&env.library, par.typ);
            if matches!(class, ConversionType::Unknown) {
                supported = false;
            }
            j += 1;
        }
        let name = signal.name.clone();
        let info = if supported {
            Info { name, trampoline_name: Ok(signal.name.clone()) }
        } else {
            Info { name, trampoline_name: Err(signal.name.clone()) }
        };
        r.push(info);
        k += 1;
    }
    r
}

} // verus!
