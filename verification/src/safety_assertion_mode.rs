//! Whether a generated call must assert, at runtime, that it runs on
//! the thread owning the single-threaded execution context.

use vstd::prelude::*;

use crate::env::Env;
use crate::library::{Library, Parameter, ParameterView, Type, TypeId, MAIN_NAMESPACE};

verus! {

/// The decided thread-affinity policy of one function.
#[derive(Clone, Copy, Debug, PartialEq, Eq, Structural)]
pub enum SafetyAssertionMode {
    /// No assertion: the switch is off, or the function is a method.
    NoAssertion,
    /// A non-nullable argument of the analyzed namespace already proves
    /// the context is initialized, so the check would be redundant.
    Skip,
    /// Assert that execution is on the owning thread before the call.
    InMainThread,
}

impl Default for SafetyAssertionMode {
    fn default() -> (r: SafetyAssertionMode)
        ensures
            r == SafetyAssertionMode::NoAssertion,
    {
        SafetyAssertionMode::NoAssertion
    }
}

/// Whether an identifier names a class or an interface.
pub open spec fn spec_is_class_or_interface(lib: &Library, tid: TypeId) -> bool {
    lib.spec_resolves(tid) && (lib.spec_type(tid) is Class || lib.spec_type(tid) is Interface)
}

/// A parameter that makes the runtime check redundant: a non-nullable
/// class or interface declared in the analyzed namespace.
pub open spec fn spec_makes_check_redundant(lib: &Library, p: ParameterView) -> bool {
    spec_is_class_or_interface(lib, p.typ) && !p.nullable.0 && p.typ.ns_id == MAIN_NAMESPACE
}

/// The policy a function's parameters select once the global switch is
/// on and the function is not a method.
pub open spec fn spec_of_params(env: &Env, params: Seq<ParameterView>) -> SafetyAssertionMode {
    if !env.config.generate_safety_asserts {
        SafetyAssertionMode::NoAssertion
    } else if params.len() > 0 && params[0].instance_parameter {
        SafetyAssertionMode::NoAssertion
    } else if exists|i: int|
        0 <= i < params.len() && spec_makes_check_redundant(&env.library, params[i]) {
        SafetyAssertionMode::Skip
    } else {
        SafetyAssertionMode::InMainThread
    }
}

/// Law: the policy is `NoAssertion` whenever the global switch is off,
/// regardless of the parameters, and whenever the first parameter is
/// the instance receiver; it is `Skip` whenever, with the switch on and
/// no receiver first, some non-nullable class or interface parameter of
/// the analyzed namespace is present; and `InMainThread` otherwise.
pub proof fn lemma_safety_policy(env: &Env, params: Seq<ParameterView>)
    ensures
        !env.config.generate_safety_asserts ==> spec_of_params(env, params)
            == SafetyAssertionMode::NoAssertion,
        params.len() > 0 && params[0].instance_parameter ==> spec_of_params(env, params)
            == SafetyAssertionMode::NoAssertion,
        (env.config.generate_safety_asserts && !(params.len() > 0
            && params[0].instance_parameter) && exists|i: int|
            0 <= i < params.len() && spec_makes_check_redundant(
                &env.library,
                #[trigger] params[i],
            )) ==> spec_of_params(env, params) == SafetyAssertionMode::Skip,
        (env.config.generate_safety_asserts && !(params.len() > 0
            && params[0].instance_parameter) && !exists|i: int|
            0 <= i < params.len() && spec_makes_check_redundant(
                &env.library,
                #[trigger] params[i],
            )) ==> spec_of_params(env, params) == SafetyAssertionMode::InMainThread,
{
}

impl SafetyAssertionMode {
    /// Decide the thread-affinity policy of a function from the global
    /// switch and its parameters: off means no assertion, an instance
    /// receiver means no assertion, a non-nullable class or interface
    /// argument of the analyzed namespace makes the check redundant,
    /// and anything else asserts the owning thread.
    pub fn of(env: &Env, params: &Vec<Parameter>) -> (r: SafetyAssertionMode)
        ensures
            r == spec_of_params(env, params.deep_view()),
    {
        let ghost all = params.deep_view();
        if !env.config.generate_safety_asserts {
            return SafetyAssertionMode::NoAssertion;
        }
        if params.len() > 0 && params[0].instance_parameter {
            return SafetyAssertionMode::NoAssertion;
        }
        let mut k: usize = 0;
        while k < params.len()
            invariant
                k <= all.len(),
                all == params.deep_view(),
                all.len() == params@.len(),
                env.config.generate_safety_asserts,
                !(all.len() > 0 && all[0].instance_parameter),
                forall|j: int|
                    0 <= j < k ==> !spec_makes_check_redundant(&env.library, all[j]),
            decreases all.len() - k,
        {
            let par = &params[k];
            proof {
                assert(all[k as int] == par@);
            }
            let redundant = match env.library.type_(par.typ) {
                Some(t) => match t {
                    Type::Class(_) => !par.nullable.0 && par.typ.ns_id == MAIN_NAMESPACE,
                    Type::Interface(_) => !par.nullable.0 && par.typ.ns_id == MAIN_NAMESPACE,
                    _ => false,
                },
                None => false,
            };
            if redundant {
                proof {
                    assert(spec_makes_check_redundant(&env.library, all[k as int]));
                }
                return SafetyAssertionMode::Skip;
            }
            k += 1;
        }
        SafetyAssertionMode::InMainThread
    }
}

} // verus!
