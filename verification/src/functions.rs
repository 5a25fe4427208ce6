//! Per-function analysis: run the bound allocator over the parameters
//! in declaration order, package the outputs, and decide the safety
//! policy.

use vstd::prelude::*;

use crate::bounds::{
    lemma_is_bound_abs, spec_abs_contains, spec_letter, spec_lifetime, spec_to_glib_extra,
    spec_type_for, BoundType, Bounds,
};
use crate::rust_type::spec_rust_name_of;
use crate::config::{matched_ret_nullable, spec_matched_ret_nullable, FunctionConfig, GObject};
use crate::env::Env;
use crate::library::{
    clone_parameter, Function, FunctionKind, Parameter, ParameterDirection, ParameterView,
};
use crate::out_parameters;
use crate::out_parameters::{
    spec_eligible_outs, spec_has_unsupported_outs, spec_out_mode, Mode,
};
use crate::safety_assertion_mode::{spec_of_params, SafetyAssertionMode};
use crate::version::Version;

verus! {

/// The bound allocator's state over one function, as plain values:
/// the allocated bounds, the tags drawn, the parameters processed so
/// far with their conversion suffixes applied, and whether the fatal
/// letter-pool exhaustion was hit (after which the function's analysis
/// halts).
pub ghost struct BoundsFold {
    pub used: Seq<(Seq<char>, char, Seq<char>, BoundType)>,
    pub lifetimes: Seq<char>,
    pub params: Seq<ParameterView>,
    pub fatal: bool,
}

/// One step of the bound allocator, mirroring its policy: skip the
/// instance receiver and output parameters; reject a duplicate name
/// silently; drop the bound silently when the tag pool is exhausted;
/// fail fatally when the letter pool is exhausted (a tag already drawn
/// stays drawn); otherwise allocate.
pub open spec fn spec_bounds_step(env: &Env, st: BoundsFold, p: ParameterView) -> BoundsFold {
    if st.fatal {
        st
    } else {
        let applicable = !p.instance_parameter && p.direction != ParameterDirection::Out;
        let bt_opt = spec_type_for(env, p.typ, p.nullable);
        if !applicable || bt_opt is None {
            BoundsFold { params: st.params.push(p), ..st }
        } else {
            let bt = bt_opt.unwrap();
            let p2 = ParameterView { to_glib_extra: spec_to_glib_extra(bt), ..p };
            let into = bt is Into;
            let rust_name = spec_rust_name_of(&env.library, p.typ);
            let next_tag = spec_lifetime(st.lifetimes.len() as int);
            if spec_abs_contains(st.used, p.name) || (into && st.lifetimes.len() >= 7) {
                BoundsFold { params: st.params.push(p2), ..st }
            } else if st.used.len() >= 7 {
                BoundsFold {
                    lifetimes: if into {
                        st.lifetimes.push(next_tag)
                    } else {
                        st.lifetimes
                    },
                    fatal: true,
                    ..st
                }
            } else {
                BoundsFold {
                    used: st.used.push(
                        (
                            p.name,
                            spec_letter(st.used.len() as int),
                            rust_name,
                            if into {
                                BoundType::Into(next_tag)
                            } else {
                                bt
                            },
                        ),
                    ),
                    lifetimes: if into {
                        st.lifetimes.push(next_tag)
                    } else {
                        st.lifetimes
                    },
                    params: st.params.push(p2),
                    fatal: false,
                }
            }
        }
    }
}

/// The bound allocator folded over a parameter list in declaration
/// order, starting from fresh pools.
pub open spec fn spec_bounds_fold(env: &Env, params: Seq<ParameterView>) -> BoundsFold
    decreases params.len(),
{
    if params.len() == 0 {
        BoundsFold {
            used: Seq::empty(),
            lifetimes: Seq::empty(),
            params: Seq::empty(),
            fatal: false,
        }
    } else {
        spec_bounds_step(env, spec_bounds_fold(env, params.drop_last()), params.last())
    }
}

/// One analyzed function: the declared facts plus what the three
/// per-function analyses decided.
#[derive(Debug)]
pub struct Info {
    pub name: String,
    /// The native entry-point symbol.
    pub glib_name: String,
    pub kind: FunctionKind,
    /// Cleared when the function is extracted as a special function.
    pub visible: bool,
    /// The parameters, with conversion suffixes applied, up to where
    /// analysis ran.
    pub parameters: Vec<Parameter>,
    pub ret: Parameter,
    pub throws: bool,
    pub version: Option<Version>,
    pub bounds: Bounds,
    pub outs: out_parameters::Info,
    pub unsupported_outs: bool,
    pub assertion: SafetyAssertionMode,
    /// The fatal configuration error of the bound allocator, if it was
    /// hit: letter-pool exhaustion naming the native symbol.
    pub bound_error: Option<String>,
}

/// Everything the analysis decides about one declared function, as a
/// relation between the declared function and its analysis record.
pub open spec fn spec_analyzed(
    env: &Env,
    func: Function,
    cfgs: Seq<FunctionConfig>,
    info: Info,
) -> bool {
    let lib = &env.library;
    let fold = spec_bounds_fold(env, func.parameters.deep_view());
    let elig = spec_eligible_outs(lib, func.parameters.deep_view());
    let mode = spec_out_mode(lib, &func);
    let override_cfg = spec_matched_ret_nullable(cfgs, func.name@);
    let pseudo_ret = (match override_cfg {
        Some(v) => ParameterView { nullable: v, ..func.ret@ },
        None => func.ret@,
    });
    &&& info.name@ == func.name@
    &&& info.glib_name@ == func.c_identifier@
    &&& info.kind == func.kind
    &&& info.throws == func.throws
    &&& info.version == func.version
    &&& info.ret@ == func.ret@
    &&& info.bounds.abs_used() == fold.used
    &&& info.bounds.lifetimes_seq() == fold.lifetimes
    &&& info.bounds.well_formed()
    &&& info.parameters.deep_view() == fold.params
    &&& (info.bound_error is Some) == fold.fatal
    &&& fold.fatal ==> info.bound_error.unwrap()@ == "Too many type constraints for "@
        + func.c_identifier@
    &&& info.outs.mode == mode
    &&& info.unsupported_outs == spec_has_unsupported_outs(lib, func.parameters.deep_view())
    &&& (if mode == Mode::Combined || mode == Mode::Throws(true) {
        &&& info.outs.params.deep_view().len() == elig.len() + 1
        &&& info.outs.params.deep_view().drop_first() == elig
        &&& info.outs.params.deep_view()[0] == pseudo_ret
    } else {
        info.outs.params.deep_view() == elig
    })
    &&& info.assertion == spec_of_params(env, func.parameters.deep_view())
}

/// Analyze one declared function: allocate its bounds parameter by
/// parameter, package its outputs, and decide its safety policy.
pub fn analyze_function(env: &Env, func: &Function, cfgs: &Vec<FunctionConfig>) -> (r: Info)
    ensures
        spec_analyzed(env, *func, cfgs@, r),
        r.visible,
{
    let ghost all = func.parameters.deep_view();
    let mut bounds: Bounds = Default::default();
    let mut new_params: Vec<Parameter> = Vec::new();
    let mut bound_error: Option<String> = None;
    proof {
        assert(all.take(0) =~= Seq::<ParameterView>::empty());
        assert(bounds.abs_used() =~= Seq::<(Seq<char>, char, Seq<char>, BoundType)>::empty());
        assert(new_params.deep_view() =~= Seq::<ParameterView>::empty());
    }
    let mut i: usize = 0;
    while i < func.parameters.len()
        invariant
            i <= all.len(),
            all == func.parameters.deep_view(),
            all.len() == func.parameters@.len(),
            bounds.well_formed(),
            ({
                let fold = spec_bounds_fold(env, all.take(i as int));
                &&& bounds.abs_used() == fold.used
                &&& bounds.lifetimes_seq() == fold.lifetimes
                &&& new_params.deep_view() == fold.params
                &&& (bound_error is Some) == fold.fatal
                &&& fold.fatal ==> bound_error.unwrap()@ == "Too many type constraints for "@
                    + func.c_identifier@
            }),
        decreases all.len() - i,
    {
        proof {
            assert(all.take(i + 1).drop_last() =~= all.take(i as int));
            assert(all.take(i + 1).last() == all[i as int]);
        }
        if bound_error.is_none() {
            let ghost pre = bounds;
            let mut par = clone_parameter(&func.parameters[i]);
            proof {
                assert(par@ == all[i as int]);
                lemma_is_bound_abs(bounds, par@.name);
            }
            match bounds.add_for_parameter(env, func, &mut par) {
                Ok(()) => {
                    new_params.push(par);
                    proof {
                        let st = spec_bounds_fold(env, all.take(i as int));
                        let next = spec_bounds_step(env, st, all[i as int]);
                        assert(bounds.abs_used() =~= next.used);
                        assert(new_params.deep_view() =~= next.params);
                    }
                },
                Err(e) => {
                    bound_error = Some(e);
                    proof {
                        let st = spec_bounds_fold(env, all.take(i as int));
                        let next = spec_bounds_step(env, st, all[i as int]);
                        assert(bounds.abs_used() =~= next.used);
                    }
                },
            }
        }
        i += 1;
    }
    proof {
        assert(all.take(all.len() as int) =~= all);
    }
    let override_cfg = matched_ret_nullable(cfgs, &func.name);
    let mut synth_cfgs: Vec<FunctionConfig> = Vec::new();
    if let Some(v) = override_cfg {
        synth_cfgs.push(FunctionConfig { name: func.name.clone(), ret_nullable: Some(v) });
    }
    proof {
        assert(out_parameters::spec_nullable_override(synth_cfgs@)
            == spec_matched_ret_nullable(cfgs@, func.name@));
    }
    let (outs, unsupported_outs) = out_parameters::analyze(env, func, &synth_cfgs);
    let assertion = SafetyAssertionMode::of(env, &func.parameters);
    Info {
        name: func.name.clone(),
        glib_name: func.c_identifier.clone(),
        kind: func.kind,
        visible: true,
        parameters: new_params,
        ret: clone_parameter(&func.ret),
        throws: func.throws,
        version: func.version,
        bounds,
        outs,
        unsupported_outs,
        assertion,
        bound_error,
    }
}

/// Analyze every declared function of one type, in declaration order,
/// against the type's configuration.
pub fn analyze(env: &Env, functions: &Vec<Function>, obj: &GObject) -> (r: Vec<Info>)
    ensures
        r@.len() == functions@.len(),
        forall|i: int|
            0 <= i < r@.len() ==> spec_analyzed(
                env,
                functions@[i],
                obj.functions@,
                #[trigger] r@[i],
            ) && r@[i].visible,
{
    let mut r: Vec<Info> = Vec::new();
    let mut k: usize = 0;
    while k < functions.len()
        invariant
            k <= functions@.len(),
            r@.len() == k,
            forall|i: int|
                0 <= i < k ==> spec_analyzed(
                    env,
                    functions@[i],
                    obj.functions@,
                    #[trigger] r@[i],
                ) && r@[i].visible,
        decreases functions@.len() - k,
    {
        let info = analyze_function(env, &functions[k], &obj.functions);
        r.push(info);
        k += 1;
    }
    r
}

} // verus!
