//! Resolution of how a function's native output parameters and its
//! return value combine into one packaged result.

use vstd::prelude::*;

use crate::config::FunctionConfig;
use crate::conversion_type::{spec_of, ConversionType};
use crate::env::Env;
use crate::imports::{spec_add, Imports};
use crate::library::{
    clone_parameter, Function, Fundamental, Library, Nullable, Parameter, ParameterDirection,
    ParameterView, Type, TypeId,
};
use crate::rust_type::{rust_type, spec_rust_type};
use crate::version::Version;

verus! {

/// The packaging mode of a function's outputs.
#[derive(Clone, Copy, Debug, PartialEq, Eq, Structural)]
pub enum Mode {
    /// Nothing to package.
    Empty,
    /// Output parameters alone; the return value carries nothing.
    Normal,
    /// A boolean return gates the outputs: absent on `false`.
    Optional,
    /// The return value joins the outputs at the front of the package.
    Combined,
    /// An error channel exists; the payload says whether the return
    /// value still carries information.
    Throws(bool),
}

impl Default for Mode {
    fn default() -> (r: Mode)
        ensures
            r == Mode::Empty,
    {
        Mode::Empty
    }
}

/// The packaged output of one function: its mode and the packaged
/// parameters, the synthesized return pseudo-parameter first.
#[derive(Debug)]
pub struct Info {
    pub mode: Mode,
    pub params: Vec<Parameter>,
}

impl Info {
    /// Nothing is packaged exactly in mode `Empty`.
    pub fn is_empty(&self) -> (r: bool)
        ensures
            r == (self.mode == Mode::Empty),
    {
        matches!(self.mode, Mode::Empty)
    }

    /// The packaged parameters, in packaging order.
    pub fn iter(&self) -> (r: &Vec<Parameter>)
        ensures
            r@ == self.params@,
    {
        &self.params
    }

    pub fn len(&self) -> (r: usize)
        ensures
            r == self.params@.len(),
    {
        self.params.len()
    }
}

impl Default for Info {
    fn default() -> (r: Info)
        ensures
            r.mode == Mode::Empty,
            r.params@.len() == 0,
    {
        Info { mode: Mode::Empty, params: Vec::new() }
    }
}

/// Whether the type behind `tid` is the given fundamental.
pub open spec fn spec_is_fundamental(lib: &Library, tid: TypeId, f: Fundamental) -> bool {
    lib.spec_resolves(tid) && lib.spec_type(tid) == Type::Fundamental(f)
}

fn is_fundamental(env: &Env, tid: TypeId, f: Fundamental) -> (r: bool)
    ensures
        r == spec_is_fundamental(&env.library, tid, f),
{
    match env.library.type_(tid) {
        Some(t) => match t {
            Type::Fundamental(g) => *g == f,
            _ => false,
        },
        None => false,
    }
}

/// Whether an output parameter can travel in the packaged result:
/// direct and scalar values always can; pointers only when a valid
/// owned representation exists; borrows and unknowns never can.
pub open spec fn spec_can_as_return(lib: &Library, p: ParameterView) -> bool {
    match spec_of(lib, p.typ) {
        ConversionType::Direct => true,
        ConversionType::Scalar => true,
        ConversionType::Pointer => spec_rust_type(lib, p.typ) is Ok,
        ConversionType::Borrow => false,
        ConversionType::Unknown => false,
    }
}

fn can_as_return(env: &Env, par: &Parameter) -> (r: bool)
    ensures
        r == spec_can_as_return(&env.library, par@),
{
    match ConversionType::of(&env.library, par.typ) {
        ConversionType::Direct => true,
        ConversionType::Scalar => true,
        ConversionType::Pointer => rust_type(&env.library, par.typ).is_ok(),
        ConversionType::Borrow => false,
        ConversionType::Unknown => false,
    }
}

/// Whether a throwing function's return value still carries
/// information once the error channel exists: false only for a
/// redundant success signal — no return at all, a boolean, or an
/// unsigned count.
pub open spec fn spec_use_function_return_for_result(lib: &Library, ret: ParameterView) -> bool {
    if lib.spec_resolves(ret.typ) {
        match lib.spec_type(ret.typ) {
            Type::Fundamental(f) => !(f == Fundamental::UInt || f == Fundamental::Boolean
                || f == Fundamental::Void),
            _ => true,
        }
    } else {
        true
    }
}

fn use_function_return_for_result(env: &Env, ret: &Parameter) -> (r: bool)
    ensures
        r == spec_use_function_return_for_result(&env.library, ret@),
{
    match env.library.type_(ret.typ) {
        Some(t) => match t {
            Type::Fundamental(f) => !(matches!(f, Fundamental::UInt) || matches!(
                f,
                Fundamental::Boolean,
            ) || matches!(f, Fundamental::Void)),
            _ => true,
        },
        None => true,
    }
}

/// The mode a function's throwing behaviour and return type select,
/// before the eligible outputs are counted.
pub open spec fn spec_base_mode(lib: &Library, func: &Function) -> Mode {
    if func.throws {
        Mode::Throws(spec_use_function_return_for_result(lib, func.ret@))
    } else if spec_is_fundamental(lib, func.ret.typ, Fundamental::Void) {
        Mode::Normal
    } else if spec_is_fundamental(lib, func.ret.typ, Fundamental::Boolean) {
        Mode::Optional
    } else {
        Mode::Combined
    }
}

/// The output parameters that survive packaging, in declaration order.
pub open spec fn spec_eligible_outs(lib: &Library, params: Seq<ParameterView>) -> Seq<
    ParameterView,
>
    decreases params.len(),
{
    if params.len() == 0 {
        Seq::empty()
    } else {
        let prefix = spec_eligible_outs(lib, params.drop_last());
        let p = params.last();
        if p.direction == ParameterDirection::Out && spec_can_as_return(lib, p) {
            prefix.push(p)
        } else {
            prefix
        }
    }
}

/// Whether any output parameter had to be dropped from the package.
pub open spec fn spec_has_unsupported_outs(lib: &Library, params: Seq<ParameterView>) -> bool {
    exists|i: int|
        0 <= i < params.len() && params[i].direction == ParameterDirection::Out
            && !spec_can_as_return(lib, params[i])
}

/// The mode the analysis settles on: no eligible output forces `Empty`.
pub open spec fn spec_out_mode(lib: &Library, func: &Function) -> Mode {
    if spec_eligible_outs(lib, func.parameters.deep_view()).len() == 0 {
        Mode::Empty
    } else {
        spec_base_mode(lib, func)
    }
}

/// The first explicit nullability override among the matching
/// configuration entries.
pub open spec fn spec_nullable_override(cfgs: Seq<FunctionConfig>) -> Option<Nullable>
    decreases cfgs.len(),
{
    if cfgs.len() == 0 {
        None
    } else {
        match cfgs[0].ret_nullable {
            Some(v) => Some(v),
            None => spec_nullable_override(cfgs.drop_first()),
        }
    }
}

fn nullable_override(cfgs: &Vec<FunctionConfig>) -> (r: Option<Nullable>)
    ensures
        r == spec_nullable_override(cfgs@),
{
    let ghost all = cfgs@;
    proof {
        assert(all.skip(0) =~= all);
    }
    let mut k: usize = 0;
    while k < cfgs.len()
        invariant
            k <= all.len(),
            all == cfgs@,
            spec_nullable_override(all) == spec_nullable_override(all.skip(k as int)),
        decreases all.len() - k,
    {
        proof {
            assert(all.skip(k as int)[0] == all[k as int]);
        }
        if let Some(v) = cfgs[k].ret_nullable {
            return Some(v);
        }
        proof {
            assert(all.skip(k as int).drop_first() =~= all.skip(k + 1));
        }
        k += 1;
    }
    None
}

/// The synthesized return pseudo-parameter: the declared return value
/// with the first configured nullability override applied.
pub open spec fn spec_ret_pseudo_param(func: &Function, cfgs: Seq<FunctionConfig>) -> ParameterView {
    match spec_nullable_override(cfgs) {
        Some(v) => ParameterView { nullable: v, ..func.ret@ },
        None => func.ret@,
    }
}

/// Package a function's outputs. The answer's second half reports
/// whether any output parameter was dropped as unsupported.
pub fn analyze(env: &Env, func: &Function, configured_functions: &Vec<FunctionConfig>) -> (r: (
    Info,
    bool,
))
    ensures
        ({
            let lib = &env.library;
            let elig = spec_eligible_outs(lib, func.parameters.deep_view());
            let mode = spec_out_mode(lib, func);
            &&& r.0.mode == mode
            &&& r.1 == spec_has_unsupported_outs(lib, func.parameters.deep_view())
            &&& if mode == Mode::Combined || mode == Mode::Throws(true) {
                &&& r.0.params.deep_view().len() == elig.len() + 1
                &&& r.0.params.deep_view().drop_first() == elig
                &&& r.0.params.deep_view()[0] == spec_ret_pseudo_param(
                    func,
                    configured_functions@,
                )
            } else {
                r.0.params.deep_view() == elig
            }
        }),
{
    let ghost lib = &env.library;
    let ghost all = func.parameters.deep_view();
    let use_ret = use_function_return_for_result(env, &func.ret);
    let mut mode: Mode = if func.throws {
        Mode::Throws(use_ret)
    } else if is_fundamental(env, func.ret.typ, Fundamental::Void) {
        Mode::Normal
    } else if is_fundamental(env, func.ret.typ, Fundamental::Boolean) {
        Mode::Optional
    } else {
        Mode::Combined
    };
    proof {
        assert(mode == spec_base_mode(lib, func));
        assert(all.take(0) =~= Seq::<ParameterView>::empty());
    }
    let mut params: Vec<Parameter> = Vec::new();
    let mut unsupported_outs = false;
    let mut i: usize = 0;
    while i < func.parameters.len()
        invariant
            i <= all.len(),
            lib == &env.library,
            all == func.parameters.deep_view(),
            all.len() == func.parameters@.len(),
            params.deep_view() == spec_eligible_outs(lib, all.take(i as int)),
            unsupported_outs == (exists|j: int|
                0 <= j < i && all[j].direction == ParameterDirection::Out
                    && !spec_can_as_return(lib, all[j])),
        decreases all.len() - i,
    {
        let par = &func.parameters[i];
        proof {
            assert(all[i as int] == par@);
            assert(all.take(i + 1).drop_last() =~= all.take(i as int));
            assert(all.take(i + 1).last() == all[i as int]);
        }
        if matches!(par.direction, ParameterDirection::Out) {
            if can_as_return(env, par) {
                params.push(clone_parameter(par));
                proof {
                    assert(params.deep_view() =~= spec_eligible_outs(
                        lib,
                        all.take(i as int),
                    ).push(par@));
                }
            } else {
                unsupported_outs = true;
            }
        }
        i += 1;
    }
    proof {
        assert(all.take(all.len() as int) =~= all);
    }
    if params.len() == 0 {
        mode = Mode::Empty;
        proof {
            assert(spec_eligible_outs(lib, all).len() == 0);
        }
    }
    proof {
        assert(mode == spec_out_mode(lib, func));
    }
    if matches!(mode, Mode::Combined) || mode == Mode::Throws(true) {
        let mut ret = clone_parameter(&func.ret);
        if let Some(val) = nullable_override(configured_functions) {
            ret.nullable = val;
        }
        proof {
            assert(ret@ == spec_ret_pseudo_param(func, configured_functions@));
        }
        let ghost before = params.deep_view();
        params.insert(0, ret);
        proof {
            assert(params.deep_view().drop_first() =~= before);
        }
    }
    (Info { mode, params }, unsupported_outs)
}

/// The number of parameters the package of a function holds: the
/// eligible outputs, plus the synthesized return pseudo-parameter when
/// the mode carries the return value.
pub open spec fn spec_packaged_len(lib: &Library, func: &Function) -> nat {
    let elig = spec_eligible_outs(lib, func.parameters.deep_view());
    let mode = spec_out_mode(lib, func);
    if mode == Mode::Combined || mode == Mode::Throws(true) {
        elig.len() + 1
    } else {
        elig.len()
    }
}

/// Law: the packaged mode is `Empty` exactly when the packaged
/// parameter list is empty — for every function. Together with the
/// contract of [`analyze`] this holds of every analysis result.
pub proof fn lemma_empty_mode_iff_no_params(lib: &Library, func: &Function)
    ensures
        (spec_out_mode(lib, func) == Mode::Empty) <==> (spec_packaged_len(lib, func) == 0),
{
}

/// Law: a throwing function whose return type is a redundant success
/// signal packages as `Throws(false)`; any other throwing function
/// packages as `Throws(true)`. A throwing function with no eligible
/// output parameter at all packages as `Empty` instead, so the law
/// asks for at least one.
pub proof fn lemma_throws_mode(lib: &Library, func: &Function)
    requires
        func.throws,
        spec_eligible_outs(lib, func.parameters.deep_view()).len() > 0,
    ensures
        !spec_use_function_return_for_result(lib, func.ret@) ==> spec_out_mode(lib, func)
            == Mode::Throws(false),
        spec_use_function_return_for_result(lib, func.ret@) ==> spec_out_mode(lib, func)
            == Mode::Throws(true),
{
}

/// Law: a non-throwing function with at least one eligible output
/// packages as `Normal` on a void return, `Optional` on a boolean
/// return, and `Combined` on any other return type. In the `Combined`
/// case the contract of [`analyze`] places the synthesized return
/// pseudo-parameter at position zero.
pub proof fn lemma_nonthrowing_mode(lib: &Library, func: &Function)
    requires
        !func.throws,
        spec_eligible_outs(lib, func.parameters.deep_view()).len() > 0,
    ensures
        spec_is_fundamental(lib, func.ret.typ, Fundamental::Void) ==> spec_out_mode(lib, func)
            == Mode::Normal,
        !spec_is_fundamental(lib, func.ret.typ, Fundamental::Void) && spec_is_fundamental(
            lib,
            func.ret.typ,
            Fundamental::Boolean,
        ) ==> spec_out_mode(lib, func) == Mode::Optional,
        !spec_is_fundamental(lib, func.ret.typ, Fundamental::Void) && !spec_is_fundamental(
            lib,
            func.ret.typ,
            Fundamental::Boolean,
        ) ==> spec_out_mode(lib, func) == Mode::Combined,
{
}

/// The imports a function's output parameters need: out-parameters the
/// callee fills in place take a zeroed slot, the rest a null pointer.
pub open spec fn spec_after_out_imports(
    lib: &Library,
    v: Seq<(Seq<char>, Option<Version>)>,
    params: Seq<ParameterView>,
    version: Option<Version>,
) -> Seq<(Seq<char>, Option<Version>)>
    decreases params.len(),
{
    if params.len() == 0 {
        v
    } else {
        let prev = spec_after_out_imports(lib, v, params.drop_last(), version);
        let p = params.last();
        if p.direction == ParameterDirection::Out && !p.caller_allocates && lib.spec_resolves(
            p.typ,
        ) {
            match lib.spec_type(p.typ) {
                Type::Fundamental(_) => spec_add(prev, "std::mem"@, version),
                Type::Bitfield(_) => spec_add(prev, "std::mem"@, version),
                Type::Enumeration(_) => spec_add(prev, "std::mem"@, version),
                _ => spec_add(prev, "std::ptr"@, version),
            }
        } else {
            prev
        }
    }
}

/// Report the imports a function's output parameters need.
pub fn analyze_imports(env: &Env, func: &Function, imports: &mut Imports)
    ensures
        final(imports)@ == spec_after_out_imports(
            &env.library,
            old(imports)@,
            func.parameters.deep_view(),
            func.version,
        ),
{
    let ghost start = old(imports)@;
    let ghost all = func.parameters.deep_view();
    proof {
        assert(all.take(0) =~= Seq::<ParameterView>::empty());
    }
    let mut k: usize = 0;
    while k < func.parameters.len()
        invariant
            k <= all.len(),
            all == func.parameters.deep_view(),
            all.len() == func.parameters@.len(),
            imports@ == spec_after_out_imports(
                &env.library,
                start,
                all.take(k as int),
                func.version,
            ),
        decreases all.len() - k,
    {
        let par = &func.parameters[k];
        proof {
            assert(all[k as int] == par@);
            assert(all.take(k + 1).drop_last() =~= all.take(k as int));
            assert(all.take(k + 1).last() == all[k as int]);
        }
        if matches!(par.direction, ParameterDirection::Out) && !par.caller_allocates {
            match env.library.type_(par.typ) {
                Some(t) => match t {
                    Type::Fundamental(_) => imports.add("std::mem", func.version),
                    Type::Bitfield(_) => imports.add("std::mem", func.version),
                    Type::Enumeration(_) => imports.add("std::mem", func.version),
                    _ => imports.add("std::ptr", func.version),
                },
                None => (),
            }
        }
        k += 1;
    }
    proof {
        assert(all.take(all.len() as int) =~= all);
    }
}

} // verus!
