//! Per-type aggregation: compose the hierarchy, bound, output and
//! safety analyses into one record per analyzed class or interface,
//! and mark capability-interface methods in the run-wide symbol table.

use vstd::prelude::*;

use crate::config::GObject;
use crate::env::Env;
use crate::functions;
use crate::functions::spec_analyzed;
use crate::hierarchy::{spec_has_included_subtype, has_included_subtype};
use crate::info_base::{spec_has_visible_kind, InfoBase};
use crate::library::{Class, FunctionKind, Interface, Library, Property, Type, TypeId};
use crate::nameutil::{spec_first_dot, split_namespace_name};
use crate::properties;
use crate::properties::spec_supported_properties;
use crate::signals;
use crate::signals::spec_signal_supported;
use crate::special_functions;
use crate::special_functions::{
    spec_eq_mod_visible, spec_special_from_name, spec_special_symbol, spec_specials_of,
    SpecialType,
};
use crate::supertypes;
use crate::supertypes::{spec_statused_supertypes, StatusedTypeId};
use crate::symbols::Symbols;
use crate::version::Version;

verus! {

/// One analyzed class or interface.
#[derive(Debug)]
pub struct Info {
    pub base: InfoBase,
    pub c_type: String,
    pub get_type: String,
    pub supertypes: Vec<StatusedTypeId>,
    pub has_children: bool,
    pub has_constructors: bool,
    pub has_methods: bool,
    pub has_functions: bool,
    pub signals: Vec<signals::Info>,
    pub properties: Vec<Property>,
}

impl Info {
    /// Whether any analyzed signal can actually be connected to.
    pub fn has_signals(&self) -> (r: bool)
        ensures
            r == exists|i: int|
                0 <= i < self.signals@.len() && (#[trigger] self.signals@[i]).trampoline_name
                    is Ok,
    {
        let mut k: usize = 0;
        while k < self.signals.len()
            invariant
                k <= self.signals@.len(),
                forall|j: int|
                    0 <= j < k ==> !((#[trigger] self.signals@[j]).trampoline_name is Ok),
            decreases self.signals@.len() - k,
        {
            if self.signals[k].trampoline_name.is_ok() {
                return true;
            }
            k += 1;
        }
        false
    }
}

/// The identifier a class analysis targets: the name must resolve to a
/// declared class.
pub open spec fn spec_class_target(lib: &Library, name: Seq<char>) -> Option<TypeId> {
    match lib.spec_find_type(name) {
        Some(tid) => if lib.spec_type(tid) is Class {
            Some(tid)
        } else {
            None
        },
        None => None,
    }
}

/// The identifier an interface analysis targets.
pub open spec fn spec_interface_target(lib: &Library, name: Seq<char>) -> Option<TypeId> {
    match lib.spec_find_type(name) {
        Some(tid) => if lib.spec_type(tid) is Interface {
            Some(tid)
        } else {
            None
        },
        None => None,
    }
}

pub open spec fn spec_class_of(lib: &Library, tid: TypeId) -> Class {
    match lib.spec_type(tid) {
        Type::Class(c) => c,
        _ => arbitrary(),
    }
}

pub open spec fn spec_interface_of(lib: &Library, tid: TypeId) -> Interface {
    match lib.spec_type(tid) {
        Type::Interface(i) => i,
        _ => arbitrary(),
    }
}

/// The symbol table after the capability-interface marking of one
/// type: every symbol named by a visible method is routed through the
/// capability interface, everything else is untouched.
pub open spec fn spec_marked_symbols(
    sym: Seq<(Seq<char>, bool)>,
    fns: Seq<functions::Info>,
) -> Seq<(Seq<char>, bool)> {
    Seq::new(
        sym.len(),
        |j: int|
            (
                sym[j].0,
                sym[j].1 || exists|i: int|
                    0 <= i < fns.len() && (#[trigger] fns[i]).visible && fns[i].kind
                        == FunctionKind::Method && fns[i].glib_name@ == sym[j].0,
            ),
    )
}

/// The version gate of a type: its declared version, kept only above
/// the feature-gating threshold.
pub open spec fn spec_gated_version(env: &Env, version: Option<Version>) -> Option<Version> {
    match version {
        Some(v) => if env.config.min_cfg_version.spec_lt(v) {
            Some(v)
        } else {
            None
        },
        None => None,
    }
}

/// The facts the class aggregation promises of its record and of the
/// symbol table.
pub open spec fn spec_class_info_ok(
    env: &Env,
    obj: &GObject,
    tid: TypeId,
    info: &Info,
    sym_old: Seq<(Seq<char>, bool)>,
    sym_new: Seq<(Seq<char>, bool)>,
) -> bool {
    let lib = &env.library;
    let klass = spec_class_of(lib, tid);
    let d = spec_first_dot(obj.name@).unwrap();
    &&& info.base.type_id == tid
    &&& info.base.full_name@ == obj.name@
    &&& info.base.name@ == obj.name@.subrange(d + 1, obj.name@.len() as int)
    &&& info.c_type@ == klass.c_type@
    &&& info.get_type@ == klass.glib_get_type@
    &&& info.has_children == (obj.force_trait || spec_has_included_subtype(
        lib,
        &env.config.objects,
        tid,
    ))
    &&& ({
        let expected = spec_statused_supertypes(env, klass.supertypes@);
        &&& info.supertypes@.len() == expected.len()
        &&& forall|i: int|
            0 <= i < expected.len() ==> (#[trigger] info.supertypes@[i]).type_id
                == expected[i].0 && info.supertypes@[i].name@ == expected[i].1
                && info.supertypes@[i].status == expected[i].2
    })
    &&& info.base.functions@.len() == klass.functions@.len()
    &&& forall|i: int|
        0 <= i < klass.functions@.len() ==> spec_analyzed(
            env,
            klass.functions@[i],
            obj.functions@,
            #[trigger] info.base.functions@[i],
        )
    &&& info.base.specials@ == spec_specials_of(info.base.functions@)
    &&& forall|i: int|
        0 <= i < klass.functions@.len() ==> (#[trigger] info.base.functions@[i]).visible == ({
            let hidden = spec_special_from_name(klass.functions@[i].name@) is Some;
            let unhid = (match spec_special_symbol(info.base.specials@, SpecialType::Copy) {
                Some(sym) => klass.functions@[i].c_identifier@ == sym,
                None => false,
            });
            !hidden || unhid
        })
    &&& ({
        let expected = spec_supported_properties(env, klass.properties.deep_view());
        info.properties.deep_view() == expected
    })
    &&& info.signals@.len() == klass.signals@.len()
    &&& forall|i: int|
        0 <= i < info.signals@.len() ==> {
            let supported = spec_signal_supported(
                env,
                klass.signals@[i].parameters.deep_view(),
            );
            &&& (#[trigger] info.signals@[i]).name@ == klass.signals@[i].name@
            &&& info.signals@[i].trampoline_name is Ok == supported
        }
    &&& info.has_constructors == spec_has_visible_kind(
        info.base.functions@,
        FunctionKind::Constructor,
    )
    &&& info.has_methods == spec_has_visible_kind(info.base.functions@, FunctionKind::Method)
    &&& info.has_functions == spec_has_visible_kind(
        info.base.functions@,
        FunctionKind::Function,
    )
    &&& info.base.version == spec_gated_version(env, klass.version)
    &&& info.base.deprecated_version == klass.deprecated_version
    &&& sym_new == (if info.has_children {
        spec_marked_symbols(sym_old, info.base.functions@)
    } else {
        sym_old
    })
}

/// Mark every symbol named by a visible method as a
/// capability-interface method.
fn mark_trait_methods(symbols: &mut Symbols, fns: &Vec<functions::Info>)
    ensures
        final(symbols)@ == spec_marked_symbols(old(symbols)@, fns@),
{
    let ghost sym0 = old(symbols)@;
    let mut k: usize = 0;
    while k < fns.len()
        invariant
            k <= fns@.len(),
            symbols@.len() == sym0.len(),
            forall|j: int|
                0 <= j < sym0.len() ==> #[trigger] symbols@[j] == (
                sym0[j].0,
                sym0[j].1 || exists|i: int|
                    0 <= i < k && (#[trigger] fns@[i]).visible && fns@[i].kind
                        == FunctionKind::Method && fns@[i].glib_name@ == sym0[j].0,
            ),
        decreases fns@.len() - k,
    {
        let f = &fns[k];
        if f.visible && matches!(f.kind, FunctionKind::Method) {
            let ghost prev = symbols@;
            symbols.make_trait_method(&f.glib_name);
            proof {
                assert forall|j: int| 0 <= j < sym0.len() implies #[trigger] symbols@[j] == (
                    sym0[j].0,
                    sym0[j].1 || exists|i: int|
                        0 <= i < k + 1 && (#[trigger] fns@[i]).visible && fns@[i].kind
                            == FunctionKind::Method && fns@[i].glib_name@ == sym0[j].0,
                ) by {
                    assert(symbols@[j] == (prev[j].0, prev[j].1 || prev[j].0 == f.glib_name@));
                    if symbols@[j].1 && !sym0[j].1 {
                        if prev[j].1 {
                            let i = choose|i: int|
                                0 <= i < k && (#[trigger] fns@[i]).visible && fns@[i].kind
                                    == FunctionKind::Method && fns@[i].glib_name@ == sym0[j].0;
                            assert(0 <= i < k + 1 && fns@[i].visible && fns@[i].kind
                                == FunctionKind::Method && fns@[i].glib_name@ == sym0[j].0);
                        } else {
                            assert(fns@[k as int].visible && fns@[k as int].kind
                                == FunctionKind::Method && fns@[k as int].glib_name@
                                == sym0[j].0);
                        }
                    }
                }
            }
        } else {
            proof {
                assert forall|j: int| 0 <= j < sym0.len() implies #[trigger] symbols@[j] == (
                    sym0[j].0,
                    sym0[j].1 || exists|i: int|
                        0 <= i < k + 1 && (#[trigger] fns@[i]).visible && fns@[i].kind
                            == FunctionKind::Method && fns@[i].glib_name@ == sym0[j].0,
                ) by {
                    if symbols@[j].1 && !sym0[j].1 {
                        let i = choose|i: int|
                            0 <= i < k && (#[trigger] fns@[i]).visible && fns@[i].kind
                                == FunctionKind::Method && fns@[i].glib_name@ == sym0[j].0;
                        assert(0 <= i < k + 1 && fns@[i].visible && fns@[i].kind
                            == FunctionKind::Method && fns@[i].glib_name@ == sym0[j].0);
                    }
                }
            }
        }
        k += 1;
    }
    proof {
        assert(symbols@ =~= spec_marked_symbols(sym0, fns@));
    }
}

/// Law: a class has a capability interface exactly when configuration
/// forces one or a registered, included subtype exists.
pub proof fn lemma_class_has_children(
    env: &Env,
    obj: &GObject,
    tid: TypeId,
    info: &Info,
    sym_old: Seq<(Seq<char>, bool)>,
    sym_new: Seq<(Seq<char>, bool)>,
)
    requires
        spec_class_info_ok(env, obj, tid, info, sym_old, sym_new),
    ensures
        info.has_children == (obj.force_trait || spec_has_included_subtype(
            &env.library,
            &env.config.objects,
            tid,
        )),
{
}

/// Law: an interface always has a capability interface; polymorphism
/// is its entire purpose.
pub proof fn lemma_interface_has_children(env: &Env, obj: &GObject, tid: TypeId, info: &Info)
    requires
        spec_interface_info_ok(env, obj, tid, info),
    ensures
        info.has_children,
{
}

/// Analyze one configured class: resolve it in the graph, gather its
/// included supertypes, decide its capability interface, analyze every
/// declared function, extract the special functions, and mark the
/// capability-interface methods in the symbol table. A name that does
/// not resolve to a class yields nothing.
pub fn class(env: &Env, obj: &GObject, symbols: &mut Symbols) -> (r: Option<Info>)
    ensures
        ({
            let target = spec_class_target(&env.library, obj.name@);
            &&& (r is Some <==> target is Some)
            &&& target is None ==> final(symbols)@ == old(symbols)@
            &&& (r is Some && target is Some) ==> spec_class_info_ok(
                env,
                obj,
                target.unwrap(),
                &r.unwrap(),
                old(symbols)@,
                final(symbols)@,
            )
        }),
{
    let full_name = obj.name.clone();
    let class_tid = match env.library.find_type(full_name.as_str()) {
        Some(tid) => tid,
        None => {
            return None;
        },
    };
    let type_ = match env.library.type_(class_tid) {
        Some(t) => t,
        None => {
            return None;
        },
    };
    let klass: &Class = match type_ {
        Type::Class(c) => c,
        _ => {
            return None;
        },
    };
    let (_ns, name) = split_namespace_name(full_name.as_str());
    let supertypes = supertypes::analyze(env, class_tid);
    let mut has_children = obj.force_trait;
    if !has_children {
        has_children = has_included_subtype(&env.library, &env.config.objects, class_tid);
    }
    let analyzed = functions::analyze(env, &klass.functions, obj);
    let ghost analyzed_view = analyzed@;
    let (hidden, specials) = special_functions::extract(analyzed);
    let ghost hidden_view = hidden@;
    let final_functions = special_functions::unhide(hidden, &specials, SpecialType::Copy);
    proof {
        special_functions::lemma_specials_congruent(hidden_view, analyzed_view);
        special_functions::lemma_specials_congruent(final_functions@, hidden_view);
        assert forall|i: int| 0 <= i < klass.functions@.len() implies spec_analyzed(
            env,
            klass.functions@[i],
            obj.functions@,
            #[trigger] final_functions@[i],
        ) by {
            special_functions::lemma_analyzed_mod_visible(
                env,
                klass.functions@[i],
                obj.functions@,
                analyzed_view[i],
                final_functions@[i],
            );
        }
    }
    let signals_info = signals::analyze(env, &klass.signals);
    let properties_info = properties::analyze(env, &klass.properties);
    let version = env.config.filter_version(klass.version);
    if has_children {
        mark_trait_methods(symbols, &final_functions);
    }
    let base = InfoBase {
        full_name,
        type_id: class_tid,
        name,
        functions: final_functions,
        specials,
        version,
        deprecated_version: klass.deprecated_version,
    };
    let has_constructors = base.has_kind(FunctionKind::Constructor);
    let has_methods = base.has_kind(FunctionKind::Method);
    let has_functions = base.has_kind(FunctionKind::Function);
    let info = Info {
        base,
        c_type: klass.c_type.clone(),
        get_type: klass.glib_get_type.clone(),
        supertypes,
        has_children,
        has_constructors,
        has_methods,
        has_functions,
        signals: signals_info,
        properties: properties_info,
    };
    Some(info)
}

/// The facts the interface aggregation promises: as a class, but a
/// capability interface always exists, no special function is
/// extracted, and the symbol table is untouched.
pub open spec fn spec_interface_info_ok(
    env: &Env,
    obj: &GObject,
    tid: TypeId,
    info: &Info,
) -> bool {
    let lib = &env.library;
    let iface = spec_interface_of(lib, tid);
    let d = spec_first_dot(obj.name@).unwrap();
    &&& info.base.type_id == tid
    &&& info.base.full_name@ == obj.name@
    &&& info.base.name@ == obj.name@.subrange(d + 1, obj.name@.len() as int)
    &&& info.c_type@ == iface.c_type@
    &&& info.get_type@ == iface.glib_get_type@
    &&& info.has_children
    &&& ({
        let expected = spec_statused_supertypes(env, iface.supertypes@);
        &&& info.supertypes@.len() == expected.len()
        &&& forall|i: int|
            0 <= i < expected.len() ==> (#[trigger] info.supertypes@[i]).type_id
                == expected[i].0 && info.supertypes@[i].name@ == expected[i].1
                && info.supertypes@[i].status == expected[i].2
    })
    &&& info.base.functions@.len() == iface.functions@.len()
    &&& forall|i: int|
        0 <= i < iface.functions@.len() ==> spec_analyzed(
            env,
            iface.functions@[i],
            obj.functions@,
            #[trigger] info.base.functions@[i],
        ) && info.base.functions@[i].visible
    &&& info.base.specials@ == Seq::<(SpecialType, Seq<char>)>::empty()
    &&& ({
        let expected = spec_supported_properties(env, iface.properties.deep_view());
        info.properties.deep_view() == expected
    })
    &&& info.signals@.len() == iface.signals@.len()
    &&& forall|i: int|
        0 <= i < info.signals@.len() ==> {
            let supported = spec_signal_supported(
                env,
                iface.signals@[i].parameters.deep_view(),
            );
            &&& (#[trigger] info.signals@[i]).name@ == iface.signals@[i].name@
            &&& info.signals@[i].trampoline_name is Ok == supported
        }
    &&& info.has_methods == spec_has_visible_kind(info.base.functions@, FunctionKind::Method)
    &&& !info.has_constructors
    &&& !info.has_functions
    &&& info.base.version == spec_gated_version(env, iface.version)
    &&& info.base.deprecated_version == iface.deprecated_version
}

/// Analyze one configured interface. Polymorphism is an interface's
/// entire purpose, so a capability interface always exists; the symbol
/// table is not written.
pub fn interface(env: &Env, obj: &GObject) -> (r: Option<Info>)
    ensures
        ({
            let target = spec_interface_target(&env.library, obj.name@);
            &&& (r is Some <==> target is Some)
            &&& (r is Some && target is Some) ==> spec_interface_info_ok(
                env,
                obj,
                target.unwrap(),
                &r.unwrap(),
            )
        }),
{
    let full_name = obj.name.clone();
    let iface_tid = match env.library.find_type(full_name.as_str()) {
        Some(tid) => tid,
        None => {
            return None;
        },
    };
    let type_ = match env.library.type_(iface_tid) {
        Some(t) => t,
        None => {
            return None;
        },
    };
    let iface: &Interface = match type_ {
        Type::Interface(i) => i,
        _ => {
            return None;
        },
    };
    let (_ns, name) = split_namespace_name(full_name.as_str());
    let supertypes = supertypes::analyze(env, iface_tid);
    let final_functions = functions::analyze(env, &iface.functions, obj);
    let signals_info = signals::analyze(env, &iface.signals);
    let properties_info = properties::analyze(env, &iface.properties);
    let version = env.config.filter_version(iface.version);
    let base = InfoBase {
        full_name,
        type_id: iface_tid,
        name,
        functions: final_functions,
        specials: special_functions::Specials::new(),
        version,
        deprecated_version: iface.deprecated_version,
    };
    let has_methods = base.has_kind(FunctionKind::Method);
    let info = Info {
        base,
        c_type: iface.c_type.clone(),
        get_type: iface.glib_get_type.clone(),
        supertypes,
        has_children: true,
        has_constructors: false,
        has_methods,
        has_functions: false,
        signals: signals_info,
        properties: properties_info,
    };
    Some(info)
}

} // verus!
