use gir_analysis::config::{Config, FunctionConfig, GObject, GObjects, GStatus};
use gir_analysis::conversion_type::ConversionType;
use gir_analysis::env::Env;
use gir_analysis::library::{
    Class, Function, FunctionKind, Fundamental, Interface, Library, Namespace, Nullable,
    Parameter, ParameterDirection, Property, Signal, Type, TypeId,
};
use gir_analysis::out_parameters;
use gir_analysis::out_parameters::Mode;
use gir_analysis::safety_assertion_mode::SafetyAssertionMode;
use gir_analysis::version::Version;

// Indexes into the internal namespace built by `internal_namespace`.
const TID_VOID: TypeId = TypeId { ns_id: 0, id: 0 };
const TID_BOOL: TypeId = TypeId { ns_id: 0, id: 1 };
const TID_UINT: TypeId = TypeId { ns_id: 0, id: 2 };
const TID_INT32: TypeId = TypeId { ns_id: 0, id: 3 };
const TID_UTF8: TypeId = TypeId { ns_id: 0, id: 4 };
const TID_FILENAME: TypeId = TypeId { ns_id: 0, id: 5 };
const TID_RAW_POINTER: TypeId = TypeId { ns_id: 0, id: 6 };

fn internal_namespace() -> Namespace {
    Namespace {
        name: "Internal".to_owned(),
        types: vec![
            Type::Fundamental(Fundamental::Void),
            Type::Fundamental(Fundamental::Boolean),
            Type::Fundamental(Fundamental::UInt),
            Type::Fundamental(Fundamental::Int32),
            Type::Fundamental(Fundamental::Utf8),
            Type::Fundamental(Fundamental::Filename),
            Type::Fundamental(Fundamental::Pointer),
        ],
    }
}

fn param(name: &str, typ: TypeId, direction: ParameterDirection) -> Parameter {
    Parameter {
        name: name.to_owned(),
        typ,
        direction,
        nullable: Nullable(false),
        caller_allocates: false,
        instance_parameter: false,
        to_glib_extra: String::new(),
    }
}

fn nullable_param(name: &str, typ: TypeId, direction: ParameterDirection) -> Parameter {
    let mut p = param(name, typ, direction);
    p.nullable = Nullable(true);
    p
}

fn func(name: &str, kind: FunctionKind, parameters: Vec<Parameter>, ret: TypeId, throws: bool) -> Function {
    Function {
        name: name.to_owned(),
        c_identifier: format!("native_{}", name),
        kind,
        parameters,
        ret: param("", ret, ParameterDirection::Out),
        throws,
        version: None,
    }
}

fn simple_class(name: &str, supertypes: Vec<TypeId>) -> Type {
    Type::Class(Class {
        name: name.to_owned(),
        c_type: format!("G{}", name),
        glib_get_type: format!("g_{}_get_type", name),
        supertypes,
        functions: vec![],
        signals: vec![],
        properties: vec![],
        version: None,
        deprecated_version: None,
    })
}

fn env_with(main_types: Vec<Type>, objects: Vec<GObject>, safety: bool) -> Env {
    Env {
        library: Library {
            namespaces: vec![
                internal_namespace(),
                Namespace { name: "Gtk".to_owned(), types: main_types },
            ],
        },
        config: Config {
            library_name: "gtk".to_owned(),
            library_version: "3.22".to_owned(),
            objects: GObjects { objects },
            generate_safety_asserts: safety,
            min_cfg_version: Version::new(0, 0, 0),
        },
    }
}

fn gobject(name: &str, status: GStatus) -> GObject {
    GObject {
        name: name.to_owned(),
        status,
        force_trait: false,
        functions: vec![],
    }
}

#[test]
fn classify_fundamentals() {
    let env = env_with(vec![simple_class("Widget", vec![])], vec![], false);
    let lib = &env.library;
    assert_eq!(ConversionType::of(lib, TID_BOOL), ConversionType::Direct);
    assert_eq!(ConversionType::of(lib, TID_INT32), ConversionType::Direct);
    assert_eq!(ConversionType::of(lib, TID_UINT), ConversionType::Scalar);
    assert_eq!(ConversionType::of(lib, TID_UTF8), ConversionType::Pointer);
    assert_eq!(
        ConversionType::of(lib, TypeId { ns_id: 1, id: 0 }),
        ConversionType::Pointer
    );
    assert_eq!(ConversionType::of(lib, TID_RAW_POINTER), ConversionType::Borrow);
    assert_eq!(ConversionType::of(lib, TID_VOID), ConversionType::Unknown);
    // an identifier that resolves to nothing has no translation either
    assert_eq!(
        ConversionType::of(lib, TypeId { ns_id: 9, id: 9 }),
        ConversionType::Unknown
    );
}

#[test]
fn out_mode_empty_iff_no_outputs() {
    let env = env_with(vec![], vec![], false);
    let f = func("plain", FunctionKind::Function, vec![param("a", TID_INT32, ParameterDirection::In)], TID_VOID, false);
    let (info, unsupported) = out_parameters::analyze(&env, &f, &vec![]);
    assert_eq!(info.mode, Mode::Empty);
    assert_eq!(info.len(), 0);
    assert!(info.is_empty());
    assert!(!unsupported);
}

#[test]
fn out_mode_normal_optional_combined() {
    let env = env_with(vec![], vec![], false);
    let out = |n: &str| param(n, TID_INT32, ParameterDirection::Out);

    let void_ret = func("v", FunctionKind::Function, vec![out("o")], TID_VOID, false);
    let (info, _) = out_parameters::analyze(&env, &void_ret, &vec![]);
    assert_eq!(info.mode, Mode::Normal);
    assert_eq!(info.len(), 1);

    let bool_ret = func("b", FunctionKind::Function, vec![out("o")], TID_BOOL, false);
    let (info, _) = out_parameters::analyze(&env, &bool_ret, &vec![]);
    assert_eq!(info.mode, Mode::Optional);
    assert_eq!(info.len(), 1);

    let int_ret = func("i", FunctionKind::Function, vec![out("o")], TID_INT32, false);
    let (info, _) = out_parameters::analyze(&env, &int_ret, &vec![]);
    assert_eq!(info.mode, Mode::Combined);
    // the synthesized return pseudo-parameter serializes first
    assert_eq!(info.len(), 2);
    assert_eq!(info.iter()[0].name, "");
    assert_eq!(info.iter()[1].name, "o");
}

#[test]
fn throwing_with_redundant_return_drops_it() {
    // a throwing function returning an unsigned count, with one
    // eligible class-typed output parameter: the count is a redundant
    // success signal, so no pseudo-parameter is synthesized
    let env = env_with(vec![simple_class("Widget", vec![])], vec![], false);
    let widget = TypeId { ns_id: 1, id: 0 };
    let f = func(
        "load",
        FunctionKind::Function,
        vec![param("result", widget, ParameterDirection::Out)],
        TID_UINT,
        true,
    );
    let (info, unsupported) = out_parameters::analyze(&env, &f, &vec![]);
    assert_eq!(info.mode, Mode::Throws(false));
    assert_eq!(info.len(), 1);
    assert_eq!(info.iter()[0].name, "result");
    assert!(!unsupported);
}

#[test]
fn throwing_with_informative_return_keeps_it() {
    let env = env_with(vec![simple_class("Widget", vec![])], vec![], false);
    let widget = TypeId { ns_id: 1, id: 0 };
    let f = func(
        "load",
        FunctionKind::Function,
        vec![param("result", TID_INT32, ParameterDirection::Out)],
        widget,
        true,
    );
    let (info, _) = out_parameters::analyze(&env, &f, &vec![]);
    assert_eq!(info.mode, Mode::Throws(true));
    assert_eq!(info.len(), 2);
    assert_eq!(info.iter()[0].name, "");
}

#[test]
fn unsupported_outputs_are_dropped_and_flagged() {
    let env = env_with(vec![], vec![], false);
    let f = func(
        "read",
        FunctionKind::Function,
        vec![
            param("ok", TID_INT32, ParameterDirection::Out),
            param("buffer", TID_RAW_POINTER, ParameterDirection::Out),
        ],
        TID_VOID,
        false,
    );
    let (info, unsupported) = out_parameters::analyze(&env, &f, &vec![]);
    assert!(unsupported);
    assert_eq!(info.len(), 1);
    assert_eq!(info.iter()[0].name, "ok");
}

#[test]
fn nullable_override_applies_to_pseudo_return() {
    let env = env_with(vec![], vec![], false);
    let f = func("get", FunctionKind::Function, vec![param("o", TID_INT32, ParameterDirection::Out)], TID_INT32, false);
    let cfgs = vec![FunctionConfig { name: "get".to_owned(), ret_nullable: Some(Nullable(true)) }];
    let (info, _) = out_parameters::analyze(&env, &f, &cfgs);
    assert_eq!(info.mode, Mode::Combined);
    assert_eq!(info.iter()[0].nullable, Nullable(true));
}

#[test]
fn out_imports_reported() {
    let env = env_with(vec![simple_class("Widget", vec![])], vec![], false);
    let widget = TypeId { ns_id: 1, id: 0 };
    let f = func(
        "fill",
        FunctionKind::Function,
        vec![
            param("count", TID_INT32, ParameterDirection::Out),
            param("result", widget, ParameterDirection::Out),
        ],
        TID_VOID,
        false,
    );
    let mut imports = gir_analysis::imports::Imports::new();
    out_parameters::analyze_imports(&env, &f, &mut imports);
    let names: Vec<String> = imports.entries().iter().map(|e| e.0.clone()).collect();
    assert_eq!(names, vec!["std::mem".to_owned(), "std::ptr".to_owned()]);
}

#[test]
fn safety_policy_cases() {
    let widget = TypeId { ns_id: 1, id: 0 };
    let env_off = env_with(vec![simple_class("Widget", vec![])], vec![], false);
    let env_on = env_with(vec![simple_class("Widget", vec![])], vec![], true);

    let plain = vec![param("a", TID_INT32, ParameterDirection::In)];
    assert_eq!(SafetyAssertionMode::of(&env_off, &plain), SafetyAssertionMode::NoAssertion);
    assert_eq!(SafetyAssertionMode::of(&env_on, &plain), SafetyAssertionMode::InMainThread);

    let mut receiver = param("self", widget, ParameterDirection::In);
    receiver.instance_parameter = true;
    let method_params = vec![receiver, param("a", TID_INT32, ParameterDirection::In)];
    assert_eq!(
        SafetyAssertionMode::of(&env_on, &method_params),
        SafetyAssertionMode::NoAssertion
    );

    let with_class = vec![
        param("a", TID_INT32, ParameterDirection::In),
        param("w", widget, ParameterDirection::In),
    ];
    assert_eq!(SafetyAssertionMode::of(&env_on, &with_class), SafetyAssertionMode::Skip);

    // a nullable class argument proves nothing
    let with_nullable_class = vec![nullable_param("w", widget, ParameterDirection::In)];
    assert_eq!(
        SafetyAssertionMode::of(&env_on, &with_nullable_class),
        SafetyAssertionMode::InMainThread
    );
}

#[test]
fn bound_allocation_scenario() {
    // f(a: nullable text, b: non-null ClassX) where ClassX has one
    // registered subtype: a draws tag 'a' with a move conversion, b
    // draws the next letter with a polymorphic supertype bound
    let class_x = TypeId { ns_id: 1, id: 0 };
    let env = env_with(
        vec![
            simple_class("ClassX", vec![]),
            simple_class("SubX", vec![class_x]),
        ],
        vec![gobject("Gtk.SubX", GStatus::Generate)],
        false,
    );
    let f = func(
        "f",
        FunctionKind::Function,
        vec![
            nullable_param("a", TID_UTF8, ParameterDirection::In),
            param("b", class_x, ParameterDirection::In),
        ],
        TID_VOID,
        false,
    );
    let info = gir_analysis::functions::analyze_function(&env, &f, &vec![]);
    assert!(info.bound_error.is_none());
    let entries = info.bounds.iter();
    assert_eq!(entries.len(), 2);
    assert_eq!(entries[0].0, "a");
    assert_eq!(entries[0].1, 'T');
    assert_eq!(entries[0].3, gir_analysis::bounds::BoundType::Into('a'));
    assert_eq!(entries[1].0, "b");
    assert_eq!(entries[1].1, 'U');
    assert_eq!(entries[1].3, gir_analysis::bounds::BoundType::IsA);
    assert_eq!(info.parameters[0].to_glib_extra, ".into()".to_owned());
    assert_eq!(info.parameters[1].to_glib_extra, String::new());
}

#[test]
fn letter_pool_exhaustion_is_fatal() {
    let class_x = TypeId { ns_id: 1, id: 0 };
    let mut types = vec![simple_class("ClassX", vec![])];
    types.push(simple_class("SubX", vec![class_x]));
    let env = env_with(types, vec![], false);
    let mut params = Vec::new();
    for i in 0..8 {
        params.push(param(&format!("p{}", i), class_x, ParameterDirection::In));
    }
    let f = func("crowded", FunctionKind::Function, params, TID_VOID, false);
    let info = gir_analysis::functions::analyze_function(&env, &f, &vec![]);
    assert_eq!(
        info.bound_error,
        Some("Too many type constraints for native_crowded".to_owned())
    );
    assert_eq!(info.bounds.iter().len(), 7);
}

#[test]
fn duplicate_parameter_names_rejected_silently() {
    let class_x = TypeId { ns_id: 1, id: 0 };
    let env = env_with(
        vec![simple_class("ClassX", vec![]), simple_class("SubX", vec![class_x])],
        vec![],
        false,
    );
    let f = func(
        "twice",
        FunctionKind::Function,
        vec![
            param("same", class_x, ParameterDirection::In),
            param("same", class_x, ParameterDirection::In),
        ],
        TID_VOID,
        false,
    );
    let info = gir_analysis::functions::analyze_function(&env, &f, &vec![]);
    assert!(info.bound_error.is_none());
    assert_eq!(info.bounds.iter().len(), 1);
}

#[test]
fn tag_pool_exhaustion_drops_silently() {
    // seven owned conversions exhaust the tag pool; the eighth nullable
    // string parameter loses its bound but the function survives
    let env = env_with(vec![], vec![], false);
    let mut params = Vec::new();
    for i in 0..8 {
        params.push(nullable_param(&format!("s{}", i), TID_UTF8, ParameterDirection::In));
    }
    let f = func("texty", FunctionKind::Function, params, TID_VOID, false);
    let info = gir_analysis::functions::analyze_function(&env, &f, &vec![]);
    assert!(info.bound_error.is_none());
    assert_eq!(info.bounds.iter().len(), 7);
    assert_eq!(info.bounds.iter_lifetimes().len(), 7);
}
