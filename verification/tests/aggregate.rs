use gir_analysis::config::{Config, GObject, GObjects, GStatus};
use gir_analysis::env::Env;
use gir_analysis::library::{
    Class, Function, FunctionKind, Fundamental, Interface, Library, Namespace, Nullable,
    Parameter, ParameterDirection, Property, Signal, Type, TypeId,
};
use gir_analysis::object;
use gir_analysis::symbols::Symbols;
use gir_analysis::version::Version;

const TID_VOID: TypeId = TypeId { ns_id: 0, id: 0 };
const TID_INT32: TypeId = TypeId { ns_id: 0, id: 1 };
const TID_RAW_POINTER: TypeId = TypeId { ns_id: 0, id: 2 };

fn internal_namespace() -> Namespace {
    Namespace {
        name: "Internal".to_owned(),
        types: vec![
            Type::Fundamental(Fundamental::Void),
            Type::Fundamental(Fundamental::Int32),
            Type::Fundamental(Fundamental::Pointer),
        ],
    }
}

fn param(name: &str, typ: TypeId, direction: ParameterDirection) -> Parameter {
    Parameter {
        name: name.to_owned(),
        typ,
        direction,
        nullable: Nullable(false),
        caller_allocates: false,
        instance_parameter: false,
        to_glib_extra: String::new(),
    }
}

fn method(name: &str) -> Function {
    let mut receiver = param("self", TypeId { ns_id: 1, id: 0 }, ParameterDirection::In);
    receiver.instance_parameter = true;
    Function {
        name: name.to_owned(),
        c_identifier: format!("native_{}", name),
        kind: FunctionKind::Method,
        parameters: vec![receiver],
        ret: param("", TID_VOID, ParameterDirection::Out),
        throws: false,
        version: None,
    }
}

fn constructor(name: &str) -> Function {
    let mut f = method(name);
    f.kind = FunctionKind::Constructor;
    f.parameters = vec![];
    f
}

fn widget_class(functions: Vec<Function>, supertypes: Vec<TypeId>) -> Type {
    Type::Class(Class {
        name: "Widget".to_owned(),
        c_type: "GtkWidget".to_owned(),
        glib_get_type: "gtk_widget_get_type".to_owned(),
        supertypes,
        functions,
        signals: vec![Signal {
            name: "clicked".to_owned(),
            parameters: vec![param("data", TID_INT32, ParameterDirection::In)],
        }, Signal {
            name: "broken".to_owned(),
            parameters: vec![param("blob", TID_VOID, ParameterDirection::In)],
        }],
        properties: vec![Property {
            name: "label".to_owned(),
            typ: TID_INT32,
            readable: true,
            writable: true,
        }, Property {
            name: "opaque".to_owned(),
            typ: TID_VOID,
            readable: true,
            writable: false,
        }],
        version: Some(Version::new(3, 2, 0)),
        deprecated_version: None,
    })
}

fn plain_class(name: &str, supertypes: Vec<TypeId>) -> Type {
    Type::Class(Class {
        name: name.to_owned(),
        c_type: format!("Gtk{}", name),
        glib_get_type: format!("gtk_{}_get_type", name),
        supertypes,
        functions: vec![],
        signals: vec![],
        properties: vec![],
        version: None,
        deprecated_version: None,
    })
}

fn env_with(main_types: Vec<Type>, objects: Vec<GObject>) -> Env {
    Env {
        library: Library {
            namespaces: vec![
                internal_namespace(),
                Namespace { name: "Gtk".to_owned(), types: main_types },
            ],
        },
        config: Config {
            library_name: "gtk".to_owned(),
            library_version: "3.22".to_owned(),
            objects: GObjects { objects },
            generate_safety_asserts: false,
            min_cfg_version: Version::new(3, 0, 0),
        },
    }
}

fn gobject(name: &str, status: GStatus, force_trait: bool) -> GObject {
    GObject {
        name: name.to_owned(),
        status,
        force_trait,
        functions: vec![],
    }
}

#[test]
fn class_aggregation() {
    let env = env_with(
        vec![widget_class(
            vec![constructor("new"), method("frob"), method("copy"), method("free")],
            vec![],
        )],
        vec![],
    );
    let obj = gobject("Gtk.Widget", GStatus::Generate, true);
    let mut symbols = Symbols::new();
    symbols.add("native_frob");
    symbols.add("native_copy");
    symbols.add("unrelated");

    let info = object::class(&env, &obj, &mut symbols).expect("a declared class");
    assert_eq!(info.base.full_name, "Gtk.Widget".to_owned());
    assert_eq!(info.base.name, "Widget".to_owned());
    assert_eq!(info.base.type_id, TypeId { ns_id: 1, id: 0 });
    assert_eq!(info.c_type, "GtkWidget".to_owned());
    assert_eq!(info.get_type, "gtk_widget_get_type".to_owned());
    // forced capability interface
    assert!(info.has_children);
    assert!(info.has_constructors);
    assert!(info.has_methods);
    assert!(!info.has_functions);

    // copy and free are special; copy is unhidden so that it stays
    // callable, free stays hidden
    let visibles: Vec<(String, bool)> = info
        .base
        .functions
        .iter()
        .map(|f| (f.name.clone(), f.visible))
        .collect();
    assert_eq!(
        visibles,
        vec![
            ("new".to_owned(), true),
            ("frob".to_owned(), true),
            ("copy".to_owned(), true),
            ("free".to_owned(), false),
        ]
    );

    // visible methods are routed through the capability interface
    assert!(symbols.is_trait_method("native_frob"));
    assert!(symbols.is_trait_method("native_copy"));
    assert!(!symbols.is_trait_method("unrelated"));
    // the hidden special is not
    assert!(!symbols.is_trait_method("native_free"));

    // only the connectable signal keeps a trampoline
    assert_eq!(info.signals.len(), 2);
    assert!(info.signals[0].trampoline_name.is_ok());
    assert!(info.signals[1].trampoline_name.is_err());
    assert!(info.has_signals());

    // only the representable property survives
    assert_eq!(info.properties.len(), 1);
    assert_eq!(info.properties[0].name, "label".to_owned());

    // 3.2 lies above the 3.0 threshold, so it is feature-gated
    assert_eq!(info.base.version, Some(Version::new(3, 2, 0)));
}

#[test]
fn class_absent_when_unresolvable() {
    let env = env_with(vec![], vec![]);
    let obj = gobject("Gtk.Missing", GStatus::Generate, false);
    let mut symbols = Symbols::new();
    assert!(object::class(&env, &obj, &mut symbols).is_none());

    // a name resolving to a fundamental is not a class either
    let obj2 = gobject("Internal.Int32", GStatus::Generate, false);
    assert!(object::class(&env, &obj2, &mut symbols).is_none());
}

#[test]
fn has_children_ignores_excluded_subtypes() {
    // three classes; the only subtype of Base is excluded, so Base gets
    // no capability interface
    let base = TypeId { ns_id: 1, id: 0 };
    let env = env_with(
        vec![
            plain_class("Base", vec![]),
            plain_class("SubExcluded", vec![base]),
            plain_class("Other", vec![]),
        ],
        vec![gobject("Gtk.SubExcluded", GStatus::Ignore, false)],
    );
    let obj = gobject("Gtk.Base", GStatus::Generate, false);
    let mut symbols = Symbols::new();
    let info = object::class(&env, &obj, &mut symbols).expect("a declared class");
    assert!(!info.has_children);
}

#[test]
fn has_children_sees_included_subtype() {
    let base = TypeId { ns_id: 1, id: 0 };
    let env = env_with(
        vec![
            plain_class("Base", vec![]),
            plain_class("SubExcluded", vec![base]),
            plain_class("SubIncluded", vec![base]),
        ],
        vec![gobject("Gtk.SubExcluded", GStatus::Ignore, false)],
    );
    let obj = gobject("Gtk.Base", GStatus::Generate, false);
    let mut symbols = Symbols::new();
    let info = object::class(&env, &obj, &mut symbols).expect("a declared class");
    assert!(info.has_children);
}

#[test]
fn no_capability_interface_leaves_symbols_alone() {
    let env = env_with(
        vec![widget_class(vec![method("frob")], vec![])],
        vec![],
    );
    let obj = gobject("Gtk.Widget", GStatus::Generate, false);
    let mut symbols = Symbols::new();
    symbols.add("native_frob");
    let info = object::class(&env, &obj, &mut symbols).expect("a declared class");
    assert!(!info.has_children);
    assert!(!symbols.is_trait_method("native_frob"));
}

#[test]
fn interface_always_has_children() {
    let env = env_with(
        vec![Type::Interface(Interface {
            name: "Orientable".to_owned(),
            c_type: "GtkOrientable".to_owned(),
            glib_get_type: "gtk_orientable_get_type".to_owned(),
            supertypes: vec![],
            functions: vec![method("orient")],
            signals: vec![],
            properties: vec![],
            version: None,
            deprecated_version: None,
        })],
        vec![],
    );
    let obj = gobject("Gtk.Orientable", GStatus::Generate, false);
    let info = object::interface(&env, &obj).expect("a declared interface");
    assert!(info.has_children);
    assert!(info.has_methods);
    assert!(!info.has_constructors);
    assert_eq!(info.base.name, "Orientable".to_owned());
}

#[test]
fn supertypes_filtered_by_status() {
    let base = TypeId { ns_id: 1, id: 0 };
    let hidden_base = TypeId { ns_id: 1, id: 1 };
    let env = env_with(
        vec![
            plain_class("Base", vec![]),
            plain_class("HiddenBase", vec![]),
            plain_class("Leaf", vec![base, hidden_base]),
        ],
        vec![gobject("Gtk.HiddenBase", GStatus::Ignore, false)],
    );
    let obj = gobject("Gtk.Leaf", GStatus::Generate, false);
    let mut symbols = Symbols::new();
    let info = object::class(&env, &obj, &mut symbols).expect("a declared class");
    assert_eq!(info.supertypes.len(), 1);
    assert_eq!(info.supertypes[0].type_id, base);
    assert_eq!(info.supertypes[0].name, "Gtk.Base".to_owned());
}
