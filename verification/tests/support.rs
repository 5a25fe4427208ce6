use gir_analysis::bounds::{BoundType, Bounds};
use gir_analysis::config::{Config, FunctionConfig, GObject, GObjects, GStatus};
use gir_analysis::imports::Imports;
use gir_analysis::nameutil::{full_type_name, split_namespace_name};
use gir_analysis::version::Version;

#[test]
fn split_full_names() {
    assert_eq!(
        split_namespace_name("Gtk.Widget"),
        (Some("Gtk".to_owned()), "Widget".to_owned())
    );
    assert_eq!(split_namespace_name("Widget"), (None, "Widget".to_owned()));
    // only the first dot splits
    assert_eq!(
        split_namespace_name("A.B.C"),
        (Some("A".to_owned()), "B.C".to_owned())
    );
}

#[test]
fn join_full_names() {
    assert_eq!(full_type_name("Gtk", "Widget"), "Gtk.Widget".to_owned());
}

#[test]
fn version_ordering() {
    assert!(Version::new(3, 0, 0).lt(&Version::new(3, 2, 0)));
    assert!(Version::new(2, 9, 9).lt(&Version::new(3, 0, 0)));
    assert!(!Version::new(3, 2, 0).lt(&Version::new(3, 2, 0)));
    assert!(Version::new(3, 2, 0).lt(&Version::new(3, 2, 1)));
}

#[test]
fn filter_version_keeps_only_above_threshold() {
    let config = Config {
        library_name: "gtk".to_owned(),
        library_version: "3.22".to_owned(),
        objects: GObjects { objects: vec![] },
        generate_safety_asserts: false,
        min_cfg_version: Version::new(3, 0, 0),
    };
    assert_eq!(config.library_full_name(), "gtk-3.22".to_owned());
    assert_eq!(config.filter_version(None), None);
    assert_eq!(config.filter_version(Some(Version::new(2, 8, 0))), None);
    assert_eq!(config.filter_version(Some(Version::new(3, 0, 0))), None);
    assert_eq!(
        config.filter_version(Some(Version::new(3, 4, 0))),
        Some(Version::new(3, 4, 0))
    );
}

#[test]
fn object_status_defaults_to_generate() {
    let objects = GObjects {
        objects: vec![GObject {
            name: "Gtk.Hidden".to_owned(),
            status: GStatus::Ignore,
            force_trait: false,
            functions: vec![],
        }],
    };
    assert_eq!(objects.status_of(&"Gtk.Hidden".to_owned()), GStatus::Ignore);
    assert_eq!(objects.status_of(&"Gtk.Other".to_owned()), GStatus::Generate);
    assert!(!GStatus::Ignore.normal());
    assert!(GStatus::Manual.normal());
    assert!(GStatus::Ignore.ignored());
}

#[test]
fn imports_deduplicate_and_remove() {
    let mut imports = Imports::new();
    imports.add("glib::object::IsA", None);
    imports.add("std::mem", Some(Version::new(3, 2, 0)));
    imports.add("glib::object::IsA", Some(Version::new(9, 9, 9)));
    let entries = imports.entries();
    assert_eq!(entries.len(), 2);
    assert_eq!(entries[0].0, "glib::object::IsA".to_owned());
    // the first insertion wins
    assert_eq!(entries[0].1, None);
    imports.remove("glib::object::IsA");
    assert_eq!(imports.entries().len(), 1);
    assert_eq!(imports.entries()[0].0, "std::mem".to_owned());
}

#[test]
fn bound_imports_reported() {
    let mut bounds: Bounds = Default::default();
    bounds.add_parameter("w", "Widget", BoundType::IsA);
    bounds.add_parameter("path", "std::path::Path", BoundType::AsRef);
    bounds.add_parameter("text", "str", BoundType::Into('_'));
    let mut imports = Imports::new();
    bounds.update_imports(&mut imports);
    let names: Vec<String> = imports.entries().iter().map(|e| e.0.clone()).collect();
    assert_eq!(
        names,
        vec!["glib::object::IsA".to_owned(), "std::path::Path".to_owned()]
    );
}

#[test]
fn function_config_first_override_wins() {
    let cfgs = vec![
        FunctionConfig { name: "get".to_owned(), ret_nullable: None },
        FunctionConfig { name: "get".to_owned(), ret_nullable: Some(gir_analysis::library::Nullable(false)) },
        FunctionConfig { name: "get".to_owned(), ret_nullable: Some(gir_analysis::library::Nullable(true)) },
    ];
    let r = gir_analysis::config::matched_ret_nullable(&cfgs, &"get".to_owned());
    assert_eq!(r, Some(gir_analysis::library::Nullable(false)));
}
