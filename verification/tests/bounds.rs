use gir_analysis::bounds::{BoundType, Bounds};

#[test]
fn get_new_all() {
    let mut bounds: Bounds = Default::default();
    let typ = BoundType::IsA;
    assert_eq!(bounds.add_parameter("a", "", typ), true);
    // Don't add second time
    assert_eq!(bounds.add_parameter("a", "", typ), false);
    assert_eq!(bounds.add_parameter("b", "", typ), true);
    assert_eq!(bounds.add_parameter("c", "", typ), true);
    assert_eq!(bounds.add_parameter("d", "", typ), true);
    assert_eq!(bounds.add_parameter("e", "", typ), true);
    assert_eq!(bounds.add_parameter("f", "", typ), true);
    assert_eq!(bounds.add_parameter("g", "", typ), true);
    assert_eq!(bounds.add_parameter("h", "", typ), false);
}

#[test]
fn get_parameter_alias_info() {
    let mut bounds: Bounds = Default::default();
    let typ = BoundType::IsA;
    bounds.add_parameter("a", "", typ);
    bounds.add_parameter("b", "", typ);
    assert_eq!(bounds.get_parameter_alias_info("a"), Some(('T', typ)));
    assert_eq!(bounds.get_parameter_alias_info("b"), Some(('U', typ)));
    assert_eq!(bounds.get_parameter_alias_info("c"), None);
}

#[test]
fn letters_assigned_in_pool_order() {
    let mut bounds: Bounds = Default::default();
    let names = ["p1", "p2", "p3", "p4", "p5", "p6", "p7"];
    for name in names.iter() {
        assert!(bounds.add_parameter(name, "X", BoundType::IsA));
    }
    let letters: Vec<char> = bounds.iter().iter().map(|e| e.1).collect();
    assert_eq!(letters, vec!['T', 'U', 'V', 'W', 'X', 'Y', 'Z']);
}

#[test]
fn lifetimes_assigned_in_pool_order() {
    let mut bounds: Bounds = Default::default();
    assert!(bounds.add_parameter("p1", "S", BoundType::Into('_')));
    assert!(bounds.add_parameter("p2", "S", BoundType::Into('_')));
    assert!(bounds.add_parameter("p3", "S", BoundType::Into('_')));
    assert_eq!(bounds.iter_lifetimes().clone(), vec!['a', 'b', 'c']);
    assert_eq!(
        bounds.get_parameter_alias_info("p1"),
        Some(('T', BoundType::Into('a')))
    );
    assert_eq!(
        bounds.get_parameter_alias_info("p3"),
        Some(('V', BoundType::Into('c')))
    );
}

#[test]
fn duplicate_names_never_bound_twice() {
    let mut bounds: Bounds = Default::default();
    assert!(bounds.add_parameter("x", "A", BoundType::IsA));
    assert!(!bounds.add_parameter("x", "B", BoundType::AsRef));
    assert!(!bounds.add_parameter("x", "C", BoundType::Into('_')));
    assert_eq!(bounds.iter().len(), 1);
    assert_eq!(bounds.get_parameter_alias_info("x"), Some(('T', BoundType::IsA)));
}

#[test]
fn pools_never_exceed_seven() {
    let mut bounds: Bounds = Default::default();
    let names = ["q1", "q2", "q3", "q4", "q5", "q6", "q7", "q8", "q9"];
    for name in names.iter() {
        bounds.add_parameter(name, "S", BoundType::Into('_'));
    }
    assert_eq!(bounds.iter().len(), 7);
    assert_eq!(bounds.iter_lifetimes().len(), 7);
}

#[test]
fn to_glib_extra_suffixes() {
    assert_eq!(Bounds::to_glib_extra(BoundType::AsRef), ".as_ref()".to_owned());
    assert_eq!(Bounds::to_glib_extra(BoundType::Into('a')), ".into()".to_owned());
    assert_eq!(Bounds::to_glib_extra(BoundType::IsA), String::new());
}

#[test]
fn is_empty_tracks_allocation() {
    let mut bounds: Bounds = Default::default();
    assert!(bounds.is_empty());
    bounds.add_parameter("a", "", BoundType::IsA);
    assert!(!bounds.is_empty());
}
