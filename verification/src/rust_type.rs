//! Representation resolution: which declared types have a valid owned
//! representation on the safe side of the boundary, and under what name.
//! The output packager uses the same rule the serializer will use later.

use vstd::prelude::*;

use crate::library::{Fundamental, Library, Type, TypeId};

verus! {

/// Whether a declared type has an owned representation the generated
/// code can hold.
pub open spec fn spec_representable(t: Type) -> bool {
    match t {
        Type::Fundamental(f) => match f {
            Fundamental::Void => false,
            Fundamental::VarArgs => false,
            Fundamental::Pointer => false,
            Fundamental::Unsupported => false,
            _ => true,
        },
        Type::Function(_) => false,
        _ => true,
    }
}

/// The resolved representation of a type identifier: the type's name on
/// success; on failure the name is still reported for diagnostics.
pub open spec fn spec_rust_type(lib: &Library, tid: TypeId) -> Result<Seq<char>, Seq<char>> {
    if !lib.spec_resolves(tid) {
        Err("unresolved"@)
    } else if spec_representable(lib.spec_type(tid)) {
        Ok(lib.spec_type(tid).spec_name())
    } else {
        Err(lib.spec_type(tid).spec_name())
    }
}

/// Resolve the owned representation of the type behind `tid`.
pub fn rust_type(lib: &Library, tid: TypeId) -> (r: Result<String, String>)
    ensures
        match spec_rust_type(lib, tid) {
            Ok(n) => r is Ok && r.unwrap()@ == n,
            Err(n) => r is Err && r.unwrap_err()@ == n,
        },
{
    match lib.type_(tid) {
        Some(t) => {
            let name = t.get_name();
            let representable = match t {
                Type::Fundamental(f) => match f {
                    Fundamental::Void => false,
                    Fundamental::VarArgs => false,
                    Fundamental::Pointer => false,
                    Fundamental::Unsupported => false,
                    _ => true,
                },
                Type::Function(_) => false,
                _ => true,
            };
            if representable {
                Ok(name)
            } else {
                Err(name)
            }
        },
        None => Err("unresolved".to_owned()),
    }
}

/// The representation name whether resolution succeeded or not.
pub open spec fn spec_rust_name_of(lib: &Library, tid: TypeId) -> Seq<char> {
    match spec_rust_type(lib, tid) {
        Ok(n) => n,
        Err(n) => n,
    }
}

/// The representation name whether or not resolution succeeded, as the
/// bound allocator records it.
pub fn rust_type_into_string(lib: &Library, tid: TypeId) -> (r: String)
    ensures
        r@ == (match spec_rust_type(lib, tid) {
            Ok(n) => n,
            Err(n) => n,
        }),
{
    match rust_type(lib, tid) {
        Ok(n) => n,
        Err(n) => n,
    }
}

} // verus!
