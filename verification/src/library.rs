//! The raw type graph: declared types addressed by opaque identifiers,
//! together with the functions, parameters and signals they declare.

use vstd::prelude::*;

use crate::version::Version;

verus! {

/// Namespace index holding the built-in fundamental types.
pub const INTERNAL_NAMESPACE: usize = 0;
/// Namespace index of the library under analysis.
pub const MAIN_NAMESPACE: usize = 1;

/// Opaque key of a declared type: a namespace and an index inside it.
#[derive(Clone, Copy, Debug, PartialEq, Eq, Structural)]
pub struct TypeId {
    pub ns_id: usize,
    pub id: usize,
}

/// Built-in value types with a fixed, language-defined representation.
#[derive(Clone, Copy, Debug, PartialEq, Eq, Structural)]
pub enum Fundamental {
    Void,
    Boolean,
    Int8,
    UInt8,
    Int16,
    UInt16,
    Int32,
    UInt32,
    Int64,
    UInt64,
    Char,
    UChar,
    Short,
    UShort,
    Int,
    UInt,
    Long,
    ULong,
    Size,
    SSize,
    Float,
    Double,
    Pointer,
    VarArgs,
    Utf8,
    Filename,
    Type,
    Unsupported,
}

/// Whether a value may be absent at the boundary.
#[derive(Clone, Copy, Debug, PartialEq, Eq, Structural)]
pub struct Nullable(pub bool);

/// Direction in which a parameter crosses the boundary.
#[derive(Clone, Copy, Debug, PartialEq, Eq, Structural)]
pub enum ParameterDirection {
    In,
    Out,
    InOut,
}

/// How a declared function is attached to its type.
#[derive(Clone, Copy, Debug, PartialEq, Eq, Structural)]
pub enum FunctionKind {
    Constructor,
    Method,
    Function,
}

/// One parameter of a declared function (also used for return values).
#[derive(Clone, Debug)]
pub struct Parameter {
    pub name: String,
    pub typ: TypeId,
    pub direction: ParameterDirection,
    pub nullable: Nullable,
    pub caller_allocates: bool,
    pub instance_parameter: bool,
    /// Conversion suffix appended at the call site once a bound is
    /// allocated for this parameter.
    pub to_glib_extra: String,
}

/// The mathematical value of a parameter: its strings as character
/// sequences, everything else as plain values.
pub ghost struct ParameterView {
    pub name: Seq<char>,
    pub typ: TypeId,
    pub direction: ParameterDirection,
    pub nullable: Nullable,
    pub caller_allocates: bool,
    pub instance_parameter: bool,
    pub to_glib_extra: Seq<char>,
}

impl View for Parameter {
    type V = ParameterView;

    open spec fn view(&self) -> ParameterView {
        ParameterView {
            name: self.name@,
            typ: self.typ,
            direction: self.direction,
            nullable: self.nullable,
            caller_allocates: self.caller_allocates,
            instance_parameter: self.instance_parameter,
            to_glib_extra: self.to_glib_extra@,
        }
    }
}

impl DeepView for Parameter {
    type V = ParameterView;

    open spec fn deep_view(&self) -> ParameterView {
        self@
    }
}

/// An explicit copy of a parameter, with the copy's value pinned down.
pub fn clone_parameter(p: &Parameter) -> (r: Parameter)
    ensures
        r@ == p@,
{
    Parameter {
        name: p.name.clone(),
        typ: p.typ,
        direction: p.direction,
        nullable: p.nullable,
        caller_allocates: p.caller_allocates,
        instance_parameter: p.instance_parameter,
        to_glib_extra: p.to_glib_extra.clone(),
    }
}

/// A declared function of the native library.
#[derive(Clone, Debug)]
pub struct Function {
    pub name: String,
    /// The native entry-point symbol.
    pub c_identifier: String,
    pub kind: FunctionKind,
    pub parameters: Vec<Parameter>,
    pub ret: Parameter,
    pub throws: bool,
    pub version: Option<Version>,
}

/// A declared signal of a class or interface.
#[derive(Clone, Debug)]
pub struct Signal {
    pub name: String,
    pub parameters: Vec<Parameter>,
}

/// A declared property of a class or interface.
#[derive(Clone, Debug)]
pub struct Property {
    pub name: String,
    pub typ: TypeId,
    pub readable: bool,
    pub writable: bool,
}

/// The mathematical value of a property.
pub ghost struct PropertyView {
    pub name: Seq<char>,
    pub typ: TypeId,
    pub readable: bool,
    pub writable: bool,
}

impl View for Property {
    type V = PropertyView;

    open spec fn view(&self) -> PropertyView {
        PropertyView {
            name: self.name@,
            typ: self.typ,
            readable: self.readable,
            writable: self.writable,
        }
    }
}

impl DeepView for Property {
    type V = PropertyView;

    open spec fn deep_view(&self) -> PropertyView {
        self@
    }
}

/// An explicit copy of a property, with the copy's value pinned down.
pub fn clone_property(p: &Property) -> (r: Property)
    ensures
        r@ == p@,
{
    Property {
        name: p.name.clone(),
        typ: p.typ,
        readable: p.readable,
        writable: p.writable,
    }
}

/// A declared class: supertypes are stored transitively, in declaration
/// order, as supplied by the type graph.
#[derive(Clone, Debug)]
pub struct Class {
    pub name: String,
    pub c_type: String,
    pub glib_get_type: String,
    pub supertypes: Vec<TypeId>,
    pub functions: Vec<Function>,
    pub signals: Vec<Signal>,
    pub properties: Vec<Property>,
    pub version: Option<Version>,
    pub deprecated_version: Option<Version>,
}

/// A declared interface; its supertypes are its prerequisites.
#[derive(Clone, Debug)]
pub struct Interface {
    pub name: String,
    pub c_type: String,
    pub glib_get_type: String,
    pub supertypes: Vec<TypeId>,
    pub functions: Vec<Function>,
    pub signals: Vec<Signal>,
    pub properties: Vec<Property>,
    pub version: Option<Version>,
    pub deprecated_version: Option<Version>,
}

/// A named record (boxed aggregate).
#[derive(Clone, Debug)]
pub struct Record {
    pub name: String,
}

/// A named enumeration.
#[derive(Clone, Debug)]
pub struct Enumeration {
    pub name: String,
}

/// A named bit-flag set.
#[derive(Clone, Debug)]
pub struct Bitfield {
    pub name: String,
}

/// A declared type: the closed union every classification site matches
/// exhaustively.
#[derive(Clone, Debug)]
pub enum Type {
    Fundamental(Fundamental),
    Enumeration(Enumeration),
    Bitfield(Bitfield),
    Record(Record),
    Class(Class),
    Interface(Interface),
    Function(Function),
}

impl Type {
    /// The short declared name of the type.
    pub open spec fn spec_name(&self) -> Seq<char> {
        match self {
            Type::Fundamental(f) => spec_fundamental_name(*f),
            Type::Enumeration(e) => e.name@,
            Type::Bitfield(b) => b.name@,
            Type::Record(r) => r.name@,
            Type::Class(c) => c.name@,
            Type::Interface(i) => i.name@,
            Type::Function(f) => f.name@,
        }
    }

    pub fn get_name(&self) -> (r: String)
        ensures
            r@ == self.spec_name(),
    {
        match self {
            Type::Fundamental(f) => fundamental_name(*f),
            Type::Enumeration(e) => e.name.clone(),
            Type::Bitfield(b) => b.name.clone(),
            Type::Record(r) => r.name.clone(),
            Type::Class(c) => c.name.clone(),
            Type::Interface(i) => i.name.clone(),
            Type::Function(f) => f.name.clone(),
        }
    }
}

pub open spec fn spec_fundamental_name(f: Fundamental) -> Seq<char> {
    match f {
        Fundamental::Void => "Void"@,
        Fundamental::Boolean => "Boolean"@,
        Fundamental::Int8 => "Int8"@,
        Fundamental::UInt8 => "UInt8"@,
        Fundamental::Int16 => "Int16"@,
        Fundamental::UInt16 => "UInt16"@,
        Fundamental::Int32 => "Int32"@,
        Fundamental::UInt32 => "UInt32"@,
        Fundamental::Int64 => "Int64"@,
        Fundamental::UInt64 => "UInt64"@,
        Fundamental::Char => "Char"@,
        Fundamental::UChar => "UChar"@,
        Fundamental::Short => "Short"@,
        Fundamental::UShort => "UShort"@,
        Fundamental::Int => "Int"@,
        Fundamental::UInt => "UInt"@,
        Fundamental::Long => "Long"@,
        Fundamental::ULong => "ULong"@,
        Fundamental::Size => "Size"@,
        Fundamental::SSize => "SSize"@,
        Fundamental::Float => "Float"@,
        Fundamental::Double => "Double"@,
        Fundamental::Pointer => "Pointer"@,
        Fundamental::VarArgs => "VarArgs"@,
        Fundamental::Utf8 => "Utf8"@,
        Fundamental::Filename => "Filename"@,
        Fundamental::Type => "Type"@,
        Fundamental::Unsupported => "Unsupported"@,
    }
}

pub fn fundamental_name(f: Fundamental) -> (r: String)
    ensures
        r@ == spec_fundamental_name(f),
{
    match f {
        Fundamental::Void => "Void".to_owned(),
        Fundamental::Boolean => "Boolean".to_owned(),
        Fundamental::Int8 => "Int8".to_owned(),
        Fundamental::UInt8 => "UInt8".to_owned(),
        Fundamental::Int16 => "Int16".to_owned(),
        Fundamental::UInt16 => "UInt16".to_owned(),
        Fundamental::Int32 => "Int32".to_owned(),
        Fundamental::UInt32 => "UInt32".to_owned(),
        Fundamental::Int64 => "Int64".to_owned(),
        Fundamental::UInt64 => "UInt64".to_owned(),
        Fundamental::Char => "Char".to_owned(),
        Fundamental::UChar => "UChar".to_owned(),
        Fundamental::Short => "Short".to_owned(),
        Fundamental::UShort => "UShort".to_owned(),
        Fundamental::Int => "Int".to_owned(),
        Fundamental::UInt => "UInt".to_owned(),
        Fundamental::Long => "Long".to_owned(),
        Fundamental::ULong => "ULong".to_owned(),
        Fundamental::Size => "Size".to_owned(),
        Fundamental::SSize => "SSize".to_owned(),
        Fundamental::Float => "Float".to_owned(),
        Fundamental::Double => "Double".to_owned(),
        Fundamental::Pointer => "Pointer".to_owned(),
        Fundamental::VarArgs => "VarArgs".to_owned(),
        Fundamental::Utf8 => "Utf8".to_owned(),
        Fundamental::Filename => "Filename".to_owned(),
        Fundamental::Type => "Type".to_owned(),
        Fundamental::Unsupported => "Unsupported".to_owned(),
    }
}

proof fn lemma_find_in_types_found(types: Seq<Type>, name: Seq<char>, i: int)
    requires
        0 <= i < types.len(),
        types[i].spec_name() == name,
        forall|j: int| 0 <= j < i ==> types[j].spec_name() != name,
    ensures
        Library::spec_find_in_types(types, name) == Some(i),
    decreases types.len(),
{
    if i > 0 {
        lemma_find_in_types_found(types.drop_first(), name, i - 1);
    }
}

proof fn lemma_find_in_types_none(types: Seq<Type>, name: Seq<char>)
    requires
        forall|j: int| 0 <= j < types.len() ==> types[j].spec_name() != name,
    ensures
        Library::spec_find_in_types(types, name) == None::<int>,
    decreases types.len(),
{
    if types.len() > 0 {
        lemma_find_in_types_none(types.drop_first(), name);
    }
}

proof fn lemma_find_ns_found(nss: Seq<Namespace>, name: Seq<char>, i: int)
    requires
        0 <= i < nss.len(),
        nss[i].name@ == name,
        forall|j: int| 0 <= j < i ==> nss[j].name@ != name,
    ensures
        Library::spec_find_ns(nss, name) == Some(i),
    decreases nss.len(),
{
    if i > 0 {
        lemma_find_ns_found(nss.drop_first(), name, i - 1);
    }
}

proof fn lemma_find_ns_none(nss: Seq<Namespace>, name: Seq<char>)
    requires
        forall|j: int| 0 <= j < nss.len() ==> nss[j].name@ != name,
    ensures
        Library::spec_find_ns(nss, name) == None::<int>,
    decreases nss.len(),
{
    if nss.len() > 0 {
        lemma_find_ns_none(nss.drop_first(), name);
    }
}

/// One namespace of the type graph.
#[derive(Clone, Debug)]
pub struct Namespace {
    pub name: String,
    pub types: Vec<Type>,
}

/// The whole type graph, partitioned by namespace.
#[derive(Clone, Debug)]
pub struct Library {
    pub namespaces: Vec<Namespace>,
}

impl Library {
    /// Whether a type identifier resolves to a declared type.
    pub open spec fn spec_resolves(&self, tid: TypeId) -> bool {
        tid.ns_id < self.namespaces@.len()
            && tid.id < self.namespaces@[tid.ns_id as int].types@.len()
    }

    /// The declared type behind an identifier (only meaningful when it
    /// resolves).
    pub open spec fn spec_type(&self, tid: TypeId) -> Type {
        self.namespaces@[tid.ns_id as int].types@[tid.id as int]
    }

    /// The position of the first type with this short name in a
    /// namespace, if any.
    pub open spec fn spec_find_in_types(types: Seq<Type>, name: Seq<char>) -> Option<int>
        decreases types.len(),
    {
        if types.len() == 0 {
            None
        } else if types[0].spec_name() == name {
            Some(0int)
        } else {
            match Self::spec_find_in_types(types.drop_first(), name) {
                Some(i) => Some(i + 1),
                None => None,
            }
        }
    }

    /// The position of the first namespace with this name, if any.
    pub open spec fn spec_find_ns(nss: Seq<Namespace>, name: Seq<char>) -> Option<int>
        decreases nss.len(),
    {
        if nss.len() == 0 {
            None
        } else if nss[0].name@ == name {
            Some(0int)
        } else {
            match Self::spec_find_ns(nss.drop_first(), name) {
                Some(i) => Some(i + 1),
                None => None,
            }
        }
    }

    /// The identifier a full `Namespace.Name` resolves to: the first
    /// namespace with that name, and the first type with that short
    /// name inside it.
    pub open spec fn spec_find_type(&self, full: Seq<char>) -> Option<TypeId> {
        match crate::nameutil::spec_first_dot(full) {
            Some(d) => {
                let ns_name = full.subrange(0, d);
                let short = full.subrange(d + 1, full.len() as int);
                match Self::spec_find_ns(self.namespaces@, ns_name) {
                    Some(n) => match Self::spec_find_in_types(
                        self.namespaces@[n].types@,
                        short,
                    ) {
                        Some(t) => Some(TypeId { ns_id: n as usize, id: t as usize }),
                        None => None,
                    },
                    None => None,
                }
            },
            None => None,
        }
    }

    /// Look a declared type up by its full `Namespace.Name`.
    pub fn find_type(&self, full_name: &str) -> (r: Option<TypeId>)
        ensures
            r == self.spec_find_type(full_name@),
            r is Some ==> self.spec_resolves(r.unwrap()),
    {
        let (ns_part, short) = crate::nameutil::split_namespace_name(full_name);
        let ns_name = match ns_part {
            Some(n) => n,
            None => {
                return None;
            },
        };
        let ghost fd = crate::nameutil::spec_first_dot(full_name@);
        proof {
            assert(fd is Some);
        }
        let mut n: usize = 0;
        while n < self.namespaces.len()
            invariant
                n <= self.namespaces@.len(),
                fd == crate::nameutil::spec_first_dot(full_name@),
                fd is Some,
                ns_name@ == full_name@.subrange(0, fd.unwrap()),
                short@ == full_name@.subrange(fd.unwrap() + 1, full_name@.len() as int),
                forall|j: int| 0 <= j < n ==> self.namespaces@[j].name@ != ns_name@,
            decreases self.namespaces@.len() - n,
        {
            if self.namespaces[n].name == ns_name {
                proof {
                    lemma_find_ns_found(self.namespaces@, ns_name@, n as int);
                }
                let types = &self.namespaces[n].types;
                let mut t: usize = 0;
                while t < types.len()
                    invariant
                        n < self.namespaces@.len(),
                        fd == crate::nameutil::spec_first_dot(full_name@),
                        fd is Some,
                        ns_name@ == full_name@.subrange(0, fd.unwrap()),
                        short@ == full_name@.subrange(fd.unwrap() + 1, full_name@.len() as int),
                        Library::spec_find_ns(self.namespaces@, ns_name@) == Some(n as int),
                        *types == self.namespaces@[n as int].types,
                        t <= types@.len(),
                        forall|j: int| 0 <= j < t ==> types@[j].spec_name() != short@,
                    decreases types@.len() - t,
                {
                    let tname = types[t].get_name();
                    if tname == short {
                        proof {
                            lemma_find_in_types_found(types@, short@, t as int);
                        }
                        return Some(TypeId { ns_id: n, id: t });
                    }
                    t += 1;
                }
                proof {
                    lemma_find_in_types_none(types@, short@);
                }
                return None;
            }
            n += 1;
        }
        proof {
            lemma_find_ns_none(self.namespaces@, ns_name@);
        }
        None
    }

    /// Look a type identifier up; absence is an answer, not an error.
    pub fn type_(&self, tid: TypeId) -> (r: Option<&Type>)
        ensures
            r is Some <==> self.spec_resolves(tid),
            r is Some ==> *r.unwrap() == self.spec_type(tid),
    {
        if tid.ns_id < self.namespaces.len() {
            let ns = &self.namespaces[tid.ns_id];
            if tid.id < ns.types.len() {
                Some(&ns.types[tid.id])
            } else {
                None
            }
        } else {
            None
        }
    }
}

} // verus!
