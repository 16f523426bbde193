//! The type description model: an immutable tree describing one type, plus
//! the queryable facets the renderer consumes.

use vstd::prelude::*;
use vstd::string::StringExecFns;

verus! {

/// How an entity's name is spelled: fully qualified (`Declaration`) or in
/// the shorter local form (`Reference`).
#[derive(Clone, Copy, Debug, PartialEq, Eq, Structural)]
pub enum CppNameStyle {
    Declaration,
    Reference,
}

/// Top-level const qualification of a type, independent of its kind.
#[derive(Clone, Copy, Debug, PartialEq, Eq, Structural)]
pub enum Constness {
    Const,
    Mut,
}

/// Auxiliary classification supplied by the upstream model; `StringLike`
/// marks a type that is recognized as the string type.
#[derive(Clone, Copy, Debug, PartialEq, Eq, Structural)]
pub enum TypeHint {
    Plain,
    StringLike,
}

/// The spelling of a named entity (class, enum, typedef, container or
/// function type) under each of the two naming styles.
#[derive(Debug)]
pub struct EntityName {
    pub declaration: String,
    pub reference: String,
}

/// One template argument: a nested type, a literal constant, or an argument
/// that cannot be represented and is skipped when rendering.
#[derive(Debug)]
pub enum TemplateArg {
    Typename(TypeRef),
    Constant(String),
    Unknown,
}

/// The kind of a type; exactly one variant is active per node.
#[derive(Debug)]
pub enum TypeRefKind {
    /// A primitive type with its spelling.
    Primitive(String),
    /// An array of the element type, either with a fixed size or unsized.
    Array(Box<TypeRef>, Option<usize>),
    /// A vector-like container and its element type.
    StdVector(EntityName, Box<TypeRef>),
    /// A tuple-like container and its element types.
    StdTuple(EntityName, Vec<TypeRef>),
    Pointer(Box<TypeRef>),
    Reference(Box<TypeRef>),
    RValueReference(Box<TypeRef>),
    /// A smart pointer template and its pointee.
    SmartPtr(EntityName, Box<TypeRef>),
    /// A class together with its template arguments (empty when the class is
    /// not a template specialization).
    Class(EntityName, Vec<TemplateArg>),
    Enum(EntityName),
    /// A typedef and the type it aliases.
    Typedef(EntityName, Box<TypeRef>),
    /// A generic placeholder, spelled by its bare name.
    Generic(String),
    /// A function type; its spelling may already contain the
    /// function-pointer marker `(*)`.
    Function(EntityName),
    /// A type that cannot be represented at all.
    Ignored,
}

/// One node of the type description tree.  The renderer borrows nodes
/// read-only and never mutates them.
#[derive(Debug)]
pub struct TypeRef {
    pub kind: TypeRefKind,
    pub type_hint: TypeHint,
    /// Inherent top-level constness.
    pub constness: Constness,
    /// ABI-passing facet: true when a value of this type crosses an ABI
    /// boundary behind an opaque pointer.
    pub pass_by_opaque_ptr: bool,
    /// Facet: whether this node is a pointer to an abstract class.
    pub abstract_class_ptr: bool,
}

/// The spelling of `n` under `style`.
pub open spec fn spec_cpp_name(n: EntityName, style: CppNameStyle) -> Seq<char> {
    match style {
        CppNameStyle::Declaration => n.declaration@,
        CppNameStyle::Reference => n.reference@,
    }
}

/// Whether `k` is one of the two reference kinds.
pub open spec fn spec_is_reference(k: TypeRefKind) -> bool {
    match k {
        TypeRefKind::Reference(_) => true,
        TypeRefKind::RValueReference(_) => true,
        _ => false,
    }
}

/// Whether `t` is classified as string-like.
pub open spec fn spec_is_string_like(t: TypeRef) -> bool {
    t.type_hint == TypeHint::StringLike
}

impl EntityName {
    /// The spelling of the entity under the requested naming style.
    pub fn cpp_name(&self, style: CppNameStyle) -> (r: &str)
        ensures
            r@ == spec_cpp_name(*self, style),
    {
        match style {
            CppNameStyle::Declaration => self.declaration.as_str(),
            CppNameStyle::Reference => self.reference.as_str(),
        }
    }
}

impl TypeRef {
    /// A plain node of the given kind: no hint, not const, no ABI facets.
    pub fn plain(kind: TypeRefKind) -> (r: Self)
        ensures
            r == (TypeRef {
                kind,
                type_hint: TypeHint::Plain,
                constness: Constness::Mut,
                pass_by_opaque_ptr: false,
                abstract_class_ptr: false,
            }),
    {
        TypeRef {
            kind,
            type_hint: TypeHint::Plain,
            constness: Constness::Mut,
            pass_by_opaque_ptr: false,
            abstract_class_ptr: false,
        }
    }

    /// A plain pointer to `inner`.
    pub fn new_pointer(inner: TypeRef) -> (r: Self)
        ensures
            r == (TypeRef {
                kind: TypeRefKind::Pointer(Box::new(inner)),
                type_hint: TypeHint::Plain,
                constness: Constness::Mut,
                pass_by_opaque_ptr: false,
                abstract_class_ptr: false,
            }),
    {
        TypeRef::plain(TypeRefKind::Pointer(Box::new(inner)))
    }

    /// The untyped `void` primitive.
    pub fn void() -> (r: Self)
        ensures
            r.kind matches TypeRefKind::Primitive(s) && s@ == "void"@,
            r.type_hint == TypeHint::Plain,
            r.constness == Constness::Mut,
            !r.pass_by_opaque_ptr,
            !r.abstract_class_ptr,
    {
        TypeRef::plain(TypeRefKind::Primitive(String::from_str("void")))
    }
}

} // verus!
