//! The declarator renderer: a recursive, mode-parameterized visitor that
//! turns one [`TypeRef`] node into a declarator string.
//!
//! Two renderer variants share one recursion contract: [`CppRenderer`]
//! handles the general declarator grammar, and [`CppExternReturnRenderer`]
//! first rewrites string-like and opaque-passed types into pointer form and
//! then delegates to the general renderer in extern mode.

use vstd::prelude::*;
use vstd::string::StrSliceExecFns;
use vstd::string::StringExecFns;

use crate::text::{find_marker, lemma_find_marker_some, render_usize, spec_decimal, spec_find_marker};
use crate::type_ref::{
    spec_cpp_name, spec_is_reference, spec_is_string_like, Constness, CppNameStyle, TemplateArg,
    TypeHint, TypeRef, TypeRefKind,
};

verus! {

broadcast use vstd::std_specs::vec::axiom_vec_index_decreases;

/// The textual const qualifier: `"const "` when const, empty otherwise.
pub open spec fn spec_qual(c: Constness) -> Seq<char> {
    match c {
        Constness::Const => "const "@,
        Constness::Mut => Seq::empty(),
    }
}

/// `" name"`, or empty when the declarator name is empty.
pub open spec fn spec_space_name(name: Seq<char>) -> Seq<char> {
    if name.len() == 0 {
        Seq::empty()
    } else {
        " "@ + name
    }
}

/// `" const name"` / `" name"`, or empty when the declarator name is empty.
/// Reference and pointer kinds place the qualifier here, before the name,
/// rather than before the type spelling.
pub open spec fn spec_space_const_name(c: Constness, name: Seq<char>) -> Seq<char> {
    if name.len() == 0 {
        Seq::empty()
    } else {
        " "@ + spec_qual(c) + name
    }
}

/// The declarator string for `t` under naming style `style`, declarator
/// name `name` and ABI-boundary flag `extern_types`.  Recursion into nested
/// types always clears the name: only the outermost position carries the
/// identifier.
pub open spec fn spec_render(
    t: TypeRef,
    style: CppNameStyle,
    name: Seq<char>,
    extern_types: bool,
) -> Seq<char>
    decreases t, 2int, 0int,
{
    let cnst = spec_qual(t.constness);
    let sn = spec_space_name(name);
    let scn = spec_space_const_name(t.constness, name);
    match t.kind {
        TypeRefKind::Primitive(cpp) => cnst + cpp@ + sn,
        TypeRefKind::Array(inner, osize) => match osize {
            Some(size) => if name.len() == 0 {
                cnst + spec_render(*inner, style, Seq::empty(), extern_types) + "**"@
            } else {
                cnst + spec_render(*inner, style, Seq::empty(), extern_types) + "(*"@ + name
                    + ")["@ + spec_decimal(size as nat) + "]"@
            },
            None => spec_render(*inner, style, Seq::empty(), extern_types) + "*"@ + sn,
        },
        TypeRefKind::StdVector(nm, elem) => cnst + spec_cpp_name(nm, style) + "<"@
            + spec_render(*elem, style, Seq::empty(), extern_types) + ">"@ + sn,
        TypeRefKind::StdTuple(nm, elems) => cnst + spec_cpp_name(nm, style) + "<"@
            + spec_tuple_list(elems, extern_types, elems.len() as int) + ">"@ + sn,
        TypeRefKind::Reference(inner) => if !extern_types {
            spec_render(*inner, style, Seq::empty(), extern_types) + "&"@ + scn
        } else {
            spec_render(*inner, style, Seq::empty(), extern_types) + "*"@ + scn
        },
        TypeRefKind::RValueReference(inner) => if !extern_types {
            spec_render(*inner, style, Seq::empty(), extern_types) + "&&"@ + scn
        } else {
            spec_render(*inner, style, Seq::empty(), extern_types) + "*"@ + scn
        },
        TypeRefKind::Pointer(inner) => spec_render(*inner, style, Seq::empty(), extern_types)
            + "*"@ + scn,
        TypeRefKind::SmartPtr(nm, pointee) => cnst + spec_cpp_name(nm, style) + "<"@
            + spec_render(*pointee, style, Seq::empty(), extern_types) + ">"@ + sn,
        TypeRefKind::Class(nm, args) => {
            let base = spec_cpp_name(nm, style);
            let full = if spec_is_string_like(t) {
                base
            } else {
                base + spec_tpl(args, style, extern_types)
            };
            cnst + full + sn
        },
        TypeRefKind::Enum(nm) => cnst + spec_cpp_name(nm, style) + sn,
        TypeRefKind::Typedef(nm, underlying) => {
            let typ = if spec_is_reference((*underlying).kind) {
                spec_render(*underlying, style, Seq::empty(), extern_types)
            } else {
                spec_cpp_name(nm, style)
            };
            cnst + typ + sn
        },
        TypeRefKind::Generic(gname) => cnst + gname@ + sn,
        TypeRefKind::Function(nm) => {
            let typ = spec_cpp_name(nm, style);
            match spec_find_marker(typ, 0) {
                Some(i) => if name.len() == 0 {
                    typ
                } else {
                    typ.subrange(0, i) + "(*"@ + name + ")"@ + typ.subrange(i + 3, typ.len() as int)
                },
                None => typ + sn,
            }
        },
        TypeRefKind::Ignored => "<ignored>"@ + sn,
    }
}

/// The comma-joined renderings of the first `n` tuple elements, each in
/// reference naming style with an empty declarator name.
pub open spec fn spec_tuple_list(elems: Vec<TypeRef>, extern_types: bool, n: int) -> Seq<char>
    decreases elems, 1int, n,
{
    if n <= 0 || n > elems.len() {
        Seq::empty()
    } else if n == 1 {
        spec_render(elems[0], CppNameStyle::Reference, Seq::empty(), extern_types)
    } else {
        spec_tuple_list(elems, extern_types, n - 1) + ", "@
            + spec_render(elems[n - 1], CppNameStyle::Reference, Seq::empty(), extern_types)
    }
}

/// How many of the first `n` template arguments are representable (that is,
/// not `Unknown`).
pub open spec fn spec_tpl_count(args: Vec<TemplateArg>, n: int) -> nat
    decreases args, 0int, n,
{
    if n <= 0 || n > args.len() {
        0
    } else {
        spec_tpl_count(args, n - 1) + match args[n - 1] {
            TemplateArg::Unknown => 0nat,
            _ => 1nat,
        }
    }
}

/// The comma-joined renderings of the representable arguments among the
/// first `n` template arguments; `Unknown` arguments are dropped entirely.
pub open spec fn spec_tpl_prefix(
    args: Vec<TemplateArg>,
    style: CppNameStyle,
    extern_types: bool,
    n: int,
) -> Seq<char>
    decreases args, 0int, n,
{
    if n <= 0 || n > args.len() {
        Seq::empty()
    } else {
        let rest = spec_tpl_prefix(args, style, extern_types, n - 1);
        match args[n - 1] {
            TemplateArg::Typename(t) => if spec_tpl_count(args, n - 1) == 0 {
                spec_render(t, style, Seq::empty(), extern_types)
            } else {
                rest + ", "@ + spec_render(t, style, Seq::empty(), extern_types)
            },
            TemplateArg::Constant(lit) => if spec_tpl_count(args, n - 1) == 0 {
                lit@
            } else {
                rest + ", "@ + lit@
            },
            TemplateArg::Unknown => rest,
        }
    }
}

/// The rendered template argument list: `"<a, b, …>"`, or empty when there
/// are no arguments at all.
pub open spec fn spec_tpl(args: Vec<TemplateArg>, style: CppNameStyle, extern_types: bool) -> Seq<
    char,
>
    decreases args, 1int, 0int,
{
    if args.len() == 0 {
        Seq::empty()
    } else {
        "<"@ + spec_tpl_prefix(args, style, extern_types, args.len() as int) + ">"@
    }
}

/// The string this renderer produces when the ABI-boundary variant rewrites
/// the type before delegating: string-like types become an untyped pointer,
/// opaque-passed types gain one pointer indirection, everything else passes
/// through; the general renderer then runs in reference naming style with an
/// empty name and the extern flag set.
pub open spec fn spec_extern_return(t: TypeRef) -> Seq<char> {
    if spec_is_string_like(t) {
        "void*"@
    } else if t.pass_by_opaque_ptr && !t.abstract_class_ptr {
        spec_render(t, CppNameStyle::Reference, Seq::empty(), true) + "*"@
    } else {
        spec_render(t, CppNameStyle::Reference, Seq::empty(), true)
    }
}

/// A renderer: one narrow interface shared by the general and the
/// ABI-boundary variants.  `spec_output` pins down exactly which string
/// `render` produces.
pub trait TypeRefRenderer: Sized {
    type Recursed;

    /// The declarator string this renderer produces for `t`.
    spec fn spec_output(&self, t: TypeRef) -> Seq<char>;

    /// The fresh child configuration that `recurse` produces.
    spec fn spec_recursed(&self) -> Self::Recursed;

    /// Renders one type description node into a declarator string.
    fn render(self, type_ref: &TypeRef) -> (r: String)
        ensures
            r@ == self.spec_output(*type_ref),
    ;

    /// A fresh renderer for nested types, with the declarator name cleared.
    fn recurse(&self) -> (r: Self::Recursed)
        ensures
            r == self.spec_recursed(),
    ;
}

/// The general renderer: naming style, declarator name (empty means
/// "render an abstract, unnamed type") and the ABI-boundary flag.
#[derive(Debug)]
pub struct CppRenderer<'s> {
    pub name_style: CppNameStyle,
    pub name: &'s str,
    /// True when rendering in extern contexts; both reference kinds are then
    /// rendered as pointers.  Used when declaring the types of callbacks.
    pub extern_types: bool,
}

impl<'s> CppRenderer<'s> {
    pub fn new(name_style: CppNameStyle, name: &'s str, extern_types: bool) -> (r: Self)
        ensures
            r.name_style == name_style,
            r.name@ == name@,
            r.extern_types == extern_types,
    {
        Self { name_style, name, extern_types }
    }
}

impl<'s> TypeRefRenderer for CppRenderer<'s> {
    type Recursed = Self;

    open spec fn spec_output(&self, t: TypeRef) -> Seq<char> {
        spec_render(t, self.name_style, self.name@, self.extern_types)
    }

    /// The same naming style and extern flag, with the declarator name
    /// cleared: recursion never inherits the outer name.
    open spec fn spec_recursed(&self) -> Self {
        CppRenderer { name_style: self.name_style, name: "", extern_types: self.extern_types }
    }

    fn render(self, type_ref: &TypeRef) -> (r: String) {
        render_type_ref(self.name_style, self.name, self.extern_types, type_ref)
    }

    fn recurse(&self) -> (r: Self) {
        Self { name_style: self.name_style, name: "", extern_types: self.extern_types }
    }
}

/// The ABI-boundary renderer: rewrites string-like and opaque-passed types
/// into pointer form, then delegates to the general renderer in reference
/// naming style, with an empty declarator name and the extern flag set.
#[derive(Clone, Debug)]
pub struct CppExternReturnRenderer;

impl TypeRefRenderer for CppExternReturnRenderer {
    type Recursed = CppRenderer<'static>;

    open spec fn spec_output(&self, t: TypeRef) -> Seq<char> {
        spec_extern_return(t)
    }

    /// The fixed delegate: the general renderer in reference naming style,
    /// with an empty declarator name and the extern flag set.
    open spec fn spec_recursed(&self) -> CppRenderer<'static> {
        CppRenderer { name_style: CppNameStyle::Reference, name: "", extern_types: true }
    }

    fn render(self, type_ref: &TypeRef) -> (r: String) {
        proof {
            reveal_strlit("");
            assert(""@ =~= Seq::<char>::empty());
        }
        if type_ref.type_hint == TypeHint::StringLike {
            let vp = TypeRef::new_pointer(TypeRef::void());
            let r = self.recurse().render(&vp);
            proof {
                reveal_with_fuel(spec_render, 3);
                reveal_strlit("void");
                reveal_strlit("*");
                reveal_strlit("void*");
                assert(r@ =~= "void*"@);
            }
            r
        } else if type_ref.pass_by_opaque_ptr && !type_ref.abstract_class_ptr {
            let s = self.recurse().render(type_ref);
            s.concat("*")
        } else {
            self.recurse().render(type_ref)
        }
    }

    fn recurse(&self) -> (r: CppRenderer<'static>) {
        CppRenderer { name_style: CppNameStyle::Reference, name: "", extern_types: true }
    }
}

/// The textual const qualifier for `c`.
fn cpp_qual(c: Constness) -> (r: &'static str)
    ensures
        r@ == spec_qual(c),
{
    proof {
        reveal_strlit("");
    }
    match c {
        Constness::Const => "const ",
        Constness::Mut => "",
    }
}

/// Renders `t` under the given configuration.  This is the shared recursion
/// engine behind [`CppRenderer`]'s `render`.
pub(crate) fn render_type_ref(
    style: CppNameStyle,
    name: &str,
    extern_types: bool,
    t: &TypeRef,
) -> (r: String)
    ensures
        r@ == spec_render(*t, style, name@, extern_types),
    decreases *t, 2int, 0int,
{
    proof {
        reveal_strlit("");
        assert(""@ =~= Seq::<char>::empty());
    }
    let cnst = cpp_qual(t.constness);
    let mut space_name = String::new();
    let mut space_const_name = String::new();
    if !name.is_empty() {
        space_name.append(" ");
        space_name.append(name);
        space_const_name.append(" ");
        space_const_name.append(cnst);
        space_const_name.append(name);
    }
    proof {
        assert(space_name@ =~= spec_space_name(name@));
        assert(space_const_name@ =~= spec_space_const_name(t.constness, name@));
    }
    match &t.kind {
        TypeRefKind::Primitive(cpp) => {
            let mut res = String::from_str(cnst);
            res.append(cpp.as_str());
            res.append(space_name.as_str());
            proof {
                assert(res@ =~= spec_render(*t, style, name@, extern_types));
            }
            res
        },
        TypeRefKind::Array(inner, osize) => {
            let inner_s = render_type_ref(style, "", extern_types, inner);
            let mut res = String::new();
            match osize {
                Some(size) => {
                    if name.is_empty() {
                        res.append(cnst);
                        res.append(inner_s.as_str());
                        res.append("**");
                    } else {
                        res.append(cnst);
                        res.append(inner_s.as_str());
                        res.append("(*");
                        res.append(name);
                        res.append(")[");
                        let size_s = render_usize(*size);
                        res.append(size_s.as_str());
                        res.append("]");
                    }
                },
                None => {
                    res.append(inner_s.as_str());
                    res.append("*");
                    res.append(space_name.as_str());
                },
            }
            proof {
                assert(res@ =~= spec_render(*t, style, name@, extern_types));
            }
            res
        },
        TypeRefKind::StdVector(nm, elem) => {
            let elem_s = render_type_ref(style, "", extern_types, elem);
            let mut res = String::from_str(cnst);
            res.append(nm.cpp_name(style));
            res.append("<");
            res.append(elem_s.as_str());
            res.append(">");
            res.append(space_name.as_str());
            proof {
                assert(res@ =~= spec_render(*t, style, name@, extern_types));
            }
            res
        },
        TypeRefKind::StdTuple(nm, elems) => {
            let n_elems = elems.len();
            let mut list = String::new();
            let mut j: usize = 0;
            while j < n_elems
                invariant
                    n_elems == elems.len(),
                    j <= n_elems,
                    t.kind is StdTuple,
                    t.kind->StdTuple_1 == *elems,
                    list@ == spec_tuple_list(*elems, extern_types, j as int),
                decreases n_elems - j,
            {
                if j > 0 {
                    list.append(", ");
                }
                proof {
                    assert(decreases_to!(*t => t.kind));
                    assert(decreases_to!(t.kind => t.kind->StdTuple_1));
                    assert(decreases_to!(*elems => elems@));
                    assert(decreases_to!(elems@ => elems@[j as int]));
                    assert(decreases_to!(*t => elems@[j as int]));
                }
                let elem_s = render_type_ref(CppNameStyle::Reference, "", extern_types, &elems[j]);
                list.append(elem_s.as_str());
                proof {
                    reveal_strlit("");
                    assert(""@ =~= Seq::<char>::empty());
                    assert(list@ =~= spec_tuple_list(*elems, extern_types, j + 1));
                }
                j += 1;
            }
            let mut res = String::from_str(cnst);
            res.append(nm.cpp_name(style));
            res.append("<");
            res.append(list.as_str());
            res.append(">");
            res.append(space_name.as_str());
            proof {
                assert(res@ =~= spec_render(*t, style, name@, extern_types));
            }
            res
        },
        TypeRefKind::Reference(inner) => {
            let inner_s = render_type_ref(style, "", extern_types, inner);
            let mut res = inner_s;
            if !extern_types {
                res.append("&");
            } else {
                res.append("*");
            }
            res.append(space_const_name.as_str());
            proof {
                assert(res@ =~= spec_render(*t, style, name@, extern_types));
            }
            res
        },
        TypeRefKind::RValueReference(inner) => {
            let inner_s = render_type_ref(style, "", extern_types, inner);
            let mut res = inner_s;
            if !extern_types {
                res.append("&&");
            } else {
                res.append("*");
            }
            res.append(space_const_name.as_str());
            proof {
                assert(res@ =~= spec_render(*t, style, name@, extern_types));
            }
            res
        },
        TypeRefKind::Pointer(inner) => {
            let inner_s = render_type_ref(style, "", extern_types, inner);
            let mut res = inner_s;
            res.append("*");
            res.append(space_const_name.as_str());
            proof {
                assert(res@ =~= spec_render(*t, style, name@, extern_types));
            }
            res
        },
        TypeRefKind::SmartPtr(nm, pointee) => {
            let pointee_s = render_type_ref(style, "", extern_types, pointee);
            let mut res = String::from_str(cnst);
            res.append(nm.cpp_name(style));
            res.append("<");
            res.append(pointee_s.as_str());
            res.append(">");
            res.append(space_name.as_str());
            proof {
                assert(res@ =~= spec_render(*t, style, name@, extern_types));
            }
            res
        },
        TypeRefKind::Class(nm, _args) => {
            let mut out = String::from_str(nm.cpp_name(style));
            if !(t.type_hint == TypeHint::StringLike) {
                let child = CppRenderer { name_style: style, name: "", extern_types };
                let tpl = render_cpp_tpl(&child, t);
                out.append(tpl.as_str());
            }
            let mut res = String::from_str(cnst);
            res.append(out.as_str());
            res.append(space_name.as_str());
            proof {
                assert(res@ =~= spec_render(*t, style, name@, extern_types));
            }
            res
        },
        TypeRefKind::Enum(nm) => {
            let mut res = String::from_str(cnst);
            res.append(nm.cpp_name(style));
            res.append(space_name.as_str());
            proof {
                assert(res@ =~= spec_render(*t, style, name@, extern_types));
            }
            res
        },
        TypeRefKind::Typedef(nm, underlying) => {
            let u: &TypeRef = underlying;
            let is_ref = match &u.kind {
                TypeRefKind::Reference(_) => true,
                TypeRefKind::RValueReference(_) => true,
                _ => false,
            };
            let typ = if is_ref {
                render_type_ref(style, "", extern_types, u)
            } else {
                String::from_str(nm.cpp_name(style))
            };
            let mut res = String::from_str(cnst);
            res.append(typ.as_str());
            res.append(space_name.as_str());
            proof {
                assert(res@ =~= spec_render(*t, style, name@, extern_types));
            }
            res
        },
        TypeRefKind::Generic(gname) => {
            let mut res = String::from_str(cnst);
            res.append(gname.as_str());
            res.append(space_name.as_str());
            proof {
                assert(res@ =~= spec_render(*t, style, name@, extern_types));
            }
            res
        },
        TypeRefKind::Function(nm) => {
            let typ = nm.cpp_name(style);
            let res = match find_marker(typ) {
                Some(i) => {
                    if name.is_empty() {
                        String::from_str(typ)
                    } else {
                        proof {
                            lemma_find_marker_some(typ@, 0, i as int);
                        }
                        let len = typ.unicode_len();
                        let pre = typ.substring_char(0, i);
                        let post = typ.substring_char(i + 3, len);
                        let mut spliced = String::from_str(pre);
                        spliced.append("(*");
                        spliced.append(name);
                        spliced.append(")");
                        spliced.append(post);
                        spliced
                    }
                },
                None => {
                    let mut plain = String::from_str(typ);
                    plain.append(space_name.as_str());
                    plain
                },
            };
            proof {
                assert(res@ =~= spec_render(*t, style, name@, extern_types));
            }
            res
        },
        TypeRefKind::Ignored => {
            let mut res = String::from_str("<ignored>");
            res.append(space_name.as_str());
            proof {
                assert(res@ =~= spec_render(*t, style, name@, extern_types));
            }
            res
        },
    }
}

/// Renders the comma-joined template argument list of `type_ref`:
/// `"<a, b, …>"`, or the empty string when there are no template arguments.
/// `Typename` arguments are rendered by a fresh child of `renderer` (empty
/// name, same style and extern flag), `Constant` arguments are emitted
/// verbatim, and `Unknown` arguments are dropped from the list.
pub fn render_cpp_tpl<'s>(renderer: &CppRenderer<'s>, type_ref: &TypeRef) -> (r: String)
    ensures
        r@ == (match type_ref.kind {
            TypeRefKind::Class(_, args) => spec_tpl(args, renderer.name_style, renderer.extern_types),
            _ => Seq::<char>::empty(),
        }),
    decreases *type_ref, 1int, 0int,
{
    proof {
        reveal_strlit("");
        assert(""@ =~= Seq::<char>::empty());
    }
    match &type_ref.kind {
        TypeRefKind::Class(_, args) => {
            let n_args = args.len();
            if n_args == 0 {
                return String::new();
            }
            let mut list = String::new();
            let mut count: usize = 0;
            let mut k: usize = 0;
            while k < n_args
                invariant
                    n_args == args.len(),
                    k <= n_args,
                    type_ref.kind is Class,
                    type_ref.kind->Class_1 == *args,
                    list@ == spec_tpl_prefix(*args, renderer.name_style, renderer.extern_types, k as int),
                    count as nat == spec_tpl_count(*args, k as int),
                    count <= k,
                    spec_tpl_count(*args, k as int) == 0 ==> list@.len() == 0,
                decreases n_args - k,
            {
                match &args[k] {
                    TemplateArg::Typename(t_arg) => {
                        if count > 0 {
                            list.append(", ");
                        }
                        proof {
                            assert(decreases_to!(*type_ref => type_ref.kind));
                            assert(type_ref.kind->Class_1 == *args);
                            assert(decreases_to!(type_ref.kind => type_ref.kind->Class_1));
                            assert(decreases_to!(*args => args@));
                            assert(decreases_to!(args@ => args@[k as int]));
                            assert(args@[k as int]->Typename_0 == *t_arg);
                            assert(decreases_to!(args@[k as int] => args@[k as int]->Typename_0));
                            assert(decreases_to!(*type_ref => *t_arg));
                        }
                        let s = render_type_ref(renderer.name_style, "", renderer.extern_types, t_arg);
                        list.append(s.as_str());
                        count += 1;
                    },
                    TemplateArg::Constant(lit) => {
                        if count > 0 {
                            list.append(", ");
                        }
                        list.append(lit.as_str());
                        count += 1;
                    },
                    TemplateArg::Unknown => {},
                }
                proof {
                    reveal_strlit("");
                    assert(""@ =~= Seq::<char>::empty());
                    assert(list@ =~= spec_tpl_prefix(
                        *args,
                        renderer.name_style,
                        renderer.extern_types,
                        k + 1,
                    ));
                }
                k += 1;
            }
            let mut res = String::from_str("<");
            res.append(list.as_str());
            res.append(">");
            proof {
                assert(res@ =~= spec_tpl(*args, renderer.name_style, renderer.extern_types));
            }
            res
        },
        _ => String::new(),
    }
}

} // verus!
