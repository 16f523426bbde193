//! Laws of the renderer, stated and proved over its specification.

use vstd::prelude::*;

use crate::renderer::{
    spec_qual, spec_render, spec_space_const_name, spec_space_name, spec_tpl, spec_tpl_count,
    spec_tpl_prefix, spec_tuple_list,
};
use crate::text::{spec_decimal, spec_digit_char};
use crate::type_ref::{
    spec_cpp_name, spec_is_reference, CppNameStyle, Constness, EntityName, TemplateArg, TypeHint,
    TypeRef, TypeRefKind,
};

verus! {

broadcast use vstd::std_specs::vec::axiom_vec_index_decreases;

/// The kinds that emit the const qualifier at the head of the rendered
/// string, immediately before the base type spelling.  Bare references
/// place the qualifier before the declarator name instead, pointers place
/// it after the `*`, unsized arrays and function and ignored types emit no
/// qualifier at all.
pub open spec fn head_qualified(k: TypeRefKind) -> bool {
    match k {
        TypeRefKind::Primitive(_) => true,
        TypeRefKind::Array(_, osize) => osize is Some,
        TypeRefKind::StdVector(_, _) => true,
        TypeRefKind::StdTuple(_, _) => true,
        TypeRefKind::SmartPtr(_, _) => true,
        TypeRefKind::Class(_, _) => true,
        TypeRefKind::Enum(_) => true,
        TypeRefKind::Typedef(_, _) => true,
        TypeRefKind::Generic(_) => true,
        _ => false,
    }
}

/// Const placement: for every head-qualified kind, a const node renders as
/// `"const "` immediately followed by the rendering of the same node
/// without the qualifier — the array and template decorations never split
/// the qualifier from the base type spelling.
#[verifier::rlimit(100)]
pub proof fn lemma_const_placement(
    t: TypeRef,
    style: CppNameStyle,
    name: Seq<char>,
    extern_types: bool,
)
    requires
        t.constness == Constness::Const,
        head_qualified(t.kind),
    ensures
        spec_render(t, style, name, extern_types) == "const "@ + spec_render(
            (TypeRef { constness: Constness::Mut, ..t }),
            style,
            name,
            extern_types,
        ),
{
    let t2 = TypeRef { constness: Constness::Mut, ..t };
    let lhs = spec_render(t, style, name, extern_types);
    let rhs = "const "@ + spec_render(t2, style, name, extern_types);
    match t.kind {
        TypeRefKind::Primitive(_) => {
            assert(lhs =~= rhs);
        },
        TypeRefKind::Array(_, _) => {
            assert(lhs =~= rhs);
        },
        TypeRefKind::StdVector(_, _) => {
            assert(lhs =~= rhs);
        },
        TypeRefKind::StdTuple(_, _) => {
            assert(lhs =~= rhs);
        },
        TypeRefKind::SmartPtr(_, _) => {
            assert(lhs =~= rhs);
        },
        TypeRefKind::Class(_, _) => {
            assert(lhs =~= rhs);
        },
        TypeRefKind::Enum(_) => {
            assert(lhs =~= rhs);
        },
        TypeRefKind::Typedef(_, _) => {
            assert(lhs =~= rhs);
        },
        TypeRefKind::Generic(_) => {
            assert(lhs =~= rhs);
        },
        _ => {
        },
    }
}

/// The kinds whose declarator name contributes only the trailing `" name"`
/// suffix of the rendered string.
pub open spec fn name_suffix_kind(k: TypeRefKind) -> bool {
    match k {
        TypeRefKind::Primitive(_) => true,
        TypeRefKind::Array(_, osize) => osize is None,
        TypeRefKind::StdVector(_, _) => true,
        TypeRefKind::StdTuple(_, _) => true,
        TypeRefKind::SmartPtr(_, _) => true,
        TypeRefKind::Class(_, _) => true,
        TypeRefKind::Enum(_) => true,
        TypeRefKind::Typedef(_, _) => true,
        TypeRefKind::Generic(_) => true,
        TypeRefKind::Ignored => true,
        _ => false,
    }
}

/// Recursion name isolation, suffix form: for these kinds the rendered
/// string is the unnamed rendering followed by `" name"` — the outer
/// declarator name can never leak into a nested element's rendering,
/// which is always produced with an empty name.
pub proof fn lemma_name_isolation(
    t: TypeRef,
    style: CppNameStyle,
    name: Seq<char>,
    extern_types: bool,
)
    requires
        name_suffix_kind(t.kind),
    ensures
        spec_render(t, style, name, extern_types) == spec_render(
            t,
            style,
            Seq::empty(),
            extern_types,
        ) + spec_space_name(name),
{
    assert(spec_render(t, style, name, extern_types) =~= spec_render(
        t,
        style,
        Seq::empty(),
        extern_types,
    ) + spec_space_name(name));
}

/// Name isolation for pointers and both reference kinds: the name
/// contributes only the trailing `" const name"` suffix, with the
/// qualifier bound to the name position.
pub proof fn lemma_pointer_name_isolation(
    t: TypeRef,
    style: CppNameStyle,
    name: Seq<char>,
    extern_types: bool,
)
    requires
        t.kind is Pointer || t.kind is Reference || t.kind is RValueReference,
    ensures
        spec_render(t, style, name, extern_types) == spec_render(
            t,
            style,
            Seq::empty(),
            extern_types,
        ) + spec_space_const_name(t.constness, name),
{
    assert(spec_render(t, style, name, extern_types) =~= spec_render(
        t,
        style,
        Seq::empty(),
        extern_types,
    ) + spec_space_const_name(t.constness, name));
}

/// Array decay, unnamed: a sized array with an empty declarator name
/// renders as the element type followed by `**`.
pub proof fn lemma_array_decay_unnamed(t: TypeRef, style: CppNameStyle, extern_types: bool)
    requires
        t.kind matches TypeRefKind::Array(_, osize) && osize is Some,
    ensures
        spec_render(t, style, Seq::empty(), extern_types) == spec_qual(t.constness)
            + spec_render(*t.kind->Array_0, style, Seq::empty(), extern_types) + "**"@,
{
}

/// Array declarator, named: a sized array with a non-empty declarator name
/// renders with the pointer-to-fixed-size-array declarator
/// `(*name)[size]`.
pub proof fn lemma_array_named(
    t: TypeRef,
    style: CppNameStyle,
    name: Seq<char>,
    extern_types: bool,
)
    requires
        t.kind matches TypeRefKind::Array(_, osize) && osize is Some,
        name.len() > 0,
    ensures
        spec_render(t, style, name, extern_types) == spec_qual(t.constness) + spec_render(
            *t.kind->Array_0,
            style,
            Seq::empty(),
            extern_types,
        ) + "(*"@ + name + ")["@ + spec_decimal(t.kind->Array_1->0 as nat) + "]"@,
{
}

/// `parts` joined with the separator `sep` between consecutive parts.
pub open spec fn spec_join(parts: Seq<Seq<char>>, sep: Seq<char>) -> Seq<char>
    decreases parts.len(),
{
    if parts.len() == 0 {
        Seq::empty()
    } else if parts.len() == 1 {
        parts[0]
    } else {
        spec_join(parts.drop_last(), sep) + sep + parts.last()
    }
}

/// The list of rendered entries among the first `n` template arguments:
/// one entry per representable argument; an `Unknown` argument contributes
/// no entry at all.
pub open spec fn spec_tpl_parts(
    args: Vec<TemplateArg>,
    style: CppNameStyle,
    extern_types: bool,
    n: int,
) -> Seq<Seq<char>>
    decreases args, 0int, n,
{
    if n <= 0 || n > args.len() {
        Seq::empty()
    } else {
        let rest = spec_tpl_parts(args, style, extern_types, n - 1);
        match args[n - 1] {
            TemplateArg::Typename(t) => rest.push(
                spec_render(t, style, Seq::empty(), extern_types),
            ),
            TemplateArg::Constant(lit) => rest.push(lit@),
            TemplateArg::Unknown => rest,
        }
    }
}

/// Template round-trip: the rendered argument list is exactly the
/// `", "`-join of the representable arguments' renderings, with one entry
/// per representable argument — an `Unknown` argument shifts the list
/// rather than leaving a placeholder entry.
pub proof fn lemma_tpl_entries(
    args: Vec<TemplateArg>,
    style: CppNameStyle,
    extern_types: bool,
    n: int,
)
    requires
        0 <= n <= args.len(),
    ensures
        spec_tpl_parts(args, style, extern_types, n).len() == spec_tpl_count(args, n),
        spec_tpl_prefix(args, style, extern_types, n) == spec_join(
            spec_tpl_parts(args, style, extern_types, n),
            ", "@,
        ),
    decreases n,
{
    if n <= 0 {
    } else {
        lemma_tpl_entries(args, style, extern_types, n - 1);
        let rest_parts = spec_tpl_parts(args, style, extern_types, n - 1);
        let sep = ", "@;
        match args[n - 1] {
            TemplateArg::Typename(t) => {
                let part = spec_render(t, style, Seq::empty(), extern_types);
                let parts = rest_parts.push(part);
                if spec_tpl_count(args, n - 1) == 0 {
                    assert(parts.len() == 1);
                    assert(parts[0] == part);
                } else {
                    assert(parts.drop_last() =~= rest_parts);
                    assert(parts.last() == part);
                }
            },
            TemplateArg::Constant(lit) => {
                let part = lit@;
                let parts = rest_parts.push(part);
                if spec_tpl_count(args, n - 1) == 0 {
                    assert(parts.len() == 1);
                    assert(parts[0] == part);
                } else {
                    assert(parts.drop_last() =~= rest_parts);
                    assert(parts.last() == part);
                }
            },
            TemplateArg::Unknown => {
            },
        }
    }
}

/// No character of `s` is an ampersand.
pub open spec fn seq_no_amp(s: Seq<char>) -> bool {
    forall|i: int| 0 <= i < s.len() ==> s[i] != '&'
}

/// Both spellings of `n` are free of ampersands.
pub open spec fn name_no_amp(n: EntityName) -> bool {
    seq_no_amp(n.declaration@) && seq_no_amp(n.reference@)
}

/// Whether every spelling embedded in the first `n` tuple elements is free
/// of ampersands.
pub open spec fn amp_free_elems(elems: Vec<TypeRef>, n: int) -> bool
    decreases elems, 0int, n,
{
    if n <= 0 || n > elems.len() {
        true
    } else {
        amp_free_elems(elems, n - 1) && amp_free(elems[n - 1])
    }
}

/// Whether every spelling embedded in the first `n` template arguments is
/// free of ampersands.
pub open spec fn amp_free_args(args: Vec<TemplateArg>, n: int) -> bool
    decreases args, 0int, n,
{
    if n <= 0 || n > args.len() {
        true
    } else {
        amp_free_args(args, n - 1) && match args[n - 1] {
            TemplateArg::Typename(t) => amp_free(t),
            TemplateArg::Constant(lit) => seq_no_amp(lit@),
            TemplateArg::Unknown => true,
        }
    }
}

/// Whether every spelling embedded anywhere in `t` is free of ampersands.
pub open spec fn amp_free(t: TypeRef) -> bool
    decreases t, 1int, 0int,
{
    match t.kind {
        TypeRefKind::Primitive(cpp) => seq_no_amp(cpp@),
        TypeRefKind::Array(inner, _) => amp_free(*inner),
        TypeRefKind::StdVector(nm, elem) => name_no_amp(nm) && amp_free(*elem),
        TypeRefKind::StdTuple(nm, elems) => name_no_amp(nm) && amp_free_elems(
            elems,
            elems.len() as int,
        ),
        TypeRefKind::Pointer(inner) => amp_free(*inner),
        TypeRefKind::Reference(inner) => amp_free(*inner),
        TypeRefKind::RValueReference(inner) => amp_free(*inner),
        TypeRefKind::SmartPtr(nm, p) => name_no_amp(nm) && amp_free(*p),
        TypeRefKind::Class(nm, args) => name_no_amp(nm) && amp_free_args(
            args,
            args.len() as int,
        ),
        TypeRefKind::Enum(nm) => name_no_amp(nm),
        TypeRefKind::Typedef(nm, u) => name_no_amp(nm) && amp_free(*u),
        TypeRefKind::Generic(g) => seq_no_amp(g@),
        TypeRefKind::Function(nm) => name_no_amp(nm),
        TypeRefKind::Ignored => true,
    }
}

/// Concatenation preserves the absence of ampersands.
pub broadcast proof fn lemma_no_amp_concat(a: Seq<char>, b: Seq<char>)
    requires
        seq_no_amp(a),
        seq_no_amp(b),
    ensures
        #[trigger] seq_no_amp(a + b),
{
    assert forall|i: int| 0 <= i < (a + b).len() implies (a + b)[i] != '&' by {
        if i < a.len() {
            assert((a + b)[i] == a[i]);
        } else {
            assert((a + b)[i] == b[i - a.len()]);
        }
    }
}

/// Subranges preserve the absence of ampersands.
pub broadcast proof fn lemma_no_amp_subrange(s: Seq<char>, i: int, j: int)
    requires
        seq_no_amp(s),
        0 <= i <= j <= s.len(),
    ensures
        #[trigger] seq_no_amp(s.subrange(i, j)),
{
    assert forall|k: int| 0 <= k < s.subrange(i, j).len() implies s.subrange(i, j)[k] != '&' by {
        assert(s.subrange(i, j)[k] == s[i + k]);
    }
}

/// Decimal spellings contain only digits, so no ampersand.
pub proof fn lemma_decimal_no_amp(n: nat)
    ensures
        seq_no_amp(spec_decimal(n)),
    decreases n,
{
    broadcast use lemma_no_amp_concat;

    if n < 10 {
        assert(seq_no_amp(seq![spec_digit_char(n as int)]));
    } else {
        lemma_decimal_no_amp(n / 10);
        assert(seq_no_amp(seq![spec_digit_char((n % 10) as int)]));
    }
}

/// The fixed pieces of declarator syntax contain no ampersand.
proof fn lemma_lits_no_amp()
    ensures
        seq_no_amp("const "@),
        seq_no_amp(" "@),
        seq_no_amp("*"@),
        seq_no_amp("**"@),
        seq_no_amp("(*"@),
        seq_no_amp(")["@),
        seq_no_amp("]"@),
        seq_no_amp("<"@),
        seq_no_amp(">"@),
        seq_no_amp(", "@),
        seq_no_amp(")"@),
        seq_no_amp("<ignored>"@),
        seq_no_amp(Seq::<char>::empty()),
{
    reveal_strlit("const ");
    reveal_strlit(" ");
    reveal_strlit("*");
    reveal_strlit("**");
    reveal_strlit("(*");
    reveal_strlit(")[");
    reveal_strlit("]");
    reveal_strlit("<");
    reveal_strlit(">");
    reveal_strlit(", ");
    reveal_strlit(")");
    reveal_strlit("<ignored>");
}

/// Extern collapse, absence half: with the extern flag set the renderer
/// never emits an ampersand, for any node and declarator name whose own
/// spellings contain none.
#[verifier::rlimit(100)]
pub proof fn lemma_extern_render_no_amp(t: TypeRef, style: CppNameStyle, name: Seq<char>)
    requires
        amp_free(t),
        seq_no_amp(name),
    ensures
        seq_no_amp(spec_render(t, style, name, true)),
    decreases t, 2int, 0int,
{
    broadcast use lemma_no_amp_concat;
    broadcast use lemma_no_amp_subrange;

    lemma_lits_no_amp();
    assert(seq_no_amp(spec_qual(t.constness)));
    assert(seq_no_amp(spec_space_name(name)));
    assert(seq_no_amp(spec_space_const_name(t.constness, name)));
    match t.kind {
        TypeRefKind::Primitive(_) => {
        },
        TypeRefKind::Array(inner, osize) => {
            lemma_extern_render_no_amp(*inner, style, Seq::empty());
            if osize is Some {
                lemma_decimal_no_amp(osize->0 as nat);
            }
        },
        TypeRefKind::StdVector(_, elem) => {
            lemma_extern_render_no_amp(*elem, style, Seq::empty());
        },
        TypeRefKind::StdTuple(_, elems) => {
            assert(decreases_to!(t => t.kind));
            assert(decreases_to!(t.kind => t.kind->StdTuple_1));
            lemma_tuple_list_no_amp(elems, elems.len() as int);
        },
        TypeRefKind::Pointer(inner) => {
            lemma_extern_render_no_amp(*inner, style, Seq::empty());
        },
        TypeRefKind::Reference(inner) => {
            lemma_extern_render_no_amp(*inner, style, Seq::empty());
        },
        TypeRefKind::RValueReference(inner) => {
            lemma_extern_render_no_amp(*inner, style, Seq::empty());
        },
        TypeRefKind::SmartPtr(_, p) => {
            lemma_extern_render_no_amp(*p, style, Seq::empty());
        },
        TypeRefKind::Class(_, args) => {
            assert(decreases_to!(t => t.kind));
            assert(decreases_to!(t.kind => t.kind->Class_1));
            lemma_tpl_prefix_no_amp(args, style, args.len() as int);
            assert(seq_no_amp(spec_tpl(args, style, true)));
        },
        TypeRefKind::Enum(_) => {
        },
        TypeRefKind::Typedef(_, u) => {
            lemma_extern_render_no_amp(*u, style, Seq::empty());
        },
        TypeRefKind::Generic(_) => {
        },
        TypeRefKind::Function(nm) => {
            let typ = spec_cpp_name(nm, style);
            match crate::text::spec_find_marker(typ, 0) {
                Some(i) => {
                    crate::text::lemma_find_marker_some(typ, 0, i);
                },
                None => {
                },
            }
        },
        TypeRefKind::Ignored => {
        },
    }
}

/// Absence of ampersands in a rendered tuple element list, extern mode.
pub proof fn lemma_tuple_list_no_amp(elems: Vec<TypeRef>, n: int)
    requires
        amp_free_elems(elems, n),
    ensures
        seq_no_amp(spec_tuple_list(elems, true, n)),
    decreases elems, 1int, n,
{
    broadcast use lemma_no_amp_concat;

    lemma_lits_no_amp();
    if n <= 0 || n > elems.len() {
    } else {
        lemma_tuple_list_no_amp(elems, n - 1);
        assert(decreases_to!(elems => elems@));
        assert(decreases_to!(elems@ => elems@[n - 1]));
        lemma_extern_render_no_amp(elems[n - 1], CppNameStyle::Reference, Seq::empty());
    }
}

/// Absence of ampersands in a rendered template argument list, extern mode.
pub proof fn lemma_tpl_prefix_no_amp(args: Vec<TemplateArg>, style: CppNameStyle, n: int)
    requires
        amp_free_args(args, n),
    ensures
        seq_no_amp(spec_tpl_prefix(args, style, true, n)),
    decreases args, 1int, n,
{
    broadcast use lemma_no_amp_concat;

    lemma_lits_no_amp();
    if n <= 0 || n > args.len() {
    } else {
        lemma_tpl_prefix_no_amp(args, style, n - 1);
        match args[n - 1] {
            TemplateArg::Typename(targ) => {
                assert(decreases_to!(args => args@));
                assert(decreases_to!(args@ => args@[n - 1]));
                assert(decreases_to!(args@[n - 1] => args@[n - 1]->Typename_0));
                lemma_extern_render_no_amp(targ, style, Seq::empty());
            },
            TemplateArg::Constant(_) => {
            },
            TemplateArg::Unknown => {
            },
        }
    }
}

/// Extern collapse: a reference type rendered in general mode contains an
/// ampersand; the identical node rendered in extern mode contains a star
/// and — when its spellings and the declarator name carry none — no
/// ampersand at all.
pub proof fn lemma_extern_collapse(t: TypeRef, style: CppNameStyle, name: Seq<char>)
    requires
        spec_is_reference(t.kind),
        amp_free(t),
        seq_no_amp(name),
    ensures
        exists|i: int|
            0 <= i < spec_render(t, style, name, false).len() && spec_render(
                t,
                style,
                name,
                false,
            )[i] == '&',
        exists|i: int|
            0 <= i < spec_render(t, style, name, true).len() && spec_render(
                t,
                style,
                name,
                true,
            )[i] == '*',
        seq_no_amp(spec_render(t, style, name, true)),
{
    lemma_extern_render_no_amp(t, style, name);
    reveal_strlit("&");
    reveal_strlit("&&");
    reveal_strlit("*");
    match t.kind {
        TypeRefKind::Reference(inner) => {
            let g = spec_render(t, style, name, false);
            let x = spec_render(*inner, style, Seq::empty(), false);
            assert(g[x.len() as int] == '&');
            let e = spec_render(t, style, name, true);
            let y = spec_render(*inner, style, Seq::empty(), true);
            assert(e[y.len() as int] == '*');
        },
        TypeRefKind::RValueReference(inner) => {
            let g = spec_render(t, style, name, false);
            let x = spec_render(*inner, style, Seq::empty(), false);
            assert(g[x.len() as int] == '&');
            let e = spec_render(t, style, name, true);
            let y = spec_render(*inner, style, Seq::empty(), true);
            assert(e[y.len() as int] == '*');
        },
        _ => {
        },
    }
}

/// Wrapping a node in one extra plain pointer indirection appends `*` to
/// its unnamed rendering: the ABI-boundary rewrite genuinely delegates to
/// the pointer declarator grammar.
pub proof fn lemma_pointer_wrap(t: TypeRef, style: CppNameStyle, extern_types: bool)
    ensures
        spec_render(
            (TypeRef {
                kind: TypeRefKind::Pointer(Box::new(t)),
                type_hint: TypeHint::Plain,
                constness: Constness::Mut,
                pass_by_opaque_ptr: false,
                abstract_class_ptr: false,
            }),
            style,
            Seq::empty(),
            extern_types,
        ) == spec_render(t, style, Seq::empty(), extern_types) + "*"@,
{
    let w = TypeRef {
        kind: TypeRefKind::Pointer(Box::new(t)),
        type_hint: TypeHint::Plain,
        constness: Constness::Mut,
        pass_by_opaque_ptr: false,
        abstract_class_ptr: false,
    };
    assert(spec_render(w, style, Seq::empty(), extern_types) =~= spec_render(
        t,
        style,
        Seq::empty(),
        extern_types,
    ) + "*"@);
}

/// Idempotence: the rendered string is a function of the node and the
/// configuration alone, so two renderings of the same node under equal
/// configurations are byte-identical.
pub proof fn lemma_render_deterministic(
    t: TypeRef,
    style: CppNameStyle,
    name: Seq<char>,
    extern_types: bool,
    r1: Seq<char>,
    r2: Seq<char>,
)
    requires
        r1 == spec_render(t, style, name, extern_types),
        r2 == spec_render(t, style, name, extern_types),
    ensures
        r1 == r2,
{
}

} // verus!
