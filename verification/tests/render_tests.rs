use declarator::renderer::{render_cpp_tpl, CppExternReturnRenderer, CppRenderer, TypeRefRenderer};
use declarator::type_ref::{
    Constness, CppNameStyle, EntityName, TemplateArg, TypeHint, TypeRef, TypeRefKind,
};

fn plain(kind: TypeRefKind) -> TypeRef {
    TypeRef {
        kind,
        type_hint: TypeHint::Plain,
        constness: Constness::Mut,
        pass_by_opaque_ptr: false,
        abstract_class_ptr: false,
    }
}

fn konst(kind: TypeRefKind) -> TypeRef {
    TypeRef {
        constness: Constness::Const,
        ..plain(kind)
    }
}

fn ent(declaration: &str, reference: &str) -> EntityName {
    EntityName {
        declaration: declaration.to_string(),
        reference: reference.to_string(),
    }
}

fn prim(spelling: &str) -> TypeRef {
    plain(TypeRefKind::Primitive(spelling.to_string()))
}

fn render(style: CppNameStyle, name: &str, extern_types: bool, t: &TypeRef) -> String {
    CppRenderer::new(style, name, extern_types).render(t)
}

#[test]
fn sized_array_named_end_to_end() {
    let t = plain(TypeRefKind::Array(Box::new(prim("int")), Some(4)));
    let out = render(CppNameStyle::Reference, "data", false, &t);
    assert_eq!(out, "int(*data)[4]");
}

#[test]
fn reference_collapses_in_extern_mode_end_to_end() {
    let t = plain(TypeRefKind::Reference(Box::new(prim("double"))));
    let out = render(CppNameStyle::Reference, "v", true, &t);
    assert_eq!(out, "double* v");
}

#[test]
fn sized_array_decays_when_unnamed() {
    let t = plain(TypeRefKind::Array(Box::new(prim("int")), Some(4)));
    assert_eq!(render(CppNameStyle::Reference, "", false, &t), "int**");
}

#[test]
fn sized_array_large_size() {
    let t = plain(TypeRefKind::Array(Box::new(prim("char")), Some(123)));
    let out = render(CppNameStyle::Reference, "a", false, &t);
    assert!(out.contains("(*a)[123]"));
    assert_eq!(out, "char(*a)[123]");
}

#[test]
fn unsized_array_is_flat_pointer() {
    let t = plain(TypeRefKind::Array(Box::new(prim("int")), None));
    assert_eq!(render(CppNameStyle::Reference, "a", false, &t), "int* a");
    // The unsized-array rendering carries no const qualifier at all.
    let tc = konst(TypeRefKind::Array(Box::new(prim("int")), None));
    assert_eq!(render(CppNameStyle::Reference, "a", false, &tc), "int* a");
}

#[test]
fn const_binds_to_primitive_spelling() {
    let t = konst(TypeRefKind::Primitive("int".to_string()));
    assert_eq!(render(CppNameStyle::Reference, "x", false, &t), "const int x");
    assert_eq!(render(CppNameStyle::Reference, "", false, &t), "const int");
}

#[test]
fn const_stays_with_base_type_on_sized_arrays() {
    let t = konst(TypeRefKind::Array(Box::new(prim("int")), Some(4)));
    assert_eq!(render(CppNameStyle::Reference, "a", false, &t), "const int(*a)[4]");
    assert_eq!(render(CppNameStyle::Reference, "", false, &t), "const int**");
}

#[test]
fn const_binds_to_name_on_references_and_pointers() {
    let r = konst(TypeRefKind::Reference(Box::new(prim("int"))));
    assert_eq!(render(CppNameStyle::Reference, "x", false, &r), "int& const x");
    let p = konst(TypeRefKind::Pointer(Box::new(prim("int"))));
    assert_eq!(render(CppNameStyle::Reference, "x", false, &p), "int* const x");
}

#[test]
fn reference_and_rvalue_reference_general_mode() {
    let r = plain(TypeRefKind::Reference(Box::new(prim("int"))));
    assert_eq!(render(CppNameStyle::Reference, "x", false, &r), "int& x");
    let rr = plain(TypeRefKind::RValueReference(Box::new(prim("int"))));
    assert_eq!(render(CppNameStyle::Reference, "x", false, &rr), "int&& x");
    assert_eq!(render(CppNameStyle::Reference, "x", true, &rr), "int* x");
}

#[test]
fn extern_mode_emits_no_ampersand() {
    let r = plain(TypeRefKind::Reference(Box::new(prim("int"))));
    let general = render(CppNameStyle::Reference, "x", false, &r);
    let collapsed = render(CppNameStyle::Reference, "x", true, &r);
    assert!(general.contains('&'));
    assert!(collapsed.contains('*'));
    assert!(!collapsed.contains('&'));
}

#[test]
fn vector_renders_element_without_outer_name() {
    let t = plain(TypeRefKind::StdVector(
        ent("std::vector", "vector"),
        Box::new(prim("int")),
    ));
    assert_eq!(render(CppNameStyle::Declaration, "x", false, &t), "std::vector<int> x");
    assert_eq!(render(CppNameStyle::Reference, "x", false, &t), "vector<int> x");
    // Name isolation: the element spelling carries no trace of the name.
    let named = render(CppNameStyle::Reference, "x", false, &t);
    let unnamed = render(CppNameStyle::Reference, "", false, &t);
    assert_eq!(named, format!("{} x", unnamed));
}

#[test]
fn tuple_elements_always_use_reference_style() {
    let t = plain(TypeRefKind::StdTuple(
        ent("std::tuple", "tuple"),
        vec![
            prim("int"),
            plain(TypeRefKind::Class(ent("cv::Mat", "Mat"), vec![])),
        ],
    ));
    // Even under the fully-qualified style, the elements are spelled in
    // reference style.
    assert_eq!(render(CppNameStyle::Declaration, "t", false, &t), "std::tuple<int, Mat> t");
}

#[test]
fn empty_tuple_renders_empty_list() {
    let t = plain(TypeRefKind::StdTuple(ent("std::tuple", "tuple"), vec![]));
    assert_eq!(render(CppNameStyle::Reference, "", false, &t), "tuple<>");
}

#[test]
fn smart_pointer_wraps_pointee() {
    let t = konst(TypeRefKind::SmartPtr(
        ent("cv::Ptr", "Ptr"),
        Box::new(plain(TypeRefKind::Class(ent("cv::Mat", "Mat"), vec![]))),
    ));
    assert_eq!(render(CppNameStyle::Reference, "p", false, &t), "const Ptr<Mat> p");
}

#[test]
fn class_template_arguments_are_rendered() {
    let t = plain(TypeRefKind::Class(
        ent("cv::Pair", "Pair"),
        vec![
            TemplateArg::Typename(prim("int")),
            TemplateArg::Constant("3".to_string()),
        ],
    ));
    assert_eq!(render(CppNameStyle::Reference, "x", false, &t), "Pair<int, 3> x");
}

#[test]
fn unknown_template_argument_is_dropped() {
    let t = plain(TypeRefKind::Class(
        ent("cv::Pair", "Pair"),
        vec![
            TemplateArg::Typename(prim("int")),
            TemplateArg::Unknown,
            TemplateArg::Typename(prim("char")),
        ],
    ));
    // Two comma-separated entries, not three.
    assert_eq!(render(CppNameStyle::Reference, "", false, &t), "Pair<int, char>");
}

#[test]
fn all_unknown_arguments_leave_empty_brackets() {
    let t = plain(TypeRefKind::Class(
        ent("cv::Odd", "Odd"),
        vec![TemplateArg::Unknown, TemplateArg::Unknown],
    ));
    assert_eq!(render(CppNameStyle::Reference, "", false, &t), "Odd<>");
}

#[test]
fn string_class_suppresses_template_arguments() {
    let mut t = plain(TypeRefKind::Class(
        ent("std::string", "string"),
        vec![TemplateArg::Typename(prim("char"))],
    ));
    t.type_hint = TypeHint::StringLike;
    assert_eq!(render(CppNameStyle::Declaration, "s", false, &t), "std::string s");
}

#[test]
fn template_helper_is_reusable() {
    let t = plain(TypeRefKind::Class(
        ent("cv::Pair", "Pair"),
        vec![
            TemplateArg::Typename(prim("int")),
            TemplateArg::Typename(prim("char")),
        ],
    ));
    let renderer = CppRenderer::new(CppNameStyle::Reference, "ignored", false);
    assert_eq!(render_cpp_tpl(&renderer, &t), "<int, char>");
    assert_eq!(render_cpp_tpl(&renderer, &prim("int")), "");
}

#[test]
fn enum_and_generic_and_ignored() {
    let e = plain(TypeRefKind::Enum(ent("cv::Color", "Color")));
    assert_eq!(render(CppNameStyle::Reference, "c", false, &e), "Color c");
    let g = konst(TypeRefKind::Generic("T".to_string()));
    assert_eq!(render(CppNameStyle::Reference, "v", false, &g), "const T v");
    let i = plain(TypeRefKind::Ignored);
    assert_eq!(render(CppNameStyle::Reference, "x", false, &i), "<ignored> x");
    assert_eq!(render(CppNameStyle::Reference, "", false, &i), "<ignored>");
}

#[test]
fn typedef_uses_its_own_spelling() {
    let t = plain(TypeRefKind::Typedef(
        ent("cv::Alias", "Alias"),
        Box::new(prim("int")),
    ));
    assert_eq!(render(CppNameStyle::Reference, "a", false, &t), "Alias a");
}

#[test]
fn typedef_of_reference_is_bypassed() {
    let t = plain(TypeRefKind::Typedef(
        ent("cv::Ref", "Ref"),
        Box::new(plain(TypeRefKind::Reference(Box::new(prim("int"))))),
    ));
    assert_eq!(render(CppNameStyle::Reference, "a", false, &t), "int& a");
}

#[test]
fn function_pointer_name_is_spliced_into_marker() {
    let t = plain(TypeRefKind::Function(ent(
        "void (*)(int)",
        "void (*)(int)",
    )));
    assert_eq!(render(CppNameStyle::Reference, "cb", false, &t), "void (*cb)(int)");
    assert_eq!(render(CppNameStyle::Reference, "", false, &t), "void (*)(int)");
}

#[test]
fn function_without_marker_appends_name() {
    let t = plain(TypeRefKind::Function(ent("FuncT", "FuncT")));
    assert_eq!(render(CppNameStyle::Reference, "f", false, &t), "FuncT f");
}

#[test]
fn rendering_is_idempotent() {
    let t = konst(TypeRefKind::StdVector(
        ent("std::vector", "vector"),
        Box::new(plain(TypeRefKind::Pointer(Box::new(prim("int"))))),
    ));
    let first = render(CppNameStyle::Declaration, "v", false, &t);
    let second = render(CppNameStyle::Declaration, "v", false, &t);
    assert_eq!(first, second);
    assert_eq!(first, "const std::vector<int*> v");
}

#[test]
fn extern_return_rewrites_string_like_types() {
    let mut t = plain(TypeRefKind::Class(ent("std::string", "string"), vec![]));
    t.type_hint = TypeHint::StringLike;
    assert_eq!(CppExternReturnRenderer.render(&t), "void*");
}

#[test]
fn extern_return_wraps_opaque_passed_types() {
    let mut t = plain(TypeRefKind::Class(ent("cv::Mat", "Mat"), vec![]));
    t.pass_by_opaque_ptr = true;
    assert_eq!(CppExternReturnRenderer.render(&t), "Mat*");
}

#[test]
fn extern_return_passes_abstract_class_pointers_through() {
    let inner = plain(TypeRefKind::Class(ent("cv::Algo", "Algo"), vec![]));
    let mut t = plain(TypeRefKind::Pointer(Box::new(inner)));
    t.pass_by_opaque_ptr = true;
    t.abstract_class_ptr = true;
    assert_eq!(CppExternReturnRenderer.render(&t), "Algo*");
}

#[test]
fn extern_return_passes_plain_types_through() {
    let t = prim("int");
    assert_eq!(CppExternReturnRenderer.render(&t), "int");
    // The delegate renders unnamed, in reference style, with the extern
    // flag set: references still collapse.
    let r = plain(TypeRefKind::Reference(Box::new(prim("int"))));
    assert_eq!(CppExternReturnRenderer.render(&r), "int*");
}

#[test]
fn recurse_clears_the_declarator_name() {
    let renderer = CppRenderer::new(CppNameStyle::Declaration, "outer", true);
    let child = renderer.recurse();
    assert_eq!(child.name, "");
    assert_eq!(child.name_style, CppNameStyle::Declaration);
    assert!(child.extern_types);
}
