use ast_grep_gui::cpp_sources::{
    cpp_class_bases_for_sources, cpp_field_type_for_class_in_sources, cpp_free_function_return_for_sources,
    cpp_global_var_type_for_sources, cpp_macro_return_for_sources, cpp_method_return_for_class_in_sources,
    CppSources,
};
use ast_grep_gui::lang::SupportedLanguage;
use ast_grep_gui::receiver_hint::cpp_scan_defines;
use ast_grep_gui::syntax_tree::SyntaxTree;

/// The sources of one file, the file first and then its headers in order.
fn sources(files: &[&str]) -> CppSources {
    let mut trees = Vec::new();
    let mut defines = Vec::new();
    for f in files {
        trees.push(SyntaxTree::parse(f, SupportedLanguage::Cpp).expect("tree"));
        defines.push(cpp_scan_defines(f));
    }
    CppSources { trees, defines }
}

#[test]
fn cpp_field_resolves_via_type_alias_one_level() {
    let src = "class CWinApp { public: int m_x; };\ntypedef CWinApp App;\nvoid f() { App* p; p->m_x; }\n";
    let s = sources(&[src]);
    let ty = cpp_field_type_for_class_in_sources(&s, "App", "m_x");
    assert_eq!(ty.as_deref(), Some("int"));
}

#[test]
fn cpp_alias_expansion_is_one_level_only() {
    let src = "class CWinApp { public: int m_x; };\ntypedef CWinApp App;\ntypedef App App2;\n";
    let s = sources(&[src]);
    let ty = cpp_field_type_for_class_in_sources(&s, "App2", "m_x");
    assert_eq!(ty, None);
}

#[test]
fn cpp_macro_cast_return_resolves_in_source() {
    let src = "#define M(x) ((CWinApp*)(x))\nclass CWinApp {};\nvoid f() { M(123); }\n";
    let s = sources(&[src]);
    let ty = cpp_macro_return_for_sources(&s, "M", true);
    assert_eq!(ty.as_deref(), Some("CWinApp *"));
}

#[test]
fn cpp_macro_deref_alias_resolves_in_source() {
    let src = "class CWinApp {};\nCWinApp* AfxGetApp();\n#define theApp (*AfxGetApp())\n";
    let s = sources(&[src]);
    let ty = cpp_macro_return_for_sources(&s, "theApp", false);
    assert_eq!(ty.as_deref(), Some("CWinApp"));
}

#[test]
fn cpp_macro_ident_alias_resolves_global_var() {
    let src = "class CWinApp {};\nextern CWinApp theApp;\n#define MYAPP theApp\n";
    let s = sources(&[src]);
    let ty = cpp_macro_return_for_sources(&s, "MYAPP", false);
    assert_eq!(ty.as_deref(), Some("CWinApp"));
}

#[test]
fn cpp_macro_ident_alias_call_resolves_free_function() {
    let src = "class CWinApp {};\nCWinApp* AfxGetApp();\n#define WRAP AfxGetApp\n";
    let s = sources(&[src]);
    let ty = cpp_macro_return_for_sources(&s, "WRAP", true);
    assert_eq!(ty.as_deref(), Some("CWinApp *"));
}

#[test]
fn cpp_macro_non_matching_returns_none() {
    let src = "#define FOO 1 + 2\n";
    let s = sources(&[src]);
    assert_eq!(cpp_macro_return_for_sources(&s, "FOO", true), None);
    assert_eq!(cpp_macro_return_for_sources(&s, "FOO", false), None);
}

#[test]
fn cpp_sources_cast_macro_not_a_value() {
    let src = "#define M(x) ((CWinApp*)(x))\nclass CWinApp {};\n";
    let s = sources(&[src]);
    assert_eq!(cpp_macro_return_for_sources(&s, "M", false), None);
}

#[test]
fn cpp_sources_macro_and_alias_from_header() {
    let main = "#include <afx.h>\nvoid f() { App* p; p->m_x; M(1); }\n";
    let header = "#define M(x) ((CWinApp*)(x))\nclass CWinApp { public: int m_x; };\ntypedef CWinApp App;\n";
    let s = sources(&[main, header]);
    assert_eq!(cpp_macro_return_for_sources(&s, "M", true).as_deref(), Some("CWinApp *"));
    assert_eq!(cpp_field_type_for_class_in_sources(&s, "App", "m_x").as_deref(), Some("int"));
}

#[test]
fn cpp_sources_field_found_in_base_class() {
    let src = "class Base { public: int m_x; };\nclass Derived : public Base { };\n";
    let s = sources(&[src]);
    assert_eq!(cpp_field_type_for_class_in_sources(&s, "Derived", "m_x").as_deref(), Some("int"));
    assert_eq!(cpp_field_type_for_class_in_sources(&s, "Derived", "m_x").as_deref(), Some("int"));
    assert_eq!(cpp_field_type_for_class_in_sources(&s, "Derived", "m_y"), None);
}

#[test]
fn cpp_sources_derived_member_wins_over_base() {
    let src = "class Base { public: int m_x; };\nclass Derived : public Base { public: long m_x; };\n";
    let s = sources(&[src]);
    assert_eq!(cpp_field_type_for_class_in_sources(&s, "Derived", "m_x").as_deref(), Some("long"));
}

#[test]
fn cpp_sources_method_found_two_levels_up() {
    let src = "class A { public: int run(); };\nclass B : public A { };\nclass C : public B { };\n";
    let s = sources(&[src]);
    assert_eq!(cpp_method_return_for_class_in_sources(&s, "C", "run").as_deref(), Some("int"));
}

#[test]
fn cpp_sources_cyclic_bases_end() {
    let src = "class A : public B { };\nclass B : public A { };\n";
    let s = sources(&[src]);
    assert_eq!(cpp_field_type_for_class_in_sources(&s, "A", "m_x"), None);
}

#[test]
fn cpp_sources_bases_listed() {
    let src = "class A { };\nclass B { };\nclass C : public A, public B { };\n";
    let s = sources(&[src]);
    assert_eq!(cpp_class_bases_for_sources(&s, "C"), vec!["A".to_string(), "B".to_string()]);
    assert!(cpp_class_bases_for_sources(&s, "A").is_empty());
}

#[test]
fn cpp_sources_free_function_and_global_in_header() {
    let main = "#include <afx.h>\nvoid f() { AfxGetApp(); }\n";
    let header = "class CWinApp {};\nCWinApp* AfxGetApp();\nextern CWinApp theApp;\n";
    let s = sources(&[main, header]);
    assert_eq!(cpp_free_function_return_for_sources(&s, "AfxGetApp").as_deref(), Some("CWinApp *"));
    assert_eq!(cpp_global_var_type_for_sources(&s, "theApp").as_deref(), Some("CWinApp"));
    assert_eq!(cpp_global_var_type_for_sources(&s, "missing"), None);
}
