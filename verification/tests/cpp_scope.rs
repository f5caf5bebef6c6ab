use ast_grep_gui::cpp_scope::{
    cpp_free_function_return_in_translation_unit, cpp_global_var_type_in_translation_unit,
    cpp_type_alias_target_in_translation_unit,
};
use ast_grep_gui::lang::SupportedLanguage;
use ast_grep_gui::syntax_tree::SyntaxTree;

fn cpp_free_fn_return(src: &str, name: &str) -> Option<String> {
    let tree = SyntaxTree::parse(src, SupportedLanguage::Cpp).expect("tree");
    cpp_free_function_return_in_translation_unit(&tree, name)
}

fn cpp_global_var_type(src: &str, name: &str) -> Option<String> {
    let tree = SyntaxTree::parse(src, SupportedLanguage::Cpp).expect("tree");
    cpp_global_var_type_in_translation_unit(&tree, name)
}

fn cpp_alias_target(src: &str, alias: &str) -> Option<String> {
    let tree = SyntaxTree::parse(src, SupportedLanguage::Cpp).expect("tree");
    cpp_type_alias_target_in_translation_unit(&tree, alias)
}

#[test]
fn cpp_free_function_return_prototype_pointer() {
    let src = "CWinApp* AfxGetApp();\nvoid f() { AfxGetApp(); }\n";
    assert_eq!(cpp_free_fn_return(src, "AfxGetApp").as_deref(), Some("CWinApp *"));
}

#[test]
fn cpp_free_function_return_definition() {
    let src = "CWinApp* AfxGetApp() { return nullptr; }\n";
    assert_eq!(cpp_free_fn_return(src, "AfxGetApp").as_deref(), Some("CWinApp *"));
}

#[test]
fn cpp_free_function_return_void() {
    let src = "void DoSomething();\n";
    assert_eq!(cpp_free_fn_return(src, "DoSomething").as_deref(), Some("void"));
}

#[test]
fn cpp_free_function_return_in_namespace_one_level() {
    let src = "namespace N {\nCWinApp* AfxGetApp();\n}\n";
    assert_eq!(cpp_free_fn_return(src, "AfxGetApp").as_deref(), Some("CWinApp *"));
}

#[test]
fn cpp_free_function_return_in_extern_c_block() {
    let src = "extern \"C\" {\nCWinApp* AfxGetApp();\n}\n";
    assert_eq!(cpp_free_fn_return(src, "AfxGetApp").as_deref(), Some("CWinApp *"));
}

#[test]
fn cpp_free_function_return_ignores_variable() {
    let src = "CWinApp* g_app;\n";
    assert_eq!(cpp_free_fn_return(src, "g_app"), None);
}

#[test]
fn cpp_free_function_return_ignores_same_name_local_call_in_body() {
    let src = "void f() {\n  CWinApp* AfxGetApp();\n}\n";
    assert_eq!(cpp_free_fn_return(src, "AfxGetApp"), None);
}

#[test]
fn cpp_global_var_type_extern_stripped() {
    let src = "extern CWinApp theApp;\nvoid f() { theApp.m_x; }\n";
    assert_eq!(cpp_global_var_type(src, "theApp").as_deref(), Some("CWinApp"));
}

#[test]
fn cpp_global_var_type_pointer() {
    let src = "CWinApp* theApp;\n";
    assert_eq!(cpp_global_var_type(src, "theApp").as_deref(), Some("CWinApp *"));
}

#[test]
fn cpp_global_var_type_static_stripped() {
    let src = "static CWinApp s_app;\n";
    assert_eq!(cpp_global_var_type(src, "s_app").as_deref(), Some("CWinApp"));
}

#[test]
fn cpp_global_var_type_ignores_function_prototype() {
    let src = "void f();\n";
    assert_eq!(cpp_global_var_type(src, "f"), None);
}

#[test]
fn cpp_global_var_type_ignores_local_declaration_in_body() {
    let src = "void f() {\n  CWinApp theApp;\n}\n";
    assert_eq!(cpp_global_var_type(src, "theApp"), None);
}

#[test]
fn cpp_type_alias_target_typedef() {
    let src = "typedef CWinApp App;\n";
    assert_eq!(cpp_alias_target(src, "App").as_deref(), Some("CWinApp"));
}

#[test]
fn cpp_type_alias_target_using() {
    let src = "using App = CWinApp;\n";
    assert_eq!(cpp_alias_target(src, "App").as_deref(), Some("CWinApp"));
}

#[test]
fn cpp_type_alias_target_in_namespace_one_level() {
    let src = "namespace N {\nusing App = CWinApp;\n}\n";
    assert_eq!(cpp_alias_target(src, "App").as_deref(), Some("CWinApp"));
}

#[test]
fn cpp_type_alias_target_not_found() {
    let src = "typedef CWinApp App;\n";
    assert_eq!(cpp_alias_target(src, "Other"), None);
}

#[test]
fn cpp_typedef_multiple_declarators_resolve() {
    let src = "typedef int A, *PA;\n";
    assert_eq!(cpp_alias_target(src, "A").as_deref(), Some("int"));
    assert_eq!(cpp_alias_target(src, "PA").as_deref(), Some("int *"));
}

#[test]
fn cpp_typedef_function_pointer_is_none() {
    let src = "typedef int (*FN)(void);\n";
    assert_eq!(cpp_alias_target(src, "FN"), None);
}

#[test]
fn typedef_of_struct_names_its_tag() {
    let src = "typedef struct tagPOINT { long x; } POINT;\ntypedef struct { int y; } ANON;\n";
    assert_eq!(cpp_alias_target(src, "POINT").as_deref(), Some("tagPOINT"));
    assert_eq!(cpp_alias_target(src, "ANON"), None);
}
