use ast_grep_gui::file_search::ast_file_matches;
use ast_grep_gui::lang::SupportedLanguage;
use ast_grep_gui::recv_infer::{
    format_stored_unknown_hint, hint_fallback_label, hint_for_capture, infer_capture_type, infer_recv_type,
    syntax_kind_literal_hint,
};
use ast_grep_gui::syntax_tree::SyntaxTree;

/// The matched text and `$RECV` hint of every match of `pattern`.
fn recv_hints(src: &str, pattern: &str, lang: SupportedLanguage) -> Vec<(String, Option<String>)> {
    let (items, _) = ast_file_matches(src, pattern, lang, 0, None);
    items.into_iter().map(|m| (m.matched_text, m.recv_type_hint)).collect()
}

fn first_recv_hint(src: &str, pattern: &str, lang: SupportedLanguage) -> Option<String> {
    recv_hints(src, pattern, lang).into_iter().next().expect("one match").1
}

/// The node of kind `kind` spanning the first occurrence of `text` in `src`.
fn node_of(tree: &SyntaxTree, src: &str, text: &str, kind: &str) -> usize {
    let start = src.find(text).expect("text in source");
    tree.node_at(start, start + text.len(), kind).expect("node")
}

#[test]
fn java_method_parameter_receiver_in_if_condition() {
    let src = r#"
class Foo {
  public static String stripComments(String s) {
    if (s == null || s.isEmpty()) return "";
    try {
      return "";
    } catch (Exception e) {
      return "";
    }
  }
}
"#;
    let hint = first_recv_hint(src, "$RECV.isEmpty()", SupportedLanguage::Java);
    assert_eq!(hint.as_deref(), Some("String"));
}

#[test]
fn java_method_parameter_via_method_pattern() {
    let src = r#"
class Bar {
  void f(String s) {
    s.trim();
  }
}
"#;
    let hint = first_recv_hint(src, "$RECV.$METHOD($$$ARGS)", SupportedLanguage::Java);
    assert_eq!(hint.as_deref(), Some("String"));
}

#[test]
fn java_enhanced_for_variable_receiver_in_loop_body() {
    let src = r#"
class Foo {
  List<String> toIfElseLines(List<String> thenLines) {
    java.util.List<String> out = new java.util.ArrayList<>();
    for (String line : thenLines) {
      out.add(line.trim());
    }
    return out;
  }
}
"#;
    let hint = first_recv_hint(src, "$RECV.trim()", SupportedLanguage::Java);
    assert_eq!(hint.as_deref(), Some("String"));
}

#[test]
fn java_method_pattern_resolves_line_trim_inside_add_argument() {
    let src = r#"
class Foo {
  List<String> toIfElseLines(List<String> thenLines, List<String> elseLines) {
    java.util.List<String> out = new java.util.ArrayList<>();
    String blockIndent = "    ";
    out.add("if");
    for (String line : thenLines) {
      out.add(blockIndent + line.trim());
    }
    out.add("else");
    for (String line : elseLines) {
      out.add(blockIndent + line.trim());
    }
    return out;
  }
}
"#;
    let hints = recv_hints(src, "$RECV.$METHOD($$$ARGS)", SupportedLanguage::Java);
    assert!(hints
        .iter()
        .any(|(text, hint)| text.starts_with("out.") && hint.as_deref() == Some("java.util.List<String>")));
    assert!(hints
        .iter()
        .any(|(text, hint)| text.starts_with("line.") && hint.as_deref() == Some("String")));
}

#[test]
fn java_outer_local_receiver_resolves_inside_enhanced_for_block() {
    let src = r#"
class Foo {
  List<String> toIfElseLines(List<String> thenLines) {
    java.util.List<String> out = new java.util.ArrayList<>();
    for (String line : thenLines) {
      out.add(line.trim());
    }
    return out;
  }
}
"#;
    let (text, hint) = recv_hints(src, "$RECV.add($$$ARGS)", SupportedLanguage::Java)
        .into_iter()
        .next()
        .expect("one match");
    assert!(text.starts_with("out."));
    assert_eq!(hint.as_deref(), Some("java.util.List<String>"));
}

#[test]
fn cpp_simple_local_primitive_int() {
    let src = r#"
void f() {
  int x = 0;
  x.foo();
}
"#;
    let hint = first_recv_hint(src, "$RECV.$METHOD($$$ARGS)", SupportedLanguage::Cpp);
    assert_eq!(hint.as_deref(), Some("int"));
}

#[test]
fn cpp_local_without_initializer_omits_variable_name() {
    let src = r#"
void f() {
  CString pat;
  pat.Format("x");
}
"#;
    let hint = first_recv_hint(src, "$RECV.$METHOD($$$ARGS)", SupportedLanguage::Cpp);
    assert_eq!(hint.as_deref(), Some("CString"));
}

#[test]
fn cpp_local_name_is_not_taken_from_initializer_expression() {
    let src = r#"
void f() {
  CString pat;
  int i = src.Find(pat);
  pat.GetLength();
}
"#;
    let hint = first_recv_hint(src, "$RECV.GetLength()", SupportedLanguage::Cpp);
    assert_eq!(hint.as_deref(), Some("CString"));
}

#[test]
fn cpp_parameter_reference_type() {
    let src = r#"
void JsonEscape(const CString& s) {
  s.GetLength();
}
"#;
    let hint = first_recv_hint(src, "$RECV.$METHOD($$$ARGS)", SupportedLanguage::Cpp);
    assert_eq!(hint.as_deref(), Some("const CString &"));
}

#[test]
fn cpp_parameter_pointer_type_for_arrow_call() {
    let src = r#"
void Use(CString* s) {
  s->GetLength();
}
"#;
    let hint = first_recv_hint(src, "$RECV->$METHOD($$$ARGS)", SupportedLanguage::Cpp);
    assert_eq!(hint.as_deref(), Some("CString *"));
}

#[test]
fn cpp_parameter_rvalue_reference_type() {
    let src = r#"
void Use(CString&& s) {
  s.GetLength();
}
"#;
    let hint = first_recv_hint(src, "$RECV.$METHOD($$$ARGS)", SupportedLanguage::Cpp);
    assert_eq!(hint.as_deref(), Some("CString &&"));
}

#[test]
fn cpp_parameter_qualified_type_name() {
    let src = r#"
void Use(const ATL::CStringW& s) {
  s.GetLength();
}
"#;
    let hint = first_recv_hint(src, "$RECV.$METHOD($$$ARGS)", SupportedLanguage::Cpp);
    assert_eq!(hint.as_deref(), Some("const ATL::CStringW &"));
}

#[test]
fn cpp_parameter_in_out_of_line_member_definition() {
    let src = r#"
struct Foo {
  void Use(const CString& s);
};

void Foo::Use(const CString& s) {
  s.GetLength();
}
"#;
    let hint = first_recv_hint(src, "$RECV.$METHOD($$$ARGS)", SupportedLanguage::Cpp);
    assert_eq!(hint.as_deref(), Some("const CString &"));
}

#[test]
fn cpp_second_call_in_chain_resolves_local_type() {
    let src = r#"
void f() {
  CTime time(2024, 3, 15, 10, 30, 0);
  time.Format("%Y").Format("[%s]");
}
"#;
    let hints = recv_hints(src, "$RECV.$METHOD($$$ARGS)", SupportedLanguage::Cpp);
    assert!(hints.len() >= 2, "expected chain to yield two matches, got {}", hints.len());
    let tree = SyntaxTree::parse(src, SupportedLanguage::Cpp).expect("tree");
    let recv_call = node_of(&tree, src, "time.Format(\"%Y\")", "call_expression");
    assert_eq!(ast_grep_gui::recv_infer::cpp_recv_base_name(&tree, recv_call), "time");
    let hint = infer_recv_type(&tree, SupportedLanguage::Cpp, recv_call);
    assert_eq!(hint.as_deref(), Some("CTime.Format"));
    assert!(hints
        .iter()
        .any(|(text, hint)| text == "time.Format(\"%Y\").Format(\"[%s]\")" && hint.as_deref() == Some("CTime.Format")));
}

#[test]
fn cpp_comma_separated_declarators_resolve_third_variable() {
    let src = r#"
void Pattern1_DirectFormatNest4()
{
    CString str1, str2, result_str;
    CTime   time(2024, 3, 15, 10, 30, 0);

    result_str.Format("LOG: %s",
        str2.Format(">> %s",
            str1.Format("[%s]",
                time.Format("%Y/%m/%d"))));
}
"#;
    let hint = first_recv_hint(src, r##"$RECV.Format("LOG: %s", $$$ARGS)"##, SupportedLanguage::Cpp);
    assert_eq!(hint.as_deref(), Some("CString"));
}

#[test]
fn java_infer_capture_chain_field_access_type() {
    let src = r#"
class Inner {
  int y;
}
class Foo {
  Inner inner;
  void m() {
    Foo f = new Foo();
    f.inner;
  }
}
"#;
    let tree = SyntaxTree::parse(src, SupportedLanguage::Java).expect("tree");
    let cap = node_of(&tree, src, "f.inner", "field_access");
    let hint = infer_capture_type(&tree, SupportedLanguage::Java, "CHAIN", cap);
    assert_eq!(hint.as_deref(), Some("Inner"));
}

#[test]
fn cpp_infer_capture_string_literal_under_argument() {
    let src = r#"void f() { x.Format("[%c]", y); }"#;
    let tree = SyntaxTree::parse(src, SupportedLanguage::Cpp).expect("tree");
    let first = node_of(&tree, src, "\"[%c]\"", "string_literal");
    let hint = infer_capture_type(&tree, SupportedLanguage::Cpp, "ARGS", first);
    assert_eq!(hint.as_deref(), Some("StringLiteral"));
}

#[test]
fn cpp_infer_capture_second_arg_nested_format_shows_class_dot_method_not_receiver_type() {
    let src = r#"
void f() {
  CString str;
  CTime time(2024, 3, 15, 10, 30, 0);
  str.Format("[%s]", time.Format("%Y/%m/%d"));
}
"#;
    let tree = SyntaxTree::parse(src, SupportedLanguage::Cpp).expect("tree");
    let b = node_of(&tree, src, "time.Format(\"%Y/%m/%d\")", "call_expression");
    let hint = infer_capture_type(&tree, SupportedLanguage::Cpp, "B", b);
    assert_eq!(hint.as_deref(), Some("CTime.Format"));
}

#[test]
fn cpp_infer_capture_multi_arg_nested_format_shows_class_dot_method() {
    let src = r#"
void f() {
  CString tmp;
  CTime time(2024, 3, 15, 10, 30, 0);
  CTime dt(2024, 3, 15, 10, 30, 0);
  tmp.Format("%s,%s", time.Format("%Y/%m/%d"), dt.Format("%H:%M:%S"));
}
"#;
    let tree = SyntaxTree::parse(src, SupportedLanguage::Cpp).expect("tree");
    let a1 = node_of(&tree, src, "time.Format(\"%Y/%m/%d\")", "call_expression");
    let a2 = node_of(&tree, src, "dt.Format(\"%H:%M:%S\")", "call_expression");
    let hint1 = infer_capture_type(&tree, SupportedLanguage::Cpp, "A", a1);
    let hint2 = infer_capture_type(&tree, SupportedLanguage::Cpp, "A", a2);
    assert_eq!(hint1.as_deref(), Some("CTime.Format"));
    assert_eq!(hint2.as_deref(), Some("CTime.Format"));
}

#[test]
fn cpp_this_and_field_in_class() {
    let src = r#"
class Widget {
  CString title;
  void f() {
    this->Show();
    title.GetLength();
  }
};
"#;
    let tree = SyntaxTree::parse(src, SupportedLanguage::Cpp).expect("tree");
    let this_node = node_of(&tree, src, "this", "this");
    assert_eq!(infer_recv_type(&tree, SupportedLanguage::Cpp, this_node).as_deref(), Some("Widget"));
    let title = first_recv_hint(src, "title.GetLength()", SupportedLanguage::Cpp);
    assert_eq!(title, None);
    let hints = recv_hints(src, "$RECV.GetLength()", SupportedLanguage::Cpp);
    assert_eq!(hints[0].1.as_deref(), Some("CString"));
}

#[test]
fn rust_self_and_let_hints() {
    let src = r#"
struct Point { x: i32 }
impl Point {
    fn f(&self) {
        let v: Vec<u8> = Vec::new();
        v.len();
        self.x;
    }
}
"#;
    let hints = recv_hints(src, "$RECV.len()", SupportedLanguage::Rust);
    assert_eq!(hints[0].1.as_deref(), Some("Vec<u8>"));
    let tree = SyntaxTree::parse(src, SupportedLanguage::Rust).expect("tree");
    let s = node_of(&tree, src, "self.x", "field_expression");
    let recv = tree.first_child[s].expect("child");
    assert_eq!(infer_recv_type(&tree, SupportedLanguage::Rust, recv).as_deref(), Some("Point"));
}

#[test]
fn go_receiver_type_of_method() {
    let src = "package main\nfunc (s *Server) Run() { s.Start() }\n";
    let hints = recv_hints(src, "$RECV.Start()", SupportedLanguage::Go);
    assert_eq!(hints[0].1.as_deref(), Some("*Server"));
}

#[test]
fn python_self_names_the_class() {
    let src = "class Box:\n    size: int\n    def f(self):\n        self.size.bit_length()\n        size.bit_length()\n";
    let tree = SyntaxTree::parse(src, SupportedLanguage::Python).expect("tree");
    let s = node_of(&tree, src, "self", "identifier");
    assert_eq!(infer_recv_type(&tree, SupportedLanguage::Python, s).as_deref(), Some("Box"));
}

#[test]
fn typescript_local_field_and_as_expression() {
    let src = "class Svc {\n  name: string;\n  run() {\n    const n: number = 1;\n    n.toFixed();\n    this.name.trim();\n  }\n}\n";
    let hints = recv_hints(src, "$RECV.toFixed()", SupportedLanguage::TypeScript);
    assert_eq!(hints[0].1.as_deref(), Some(": number"));
    let hints = recv_hints(src, "$RECV.trim()", SupportedLanguage::TypeScript);
    assert_eq!(hints[0].1.as_deref(), Some("string"));
}

#[test]
fn csharp_this_names_the_class() {
    let src = "class Cart {\n  void M() {\n    this.Clear();\n  }\n}\n";
    let tree = SyntaxTree::parse(src, SupportedLanguage::CSharp).expect("tree");
    let this_node = tree.texts.iter().rposition(|t| t == "this").expect("this");
    assert_eq!(infer_recv_type(&tree, SupportedLanguage::CSharp, this_node).as_deref(), Some("Cart"));
}

#[test]
fn kotlin_and_scala_this_name_the_class() {
    let src = "class Shop {\n  fun f() { this.open() }\n}\n";
    let hints = recv_hints(src, "$RECV.open()", SupportedLanguage::Kotlin);
    assert_eq!(hints[0].1.as_deref(), Some("Shop"));
    let src = "class Store {\n  def f() = this.open()\n}\n";
    let hints = recv_hints(src, "$RECV.open()", SupportedLanguage::Scala);
    assert_eq!(hints[0].1.as_deref(), Some("Store"));
}

#[test]
fn literal_labels_and_unknown_hints() {
    let src = r#"void f() { x.Format("[%c]", y); }"#;
    let tree = SyntaxTree::parse(src, SupportedLanguage::Cpp).expect("tree");
    let lit = node_of(&tree, src, "\"[%c]\"", "string_literal");
    assert_eq!(syntax_kind_literal_hint(&tree, lit).as_deref(), Some("StringLiteral"));
    let y = node_of(&tree, src, "y", "identifier");
    assert_eq!(hint_fallback_label(&tree, y), "Identifier");
    assert_eq!(format_stored_unknown_hint(&tree, y), "Identifier\u{1f}y");
    let start = src.find("\"[%c]\"").expect("literal");
    assert_eq!(
        hint_for_capture(&tree, SupportedLanguage::Cpp, start, start + 6, "string_literal").as_deref(),
        Some("StringLiteral")
    );
    assert_eq!(hint_for_capture(&tree, SupportedLanguage::Cpp, 0, 1, "nothing"), None);
    assert_eq!(infer_recv_type(&tree, SupportedLanguage::Auto, lit), None);
}

#[test]
fn tree_links_follow_the_source() {
    let src = "fn main() { let a = 1; }";
    let tree = SyntaxTree::parse(src, SupportedLanguage::Rust).expect("tree");
    assert_eq!(tree.kinds[0], "source_file");
    assert_eq!(tree.parents[0], None);
    let f = tree.first_child[0].expect("function");
    assert_eq!(tree.kinds[f], "function_item");
    let name = tree.field_child(f, "name").expect("name");
    assert_eq!(tree.texts[name], "main");
    assert!(SyntaxTree::parse(src, SupportedLanguage::Auto).is_none());
}
