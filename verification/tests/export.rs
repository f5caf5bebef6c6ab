use ast_grep_gui::export::{html_escape_exec, sanitize_excel_sheet_name, OutputView, OutputViewSet};

#[test]
fn html_escape_replaces_markup_characters() {
    assert_eq!(html_escape_exec("a < b && \"c\" > d"), "a &lt; b &amp;&amp; &quot;c&quot; &gt; d");
    assert_eq!(html_escape_exec("plain"), "plain");
}

#[test]
fn sheet_names_are_cleaned_and_bounded() {
    assert_eq!(sanitize_excel_sheet_name("a[b]*c?:d/e\\f", 1), "a_b__c__d_e_f");
    assert_eq!(sanitize_excel_sheet_name("", 7), "job_7");
    let long = "x".repeat(40);
    assert_eq!(sanitize_excel_sheet_name(&long, 1).chars().count(), 31);
}

#[test]
fn view_set_operations() {
    let mut s = OutputViewSet::default();
    assert!(s.is_empty());
    s.insert(OutputView::Table);
    assert!(s.is_default_table_only());
    s.insert(OutputView::Summary);
    assert!(s.contains(OutputView::Summary));
    assert!(!s.contains(OutputView::Code));
    assert_eq!(s.to_cli_arg(), "table,summary");
}
